//! Settings model, value validation, and write-safety classification for a
//! Hyprland settings editor.
pub mod text;
pub mod value;
pub mod id_list;
pub mod export;
pub mod validation;
pub mod ux_presentation;
pub mod write_classification;
pub mod allowlist_laws;
pub mod lines;
pub mod stable_sort;
pub mod current_config;
pub mod write_flow;
pub mod config_parser;
pub mod write_enablement_readiness;
pub mod write_target_candidate;
pub mod write_advanced_confirmation;
pub mod write_backup_plan;
pub mod ui;
