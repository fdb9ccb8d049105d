//! Which scalar settings may be written, with which value kind, and the
//! review policies of the session-sensitive and high-risk ones.
use vstd::prelude::*;
use crate::export::InventoryEntry;
use crate::text::{chars_of, concat2, push_char, str_eq, trim, trim_str};

verus! {

/// The outcome of classifying one inventory row for scalar writes.
#[derive(Debug, Clone, Copy, PartialEq, Eq, Structural)]
pub enum ScalarWriteStatus {
    SafeWritable,
    BlockedHighRisk,
    BlockedParserNeeded,
    BlockedValidatorNeeded,
    BlockedStructured,
    BlockedAmbiguousKey,
    BlockedSpecialSemantics,
    BlockedManualReview,
    Unsupported,
}

/// The kind of value a writable setting takes.
#[derive(Debug, Clone, Copy, PartialEq, Eq, Structural)]
pub enum ScalarWriteValueKind {
    Boolean,
    FiniteChoice,
    SourceBacked,
    MonitorName,
    Number,
    Percent,
    Color,
    Gradient,
    Vector2,
    NumericList,
    CommaSeparatedFloatList,
    LineSafeString,
    Path,
    RegexString,
    StringLike,
    ComplexRaw,
    Unknown,
}

/// The write classification of one inventory row.
#[derive(Debug, Clone)]
pub struct ScalarWriteClassification {
    pub row_id: String,
    pub official_setting: String,
    pub config_key: String,
    pub status: ScalarWriteStatus,
    pub blocker: Option<String>,
    pub value_kind: ScalarWriteValueKind,
}

/// A row on the safe write allowlist.
#[derive(Debug, Clone, Copy, PartialEq, Eq)]
pub struct SafeWritableRow {
    pub row_id: &'static str,
    pub official_setting: &'static str,
    pub value_kind: ScalarWriteValueKind,
}

/// One verified value of a finite-choice setting and its label.
#[derive(Debug, Clone, Copy, PartialEq, Eq)]
pub struct FiniteChoiceOption {
    pub raw_value: &'static str,
    pub label: &'static str,
}

/// How a session- or runtime-sensitive setting is written and reviewed.
#[derive(Debug, Clone, Copy, PartialEq, Eq)]
pub struct SessionRuntimeWritePolicy {
    pub scope: &'static str,
    pub apply_path: &'static str,
    pub reread_oracle: &'static str,
    pub recovery_strategy: &'static str,
    pub approval_gate: &'static str,
    pub runtime_effect: &'static str,
    pub review_warning: &'static str,
}

/// How a high-risk writable setting is gated and recovered.
#[derive(Debug, Clone, Copy, PartialEq, Eq)]
pub struct HighRiskWritePolicy {
    pub recovery_bucket: &'static str,
    pub approval_gate: &'static str,
    pub watchdog_requirement: &'static str,
    pub review_warning: &'static str,
}

/// Finite-choice rows whose choices had conflicting sources.
pub open spec fn spec_conflict_finite_choice_rows() -> Seq<&'static str> {
    seq![
        "general.resize_corner",
        "input.focus_on_close",
        "input.float_switch_override_focus",
        "input.off_window_axis_events",
        "input.emulate_discrete_scroll",
        "input.touchpad.drag_lock",
        "input.touchpad.drag_3fg",
        "input.virtualkeyboard.share_states",
        "group.drag_into_group",
        "dwindle.force_split",
        "dwindle.split_bias",
        "scrolling.focus_fit_method",
    ]
}

/// Finite-choice rows whose choices had conflicting sources.
pub fn conflict_finite_choice_rows() -> (r: &'static [&'static str])
    ensures
        r@ == spec_conflict_finite_choice_rows(),
{
    let t: &'static [&'static str] = &[
        "general.resize_corner",
        "input.focus_on_close",
        "input.float_switch_override_focus",
        "input.off_window_axis_events",
        "input.emulate_discrete_scroll",
        "input.touchpad.drag_lock",
        "input.touchpad.drag_3fg",
        "input.virtualkeyboard.share_states",
        "group.drag_into_group",
        "dwindle.force_split",
        "dwindle.split_bias",
        "scrolling.focus_fit_method",
    ];
    assert(t@ =~= spec_conflict_finite_choice_rows());
    t
}

/// The remaining finite-choice rows.
pub open spec fn spec_remaining_finite_choice_rows() -> Seq<&'static str> {
    seq![
        "layout.selection",
        "input.follow_mouse",
        "input.scroll_method",
        "input.touchpad.tap_button_map",
        "master.new_status",
        "master.new_on_active",
        "master.orientation",
        "scrolling.direction",
        "master.center_master_fallback",
    ]
}

/// The remaining finite-choice rows.
pub fn remaining_finite_choice_rows() -> (r: &'static [&'static str])
    ensures
        r@ == spec_remaining_finite_choice_rows(),
{
    let t: &'static [&'static str] = &[
        "layout.selection",
        "input.follow_mouse",
        "input.scroll_method",
        "input.touchpad.tap_button_map",
        "master.new_status",
        "master.new_on_active",
        "master.orientation",
        "scrolling.direction",
        "master.center_master_fallback",
    ];
    assert(t@ =~= spec_remaining_finite_choice_rows());
    t
}

/// Rows whose values come from a keyboard-layout source.
pub open spec fn spec_source_backed_input_rows() -> Seq<&'static str> {
    seq![
        "input.kb_model",
        "input.kb_layout",
        "input.kb_variant",
        "input.kb_options",
        "input.kb_rules",
    ]
}

/// Rows whose values come from a keyboard-layout source.
pub fn source_backed_input_rows() -> (r: &'static [&'static str])
    ensures
        r@ == spec_source_backed_input_rows(),
{
    let t: &'static [&'static str] = &[
        "input.kb_model",
        "input.kb_layout",
        "input.kb_variant",
        "input.kb_options",
        "input.kb_rules",
    ];
    assert(t@ =~= spec_source_backed_input_rows());
    t
}

/// Rows that name a monitor output.
pub open spec fn spec_monitor_output_rows() -> Seq<&'static str> {
    seq![
        "input.touchdevice.output",
        "input.tablet.output",
    ]
}

/// Rows that name a monitor output.
pub fn monitor_output_rows() -> (r: &'static [&'static str])
    ensures
        r@ == spec_monitor_output_rows(),
{
    let t: &'static [&'static str] = &[
        "input.touchdevice.output",
        "input.tablet.output",
    ];
    assert(t@ =~= spec_monitor_output_rows());
    t
}

/// Rows whose effect depends on the running session.
pub open spec fn spec_session_runtime_sensitive_rows() -> Seq<&'static str> {
    seq![
        "appearance.fullscreen_opacity",
        "appearance.blur.xray",
        "general.allow_tearing",
        "general.locale",
        "misc.vrr",
        "misc.mouse_move_enables_dpms",
        "misc.key_press_enables_dpms",
        "misc.disable_autoreload",
        "misc.focus_on_activate",
        "misc.allow_session_lock_restore",
        "misc.session_lock_xray",
        "misc.on_focus_under_fullscreen",
        "misc.exit_window_retains_fullscreen",
        "binds.movefocus_cycles_fullscreen",
        "binds.allow_pin_fullscreen",
        "scrolling.fullscreen_on_one_column",
    ]
}

/// Rows whose effect depends on the running session.
pub fn session_runtime_sensitive_rows() -> (r: &'static [&'static str])
    ensures
        r@ == spec_session_runtime_sensitive_rows(),
{
    let t: &'static [&'static str] = &[
        "appearance.fullscreen_opacity",
        "appearance.blur.xray",
        "general.allow_tearing",
        "general.locale",
        "misc.vrr",
        "misc.mouse_move_enables_dpms",
        "misc.key_press_enables_dpms",
        "misc.disable_autoreload",
        "misc.focus_on_activate",
        "misc.allow_session_lock_restore",
        "misc.session_lock_xray",
        "misc.on_focus_under_fullscreen",
        "misc.exit_window_retains_fullscreen",
        "binds.movefocus_cycles_fullscreen",
        "binds.allow_pin_fullscreen",
        "scrolling.fullscreen_on_one_column",
    ];
    assert(t@ =~= spec_session_runtime_sensitive_rows());
    t
}

/// High-risk ecosystem rows that are writable under extra gates.
pub open spec fn spec_ecosystem_high_risk_writable_rows() -> Seq<&'static str> {
    seq![
        "ecosystem.no_update_news",
        "ecosystem.no_donation_nag",
        "ecosystem.enforce_permissions",
    ]
}

/// High-risk ecosystem rows that are writable under extra gates.
pub fn ecosystem_high_risk_writable_rows() -> (r: &'static [&'static str])
    ensures
        r@ == spec_ecosystem_high_risk_writable_rows(),
{
    let t: &'static [&'static str] = &[
        "ecosystem.no_update_news",
        "ecosystem.no_donation_nag",
        "ecosystem.enforce_permissions",
    ];
    assert(t@ =~= spec_ecosystem_high_risk_writable_rows());
    t
}

/// The boolean toggle rows of the allowlist and their official settings.
pub open spec fn spec_safe_writable_toggle_rows() -> Seq<(&'static str, &'static str)> {
    seq![
        ("appearance.dim.modal", "decoration.dim_modal"),
        ("appearance.dim.inactive", "decoration.dim_inactive"),
        ("appearance.border_part_of_window", "decoration.border_part_of_window"),
        ("appearance.blur.enabled", "decoration.blur.enabled"),
        ("appearance.blur.ignore_opacity", "decoration.blur.ignore_opacity"),
        ("appearance.blur.new_optimizations", "decoration.blur.new_optimizations"),
        ("appearance.blur.special", "decoration.blur.special"),
        ("appearance.blur.popups", "decoration.blur.popups"),
        ("appearance.blur.input_methods", "decoration.blur.input_methods"),
        ("appearance.shadow.enabled", "decoration.shadow.enabled"),
        ("appearance.shadow.sharp", "decoration.shadow.sharp"),
        ("appearance.glow.enabled", "decoration.glow.enabled"),
        ("animations.enabled", "animations.enabled"),
        ("animations.workspace_wraparound", "animations.workspace_wraparound"),
        ("group.groupbar.enabled", "group.groupbar.enabled"),
        ("group.groupbar.gradients", "group.groupbar.gradients"),
        ("group.groupbar.stacked", "group.groupbar.stacked"),
        ("group.groupbar.render_titles", "group.groupbar.render_titles"),
        ("group.groupbar.scrolling", "group.groupbar.scrolling"),
        ("group.groupbar.middle_click_close", "group.groupbar.middle_click_close"),
        ("group.groupbar.round_only_edges", "group.groupbar.round_only_edges"),
        ("group.groupbar.gradient_round_only_edges", "group.groupbar.gradient_round_only_edges"),
        ("group.groupbar.keep_upper_gap", "group.groupbar.keep_upper_gap"),
        ("group.groupbar.blur", "group.groupbar.blur"),
        ("misc.disable_hyprland_logo", "misc.disable_hyprland_logo"),
        ("misc.disable_splash_rendering", "misc.disable_splash_rendering"),
        ("misc.name_vk_after_proc", "misc.name_vk_after_proc"),
        ("misc.always_follow_on_dnd", "misc.always_follow_on_dnd"),
        ("misc.layers_hog_keyboard_focus", "misc.layers_hog_keyboard_focus"),
        ("misc.animate_manual_resizes", "misc.animate_manual_resizes"),
        ("misc.animate_mouse_windowdragging", "misc.animate_mouse_windowdragging"),
        ("misc.enable_swallow", "misc.enable_swallow"),
        ("misc.mouse_move_focuses_monitor", "misc.mouse_move_focuses_monitor"),
        ("misc.close_special_on_empty", "misc.close_special_on_empty"),
        ("misc.middle_click_paste", "misc.middle_click_paste"),
        ("misc.disable_xdg_env_checks", "misc.disable_xdg_env_checks"),
        ("misc.disable_hyprland_guiutils_check", "misc.disable_hyprland_guiutils_check"),
        ("misc.disable_watchdog_warning", "misc.disable_watchdog_warning"),
        ("misc.enable_anr_dialog", "misc.enable_anr_dialog"),
        ("misc.screencopy_force_8b", "misc.screencopy_force_8b"),
        ("misc.disable_scale_notification", "misc.disable_scale_notification"),
        ("misc.size_limits_tiled", "misc.size_limits_tiled"),
        ("windows.snap.enabled", "general.snap.enabled"),
    ]
}

/// The boolean toggle rows of the allowlist and their official settings.
pub fn safe_writable_toggle_rows() -> (r: &'static [(&'static str, &'static str)])
    ensures
        r@ == spec_safe_writable_toggle_rows(),
{
    let t: &'static [(&'static str, &'static str)] = &[
        ("appearance.dim.modal", "decoration.dim_modal"),
        ("appearance.dim.inactive", "decoration.dim_inactive"),
        ("appearance.border_part_of_window", "decoration.border_part_of_window"),
        ("appearance.blur.enabled", "decoration.blur.enabled"),
        ("appearance.blur.ignore_opacity", "decoration.blur.ignore_opacity"),
        ("appearance.blur.new_optimizations", "decoration.blur.new_optimizations"),
        ("appearance.blur.special", "decoration.blur.special"),
        ("appearance.blur.popups", "decoration.blur.popups"),
        ("appearance.blur.input_methods", "decoration.blur.input_methods"),
        ("appearance.shadow.enabled", "decoration.shadow.enabled"),
        ("appearance.shadow.sharp", "decoration.shadow.sharp"),
        ("appearance.glow.enabled", "decoration.glow.enabled"),
        ("animations.enabled", "animations.enabled"),
        ("animations.workspace_wraparound", "animations.workspace_wraparound"),
        ("group.groupbar.enabled", "group.groupbar.enabled"),
        ("group.groupbar.gradients", "group.groupbar.gradients"),
        ("group.groupbar.stacked", "group.groupbar.stacked"),
        ("group.groupbar.render_titles", "group.groupbar.render_titles"),
        ("group.groupbar.scrolling", "group.groupbar.scrolling"),
        ("group.groupbar.middle_click_close", "group.groupbar.middle_click_close"),
        ("group.groupbar.round_only_edges", "group.groupbar.round_only_edges"),
        ("group.groupbar.gradient_round_only_edges", "group.groupbar.gradient_round_only_edges"),
        ("group.groupbar.keep_upper_gap", "group.groupbar.keep_upper_gap"),
        ("group.groupbar.blur", "group.groupbar.blur"),
        ("misc.disable_hyprland_logo", "misc.disable_hyprland_logo"),
        ("misc.disable_splash_rendering", "misc.disable_splash_rendering"),
        ("misc.name_vk_after_proc", "misc.name_vk_after_proc"),
        ("misc.always_follow_on_dnd", "misc.always_follow_on_dnd"),
        ("misc.layers_hog_keyboard_focus", "misc.layers_hog_keyboard_focus"),
        ("misc.animate_manual_resizes", "misc.animate_manual_resizes"),
        ("misc.animate_mouse_windowdragging", "misc.animate_mouse_windowdragging"),
        ("misc.enable_swallow", "misc.enable_swallow"),
        ("misc.mouse_move_focuses_monitor", "misc.mouse_move_focuses_monitor"),
        ("misc.close_special_on_empty", "misc.close_special_on_empty"),
        ("misc.middle_click_paste", "misc.middle_click_paste"),
        ("misc.disable_xdg_env_checks", "misc.disable_xdg_env_checks"),
        ("misc.disable_hyprland_guiutils_check", "misc.disable_hyprland_guiutils_check"),
        ("misc.disable_watchdog_warning", "misc.disable_watchdog_warning"),
        ("misc.enable_anr_dialog", "misc.enable_anr_dialog"),
        ("misc.screencopy_force_8b", "misc.screencopy_force_8b"),
        ("misc.disable_scale_notification", "misc.disable_scale_notification"),
        ("misc.size_limits_tiled", "misc.size_limits_tiled"),
        ("windows.snap.enabled", "general.snap.enabled"),
    ];
    assert(t@ =~= spec_safe_writable_toggle_rows());
    t
}

pub open spec fn safe_rows_part_0() -> Seq<SafeWritableRow> {
    seq![
        SafeWritableRow { row_id: "appearance.dim.modal", official_setting: "decoration.dim_modal", value_kind: ScalarWriteValueKind::Boolean },
        SafeWritableRow { row_id: "appearance.dim.inactive", official_setting: "decoration.dim_inactive", value_kind: ScalarWriteValueKind::Boolean },
        SafeWritableRow { row_id: "appearance.border_part_of_window", official_setting: "decoration.border_part_of_window", value_kind: ScalarWriteValueKind::Boolean },
        SafeWritableRow { row_id: "appearance.blur.enabled", official_setting: "decoration.blur.enabled", value_kind: ScalarWriteValueKind::Boolean },
        SafeWritableRow { row_id: "appearance.blur.ignore_opacity", official_setting: "decoration.blur.ignore_opacity", value_kind: ScalarWriteValueKind::Boolean },
        SafeWritableRow { row_id: "appearance.blur.new_optimizations", official_setting: "decoration.blur.new_optimizations", value_kind: ScalarWriteValueKind::Boolean },
        SafeWritableRow { row_id: "appearance.blur.special", official_setting: "decoration.blur.special", value_kind: ScalarWriteValueKind::Boolean },
        SafeWritableRow { row_id: "appearance.blur.popups", official_setting: "decoration.blur.popups", value_kind: ScalarWriteValueKind::Boolean },
        SafeWritableRow { row_id: "appearance.blur.input_methods", official_setting: "decoration.blur.input_methods", value_kind: ScalarWriteValueKind::Boolean },
        SafeWritableRow { row_id: "appearance.blur.size", official_setting: "decoration.blur.size", value_kind: ScalarWriteValueKind::Number },
        SafeWritableRow { row_id: "appearance.blur.brightness", official_setting: "decoration.blur.brightness", value_kind: ScalarWriteValueKind::Percent },
        SafeWritableRow { row_id: "appearance.blur.contrast", official_setting: "decoration.blur.contrast", value_kind: ScalarWriteValueKind::Percent },
        SafeWritableRow { row_id: "appearance.fullscreen_opacity", official_setting: "decoration.fullscreen_opacity", value_kind: ScalarWriteValueKind::Percent },
        SafeWritableRow { row_id: "appearance.blur.xray", official_setting: "decoration.blur.xray", value_kind: ScalarWriteValueKind::Boolean },
        SafeWritableRow { row_id: "appearance.shadow.enabled", official_setting: "decoration.shadow.enabled", value_kind: ScalarWriteValueKind::Boolean },
        SafeWritableRow { row_id: "appearance.shadow.sharp", official_setting: "decoration.shadow.sharp", value_kind: ScalarWriteValueKind::Boolean },
        SafeWritableRow { row_id: "appearance.shadow.range", official_setting: "decoration.shadow.range", value_kind: ScalarWriteValueKind::Number },
        SafeWritableRow { row_id: "appearance.shadow.render_power", official_setting: "decoration.shadow.render_power", value_kind: ScalarWriteValueKind::Number },
        SafeWritableRow { row_id: "decoration.shadow.color", official_setting: "decoration.shadow.color", value_kind: ScalarWriteValueKind::Color },
        SafeWritableRow { row_id: "decoration.shadow.color_inactive", official_setting: "decoration.shadow.color_inactive", value_kind: ScalarWriteValueKind::Color },
        SafeWritableRow { row_id: "decoration.shadow.offset", official_setting: "decoration.shadow.offset", value_kind: ScalarWriteValueKind::Vector2 },
        SafeWritableRow { row_id: "decoration.screen_shader", official_setting: "decoration.screen_shader", value_kind: ScalarWriteValueKind::Path },
        SafeWritableRow { row_id: "appearance.gaps_in", official_setting: "general.gaps_in", value_kind: ScalarWriteValueKind::Number },
        SafeWritableRow { row_id: "appearance.gaps_out", official_setting: "general.gaps_out", value_kind: ScalarWriteValueKind::Number },
        SafeWritableRow { row_id: "appearance.border_size", official_setting: "general.border_size", value_kind: ScalarWriteValueKind::Number },
        SafeWritableRow { row_id: "appearance.rounding", official_setting: "decoration.rounding", value_kind: ScalarWriteValueKind::Number },
        SafeWritableRow { row_id: "appearance.active_opacity", official_setting: "decoration.active_opacity", value_kind: ScalarWriteValueKind::Percent },
        SafeWritableRow { row_id: "appearance.inactive_opacity", official_setting: "decoration.inactive_opacity", value_kind: ScalarWriteValueKind::Percent },
        SafeWritableRow { row_id: "animations.enabled", official_setting: "animations.enabled", value_kind: ScalarWriteValueKind::Boolean },
        SafeWritableRow { row_id: "animations.workspace_wraparound", official_setting: "animations.workspace_wraparound", value_kind: ScalarWriteValueKind::Boolean },
        SafeWritableRow { row_id: "appearance.glow.enabled", official_setting: "decoration.glow.enabled", value_kind: ScalarWriteValueKind::Boolean },
        SafeWritableRow { row_id: "group.groupbar.enabled", official_setting: "group.groupbar.enabled", value_kind: ScalarWriteValueKind::Boolean },
        SafeWritableRow { row_id: "group.groupbar.gradients", official_setting: "group.groupbar.gradients", value_kind: ScalarWriteValueKind::Boolean },
        SafeWritableRow { row_id: "group.groupbar.stacked", official_setting: "group.groupbar.stacked", value_kind: ScalarWriteValueKind::Boolean },
        SafeWritableRow { row_id: "group.groupbar.render_titles", official_setting: "group.groupbar.render_titles", value_kind: ScalarWriteValueKind::Boolean },
        SafeWritableRow { row_id: "group.groupbar.scrolling", official_setting: "group.groupbar.scrolling", value_kind: ScalarWriteValueKind::Boolean },
        SafeWritableRow { row_id: "group.groupbar.middle_click_close", official_setting: "group.groupbar.middle_click_close", value_kind: ScalarWriteValueKind::Boolean },
        SafeWritableRow { row_id: "group.groupbar.round_only_edges", official_setting: "group.groupbar.round_only_edges", value_kind: ScalarWriteValueKind::Boolean },
        SafeWritableRow { row_id: "group.groupbar.gradient_round_only_edges", official_setting: "group.groupbar.gradient_round_only_edges", value_kind: ScalarWriteValueKind::Boolean },
        SafeWritableRow { row_id: "group.groupbar.keep_upper_gap", official_setting: "group.groupbar.keep_upper_gap", value_kind: ScalarWriteValueKind::Boolean },
    ]
}

pub open spec fn safe_rows_part_1() -> Seq<SafeWritableRow> {
    seq![
        SafeWritableRow { row_id: "group.groupbar.blur", official_setting: "group.groupbar.blur", value_kind: ScalarWriteValueKind::Boolean },
        SafeWritableRow { row_id: "misc.disable_hyprland_logo", official_setting: "misc.disable_hyprland_logo", value_kind: ScalarWriteValueKind::Boolean },
        SafeWritableRow { row_id: "misc.disable_splash_rendering", official_setting: "misc.disable_splash_rendering", value_kind: ScalarWriteValueKind::Boolean },
        SafeWritableRow { row_id: "misc.name_vk_after_proc", official_setting: "misc.name_vk_after_proc", value_kind: ScalarWriteValueKind::Boolean },
        SafeWritableRow { row_id: "misc.always_follow_on_dnd", official_setting: "misc.always_follow_on_dnd", value_kind: ScalarWriteValueKind::Boolean },
        SafeWritableRow { row_id: "misc.layers_hog_keyboard_focus", official_setting: "misc.layers_hog_keyboard_focus", value_kind: ScalarWriteValueKind::Boolean },
        SafeWritableRow { row_id: "misc.animate_manual_resizes", official_setting: "misc.animate_manual_resizes", value_kind: ScalarWriteValueKind::Boolean },
        SafeWritableRow { row_id: "misc.animate_mouse_windowdragging", official_setting: "misc.animate_mouse_windowdragging", value_kind: ScalarWriteValueKind::Boolean },
        SafeWritableRow { row_id: "misc.enable_swallow", official_setting: "misc.enable_swallow", value_kind: ScalarWriteValueKind::Boolean },
        SafeWritableRow { row_id: "misc.mouse_move_focuses_monitor", official_setting: "misc.mouse_move_focuses_monitor", value_kind: ScalarWriteValueKind::Boolean },
        SafeWritableRow { row_id: "misc.close_special_on_empty", official_setting: "misc.close_special_on_empty", value_kind: ScalarWriteValueKind::Boolean },
        SafeWritableRow { row_id: "misc.middle_click_paste", official_setting: "misc.middle_click_paste", value_kind: ScalarWriteValueKind::Boolean },
        SafeWritableRow { row_id: "misc.disable_xdg_env_checks", official_setting: "misc.disable_xdg_env_checks", value_kind: ScalarWriteValueKind::Boolean },
        SafeWritableRow { row_id: "misc.disable_hyprland_guiutils_check", official_setting: "misc.disable_hyprland_guiutils_check", value_kind: ScalarWriteValueKind::Boolean },
        SafeWritableRow { row_id: "misc.disable_watchdog_warning", official_setting: "misc.disable_watchdog_warning", value_kind: ScalarWriteValueKind::Boolean },
        SafeWritableRow { row_id: "misc.enable_anr_dialog", official_setting: "misc.enable_anr_dialog", value_kind: ScalarWriteValueKind::Boolean },
        SafeWritableRow { row_id: "misc.screencopy_force_8b", official_setting: "misc.screencopy_force_8b", value_kind: ScalarWriteValueKind::Boolean },
        SafeWritableRow { row_id: "misc.disable_scale_notification", official_setting: "misc.disable_scale_notification", value_kind: ScalarWriteValueKind::Boolean },
        SafeWritableRow { row_id: "misc.size_limits_tiled", official_setting: "misc.size_limits_tiled", value_kind: ScalarWriteValueKind::Boolean },
        SafeWritableRow { row_id: "misc.vrr", official_setting: "misc.vrr", value_kind: ScalarWriteValueKind::FiniteChoice },
        SafeWritableRow { row_id: "misc.mouse_move_enables_dpms", official_setting: "misc.mouse_move_enables_dpms", value_kind: ScalarWriteValueKind::Boolean },
        SafeWritableRow { row_id: "misc.key_press_enables_dpms", official_setting: "misc.key_press_enables_dpms", value_kind: ScalarWriteValueKind::Boolean },
        SafeWritableRow { row_id: "misc.disable_autoreload", official_setting: "misc.disable_autoreload", value_kind: ScalarWriteValueKind::Boolean },
        SafeWritableRow { row_id: "misc.focus_on_activate", official_setting: "misc.focus_on_activate", value_kind: ScalarWriteValueKind::Boolean },
        SafeWritableRow { row_id: "misc.allow_session_lock_restore", official_setting: "misc.allow_session_lock_restore", value_kind: ScalarWriteValueKind::Boolean },
        SafeWritableRow { row_id: "misc.session_lock_xray", official_setting: "misc.session_lock_xray", value_kind: ScalarWriteValueKind::Boolean },
        SafeWritableRow { row_id: "misc.on_focus_under_fullscreen", official_setting: "misc.on_focus_under_fullscreen", value_kind: ScalarWriteValueKind::FiniteChoice },
        SafeWritableRow { row_id: "misc.exit_window_retains_fullscreen", official_setting: "misc.exit_window_retains_fullscreen", value_kind: ScalarWriteValueKind::Boolean },
        SafeWritableRow { row_id: "windows.snap.enabled", official_setting: "general.snap.enabled", value_kind: ScalarWriteValueKind::Boolean },
        SafeWritableRow { row_id: "general.allow_tearing", official_setting: "general.allow_tearing", value_kind: ScalarWriteValueKind::Boolean },
        SafeWritableRow { row_id: "general.locale", official_setting: "general.locale", value_kind: ScalarWriteValueKind::LineSafeString },
        SafeWritableRow { row_id: "windows.snap.window_gap", official_setting: "general.snap.window_gap", value_kind: ScalarWriteValueKind::Number },
        SafeWritableRow { row_id: "windows.snap.monitor_gap", official_setting: "general.snap.monitor_gap", value_kind: ScalarWriteValueKind::Number },
        SafeWritableRow { row_id: "general.col.inactive_border", official_setting: "general.col.inactive_border", value_kind: ScalarWriteValueKind::Gradient },
        SafeWritableRow { row_id: "general.col.active_border", official_setting: "general.col.active_border", value_kind: ScalarWriteValueKind::Gradient },
        SafeWritableRow { row_id: "general.col.nogroup_border", official_setting: "general.col.nogroup_border", value_kind: ScalarWriteValueKind::Gradient },
        SafeWritableRow { row_id: "general.col.nogroup_border_active", official_setting: "general.col.nogroup_border_active", value_kind: ScalarWriteValueKind::Gradient },
        SafeWritableRow { row_id: "input.kb_model", official_setting: "input.kb_model", value_kind: ScalarWriteValueKind::SourceBacked },
        SafeWritableRow { row_id: "input.kb_layout", official_setting: "input.kb_layout", value_kind: ScalarWriteValueKind::SourceBacked },
        SafeWritableRow { row_id: "input.kb_variant", official_setting: "input.kb_variant", value_kind: ScalarWriteValueKind::SourceBacked },
    ]
}

pub open spec fn safe_rows_part_2() -> Seq<SafeWritableRow> {
    seq![
        SafeWritableRow { row_id: "input.kb_options", official_setting: "input.kb_options", value_kind: ScalarWriteValueKind::SourceBacked },
        SafeWritableRow { row_id: "input.kb_rules", official_setting: "input.kb_rules", value_kind: ScalarWriteValueKind::SourceBacked },
        SafeWritableRow { row_id: "input.pointer_sensitivity", official_setting: "input.sensitivity", value_kind: ScalarWriteValueKind::Percent },
        SafeWritableRow { row_id: "input.accel_profile", official_setting: "input.accel_profile", value_kind: ScalarWriteValueKind::LineSafeString },
        SafeWritableRow { row_id: "input.scroll_points", official_setting: "input.scroll_points", value_kind: ScalarWriteValueKind::NumericList },
        SafeWritableRow { row_id: "input.kb_file", official_setting: "input.kb_file", value_kind: ScalarWriteValueKind::Path },
        SafeWritableRow { row_id: "input.tablet.region_position", official_setting: "input.tablet.region_position", value_kind: ScalarWriteValueKind::Vector2 },
        SafeWritableRow { row_id: "input.tablet.region_size", official_setting: "input.tablet.region_size", value_kind: ScalarWriteValueKind::Vector2 },
        SafeWritableRow { row_id: "input.tablet.active_area_size", official_setting: "input.tablet.active_area_size", value_kind: ScalarWriteValueKind::Vector2 },
        SafeWritableRow { row_id: "input.tablet.active_area_position", official_setting: "input.tablet.active_area_position", value_kind: ScalarWriteValueKind::Vector2 },
        SafeWritableRow { row_id: "decoration.glow.color", official_setting: "decoration.glow.color", value_kind: ScalarWriteValueKind::Color },
        SafeWritableRow { row_id: "decoration.glow.color_inactive", official_setting: "decoration.glow.color_inactive", value_kind: ScalarWriteValueKind::Color },
        SafeWritableRow { row_id: "group.groupbar.text_color", official_setting: "group.groupbar.text_color", value_kind: ScalarWriteValueKind::Color },
        SafeWritableRow { row_id: "group.groupbar.text_color_inactive", official_setting: "group.groupbar.text_color_inactive", value_kind: ScalarWriteValueKind::Color },
        SafeWritableRow { row_id: "group.groupbar.text_color_locked_active", official_setting: "group.groupbar.text_color_locked_active", value_kind: ScalarWriteValueKind::Color },
        SafeWritableRow { row_id: "group.groupbar.text_color_locked_inactive", official_setting: "group.groupbar.text_color_locked_inactive", value_kind: ScalarWriteValueKind::Color },
        SafeWritableRow { row_id: "group.groupbar.font_family", official_setting: "group.groupbar.font_family", value_kind: ScalarWriteValueKind::LineSafeString },
        SafeWritableRow { row_id: "group.col.border_active", official_setting: "group.col.border_active", value_kind: ScalarWriteValueKind::Gradient },
        SafeWritableRow { row_id: "group.col.border_inactive", official_setting: "group.col.border_inactive", value_kind: ScalarWriteValueKind::Gradient },
        SafeWritableRow { row_id: "group.col.border_locked_inactive", official_setting: "group.col.border_locked_inactive", value_kind: ScalarWriteValueKind::Gradient },
        SafeWritableRow { row_id: "group.col.border_locked_active", official_setting: "group.col.border_locked_active", value_kind: ScalarWriteValueKind::Gradient },
        SafeWritableRow { row_id: "group.groupbar.col.active", official_setting: "group.groupbar.col.active", value_kind: ScalarWriteValueKind::Gradient },
        SafeWritableRow { row_id: "group.groupbar.col.inactive", official_setting: "group.groupbar.col.inactive", value_kind: ScalarWriteValueKind::Gradient },
        SafeWritableRow { row_id: "group.groupbar.col.locked_active", official_setting: "group.groupbar.col.locked_active", value_kind: ScalarWriteValueKind::Gradient },
        SafeWritableRow { row_id: "group.groupbar.col.locked_inactive", official_setting: "group.groupbar.col.locked_inactive", value_kind: ScalarWriteValueKind::Gradient },
        SafeWritableRow { row_id: "misc.col.splash", official_setting: "misc.col.splash", value_kind: ScalarWriteValueKind::Color },
        SafeWritableRow { row_id: "misc.background_color", official_setting: "misc.background_color", value_kind: ScalarWriteValueKind::Color },
        SafeWritableRow { row_id: "misc.font_family", official_setting: "misc.font_family", value_kind: ScalarWriteValueKind::LineSafeString },
        SafeWritableRow { row_id: "misc.splash_font_family", official_setting: "misc.splash_font_family", value_kind: ScalarWriteValueKind::LineSafeString },
        SafeWritableRow { row_id: "misc.swallow_regex", official_setting: "misc.swallow_regex", value_kind: ScalarWriteValueKind::RegexString },
        SafeWritableRow { row_id: "misc.swallow_exception_regex", official_setting: "misc.swallow_exception_regex", value_kind: ScalarWriteValueKind::RegexString },
        SafeWritableRow { row_id: "layout.single_window_aspect_ratio", official_setting: "layout.single_window_aspect_ratio", value_kind: ScalarWriteValueKind::Vector2 },
        SafeWritableRow { row_id: "appearance.blur.passes", official_setting: "decoration.blur.passes", value_kind: ScalarWriteValueKind::Number },
        SafeWritableRow { row_id: "appearance.blur.noise", official_setting: "decoration.blur.noise", value_kind: ScalarWriteValueKind::Number },
        SafeWritableRow { row_id: "appearance.shadow.scale", official_setting: "decoration.shadow.scale", value_kind: ScalarWriteValueKind::Percent },
        SafeWritableRow { row_id: "appearance.rounding_power", official_setting: "decoration.rounding_power", value_kind: ScalarWriteValueKind::Number },
        SafeWritableRow { row_id: "appearance.dim.strength", official_setting: "decoration.dim_strength", value_kind: ScalarWriteValueKind::Percent },
        SafeWritableRow { row_id: "appearance.dim.special", official_setting: "decoration.dim_special", value_kind: ScalarWriteValueKind::Percent },
        SafeWritableRow { row_id: "appearance.dim.around", official_setting: "decoration.dim_around", value_kind: ScalarWriteValueKind::Percent },
        SafeWritableRow { row_id: "appearance.blur.vibrancy", official_setting: "decoration.blur.vibrancy", value_kind: ScalarWriteValueKind::Percent },
    ]
}

pub open spec fn safe_rows_part_3() -> Seq<SafeWritableRow> {
    seq![
        SafeWritableRow { row_id: "appearance.blur.vibrancy_darkness", official_setting: "decoration.blur.vibrancy_darkness", value_kind: ScalarWriteValueKind::Percent },
        SafeWritableRow { row_id: "appearance.blur.popups_ignorealpha", official_setting: "decoration.blur.popups_ignorealpha", value_kind: ScalarWriteValueKind::Percent },
        SafeWritableRow { row_id: "appearance.blur.input_methods_ignorealpha", official_setting: "decoration.blur.input_methods_ignorealpha", value_kind: ScalarWriteValueKind::Percent },
        SafeWritableRow { row_id: "appearance.glow.range", official_setting: "decoration.glow.range", value_kind: ScalarWriteValueKind::Number },
        SafeWritableRow { row_id: "appearance.glow.render_power", official_setting: "decoration.glow.render_power", value_kind: ScalarWriteValueKind::Number },
        SafeWritableRow { row_id: "general.float_gaps", official_setting: "general.float_gaps", value_kind: ScalarWriteValueKind::Number },
        SafeWritableRow { row_id: "general.gaps_workspaces", official_setting: "general.gaps_workspaces", value_kind: ScalarWriteValueKind::Number },
        SafeWritableRow { row_id: "layout.selection", official_setting: "general.layout", value_kind: ScalarWriteValueKind::FiniteChoice },
        SafeWritableRow { row_id: "general.no_focus_fallback", official_setting: "general.no_focus_fallback", value_kind: ScalarWriteValueKind::Boolean },
        SafeWritableRow { row_id: "general.resize_on_border", official_setting: "general.resize_on_border", value_kind: ScalarWriteValueKind::Boolean },
        SafeWritableRow { row_id: "general.extend_border_grab_area", official_setting: "general.extend_border_grab_area", value_kind: ScalarWriteValueKind::Number },
        SafeWritableRow { row_id: "general.hover_icon_on_border", official_setting: "general.hover_icon_on_border", value_kind: ScalarWriteValueKind::Boolean },
        SafeWritableRow { row_id: "general.resize_corner", official_setting: "general.resize_corner", value_kind: ScalarWriteValueKind::FiniteChoice },
        SafeWritableRow { row_id: "general.snap.border_overlap", official_setting: "general.snap.border_overlap", value_kind: ScalarWriteValueKind::Boolean },
        SafeWritableRow { row_id: "general.snap.respect_gaps", official_setting: "general.snap.respect_gaps", value_kind: ScalarWriteValueKind::Boolean },
        SafeWritableRow { row_id: "general.modal_parent_blocking", official_setting: "general.modal_parent_blocking", value_kind: ScalarWriteValueKind::Boolean },
        SafeWritableRow { row_id: "input.numlock_by_default", official_setting: "input.numlock_by_default", value_kind: ScalarWriteValueKind::Boolean },
        SafeWritableRow { row_id: "input.resolve_binds_by_sym", official_setting: "input.resolve_binds_by_sym", value_kind: ScalarWriteValueKind::Boolean },
        SafeWritableRow { row_id: "input.repeat_rate", official_setting: "input.repeat_rate", value_kind: ScalarWriteValueKind::Number },
        SafeWritableRow { row_id: "input.repeat_delay", official_setting: "input.repeat_delay", value_kind: ScalarWriteValueKind::Number },
        SafeWritableRow { row_id: "input.force_no_accel", official_setting: "input.force_no_accel", value_kind: ScalarWriteValueKind::Boolean },
        SafeWritableRow { row_id: "input.rotation", official_setting: "input.rotation", value_kind: ScalarWriteValueKind::Number },
        SafeWritableRow { row_id: "input.left_handed", official_setting: "input.left_handed", value_kind: ScalarWriteValueKind::Boolean },
        SafeWritableRow { row_id: "input.scroll_button", official_setting: "input.scroll_button", value_kind: ScalarWriteValueKind::Number },
        SafeWritableRow { row_id: "input.scroll_button_lock", official_setting: "input.scroll_button_lock", value_kind: ScalarWriteValueKind::Boolean },
        SafeWritableRow { row_id: "input.scroll_factor", official_setting: "input.scroll_factor", value_kind: ScalarWriteValueKind::Percent },
        SafeWritableRow { row_id: "input.scroll_method", official_setting: "input.scroll_method", value_kind: ScalarWriteValueKind::FiniteChoice },
        SafeWritableRow { row_id: "input.natural_scroll", official_setting: "input.natural_scroll", value_kind: ScalarWriteValueKind::Boolean },
        SafeWritableRow { row_id: "input.follow_mouse_threshold", official_setting: "input.follow_mouse_threshold", value_kind: ScalarWriteValueKind::Number },
        SafeWritableRow { row_id: "input.follow_mouse", official_setting: "input.follow_mouse", value_kind: ScalarWriteValueKind::FiniteChoice },
        SafeWritableRow { row_id: "input.focus_on_close", official_setting: "input.focus_on_close", value_kind: ScalarWriteValueKind::FiniteChoice },
        SafeWritableRow { row_id: "input.mouse_refocus", official_setting: "input.mouse_refocus", value_kind: ScalarWriteValueKind::Boolean },
        SafeWritableRow { row_id: "input.float_switch_override_focus", official_setting: "input.float_switch_override_focus", value_kind: ScalarWriteValueKind::FiniteChoice },
        SafeWritableRow { row_id: "input.special_fallthrough", official_setting: "input.special_fallthrough", value_kind: ScalarWriteValueKind::Boolean },
        SafeWritableRow { row_id: "input.off_window_axis_events", official_setting: "input.off_window_axis_events", value_kind: ScalarWriteValueKind::FiniteChoice },
        SafeWritableRow { row_id: "input.emulate_discrete_scroll", official_setting: "input.emulate_discrete_scroll", value_kind: ScalarWriteValueKind::FiniteChoice },
        SafeWritableRow { row_id: "input.follow_mouse_shrink", official_setting: "input.follow_mouse_shrink", value_kind: ScalarWriteValueKind::Number },
        SafeWritableRow { row_id: "input.touchpad.disable_while_typing", official_setting: "input.touchpad.disable_while_typing", value_kind: ScalarWriteValueKind::Boolean },
        SafeWritableRow { row_id: "input.touchpad.natural_scroll", official_setting: "input.touchpad.natural_scroll", value_kind: ScalarWriteValueKind::Boolean },
        SafeWritableRow { row_id: "input.touchpad.scroll_factor", official_setting: "input.touchpad.scroll_factor", value_kind: ScalarWriteValueKind::Percent },
    ]
}

pub open spec fn safe_rows_part_4() -> Seq<SafeWritableRow> {
    seq![
        SafeWritableRow { row_id: "input.touchpad.middle_button_emulation", official_setting: "input.touchpad.middle_button_emulation", value_kind: ScalarWriteValueKind::Boolean },
        SafeWritableRow { row_id: "input.touchpad.clickfinger_behavior", official_setting: "input.touchpad.clickfinger_behavior", value_kind: ScalarWriteValueKind::Boolean },
        SafeWritableRow { row_id: "input.touchpad.tap-to-click", official_setting: "input.touchpad.tap-to-click", value_kind: ScalarWriteValueKind::Boolean },
        SafeWritableRow { row_id: "input.touchpad.drag_lock", official_setting: "input.touchpad.drag_lock", value_kind: ScalarWriteValueKind::FiniteChoice },
        SafeWritableRow { row_id: "input.touchpad.tap_button_map", official_setting: "input.touchpad.tap_button_map", value_kind: ScalarWriteValueKind::FiniteChoice },
        SafeWritableRow { row_id: "input.touchpad.tap-and-drag", official_setting: "input.touchpad.tap-and-drag", value_kind: ScalarWriteValueKind::Boolean },
        SafeWritableRow { row_id: "input.touchpad.flip_x", official_setting: "input.touchpad.flip_x", value_kind: ScalarWriteValueKind::Boolean },
        SafeWritableRow { row_id: "input.touchpad.flip_y", official_setting: "input.touchpad.flip_y", value_kind: ScalarWriteValueKind::Boolean },
        SafeWritableRow { row_id: "input.touchpad.drag_3fg", official_setting: "input.touchpad.drag_3fg", value_kind: ScalarWriteValueKind::FiniteChoice },
        SafeWritableRow { row_id: "input.touchdevice.transform", official_setting: "input.touchdevice.transform", value_kind: ScalarWriteValueKind::Number },
        SafeWritableRow { row_id: "input.touchdevice.enabled", official_setting: "input.touchdevice.enabled", value_kind: ScalarWriteValueKind::Boolean },
        SafeWritableRow { row_id: "input.touchdevice.output", official_setting: "input.touchdevice.output", value_kind: ScalarWriteValueKind::MonitorName },
        SafeWritableRow { row_id: "input.virtualkeyboard.share_states", official_setting: "input.virtualkeyboard.share_states", value_kind: ScalarWriteValueKind::FiniteChoice },
        SafeWritableRow { row_id: "input.virtualkeyboard.release_pressed_on_close", official_setting: "input.virtualkeyboard.release_pressed_on_close", value_kind: ScalarWriteValueKind::Boolean },
        SafeWritableRow { row_id: "input.tablet.transform", official_setting: "input.tablet.transform", value_kind: ScalarWriteValueKind::Number },
        SafeWritableRow { row_id: "input.tablet.absolute_region_position", official_setting: "input.tablet.absolute_region_position", value_kind: ScalarWriteValueKind::Boolean },
        SafeWritableRow { row_id: "input.tablet.relative_input", official_setting: "input.tablet.relative_input", value_kind: ScalarWriteValueKind::Boolean },
        SafeWritableRow { row_id: "input.tablet.output", official_setting: "input.tablet.output", value_kind: ScalarWriteValueKind::MonitorName },
        SafeWritableRow { row_id: "input.tablet.left_handed", official_setting: "input.tablet.left_handed", value_kind: ScalarWriteValueKind::Boolean },
        SafeWritableRow { row_id: "gestures.workspace_swipe_distance", official_setting: "gestures.workspace_swipe_distance", value_kind: ScalarWriteValueKind::Number },
        SafeWritableRow { row_id: "gestures.workspace_swipe_touch", official_setting: "gestures.workspace_swipe_touch", value_kind: ScalarWriteValueKind::Boolean },
        SafeWritableRow { row_id: "gestures.workspace_swipe_invert", official_setting: "gestures.workspace_swipe_invert", value_kind: ScalarWriteValueKind::Boolean },
        SafeWritableRow { row_id: "gestures.workspace_swipe_touch_invert", official_setting: "gestures.workspace_swipe_touch_invert", value_kind: ScalarWriteValueKind::Boolean },
        SafeWritableRow { row_id: "gestures.workspace_swipe_min_speed_to_force", official_setting: "gestures.workspace_swipe_min_speed_to_force", value_kind: ScalarWriteValueKind::Number },
        SafeWritableRow { row_id: "gestures.workspace_swipe_cancel_ratio", official_setting: "gestures.workspace_swipe_cancel_ratio", value_kind: ScalarWriteValueKind::Percent },
        SafeWritableRow { row_id: "gestures.workspace_swipe_create_new", official_setting: "gestures.workspace_swipe_create_new", value_kind: ScalarWriteValueKind::Boolean },
        SafeWritableRow { row_id: "gestures.workspace_swipe_direction_lock", official_setting: "gestures.workspace_swipe_direction_lock", value_kind: ScalarWriteValueKind::Boolean },
        SafeWritableRow { row_id: "gestures.workspace_swipe_direction_lock_threshold", official_setting: "gestures.workspace_swipe_direction_lock_threshold", value_kind: ScalarWriteValueKind::Number },
        SafeWritableRow { row_id: "gestures.workspace_swipe_forever", official_setting: "gestures.workspace_swipe_forever", value_kind: ScalarWriteValueKind::Boolean },
        SafeWritableRow { row_id: "gestures.workspace_swipe_use_r", official_setting: "gestures.workspace_swipe_use_r", value_kind: ScalarWriteValueKind::Boolean },
        SafeWritableRow { row_id: "gestures.close_max_timeout", official_setting: "gestures.close_max_timeout", value_kind: ScalarWriteValueKind::Number },
        SafeWritableRow { row_id: "gestures.scrolling.move_snap_to_grid", official_setting: "gestures.scrolling.move_snap_to_grid", value_kind: ScalarWriteValueKind::Boolean },
        SafeWritableRow { row_id: "gestures.scrolling.move_snap_cursor", official_setting: "gestures.scrolling.move_snap_cursor", value_kind: ScalarWriteValueKind::Boolean },
        SafeWritableRow { row_id: "group.insert_after_current", official_setting: "group.insert_after_current", value_kind: ScalarWriteValueKind::Boolean },
        SafeWritableRow { row_id: "group.focus_removed_window", official_setting: "group.focus_removed_window", value_kind: ScalarWriteValueKind::Boolean },
        SafeWritableRow { row_id: "group.merge_groups_on_drag", official_setting: "group.merge_groups_on_drag", value_kind: ScalarWriteValueKind::Boolean },
        SafeWritableRow { row_id: "group.merge_groups_on_groupbar", official_setting: "group.merge_groups_on_groupbar", value_kind: ScalarWriteValueKind::Boolean },
        SafeWritableRow { row_id: "group.auto_group", official_setting: "group.auto_group", value_kind: ScalarWriteValueKind::Boolean },
        SafeWritableRow { row_id: "group.drag_into_group", official_setting: "group.drag_into_group", value_kind: ScalarWriteValueKind::FiniteChoice },
        SafeWritableRow { row_id: "group.merge_floated_into_tiled_on_groupbar", official_setting: "group.merge_floated_into_tiled_on_groupbar", value_kind: ScalarWriteValueKind::Boolean },
    ]
}

pub open spec fn safe_rows_part_5() -> Seq<SafeWritableRow> {
    seq![
        SafeWritableRow { row_id: "group.group_on_movetoworkspace", official_setting: "group.group_on_movetoworkspace", value_kind: ScalarWriteValueKind::Boolean },
        SafeWritableRow { row_id: "group.groupbar.font_weight_active", official_setting: "group.groupbar.font_weight_active", value_kind: ScalarWriteValueKind::Number },
        SafeWritableRow { row_id: "group.groupbar.font_weight_inactive", official_setting: "group.groupbar.font_weight_inactive", value_kind: ScalarWriteValueKind::Number },
        SafeWritableRow { row_id: "group.groupbar.font_size", official_setting: "group.groupbar.font_size", value_kind: ScalarWriteValueKind::Number },
        SafeWritableRow { row_id: "group.groupbar.height", official_setting: "group.groupbar.height", value_kind: ScalarWriteValueKind::Number },
        SafeWritableRow { row_id: "group.groupbar.indicator_gap", official_setting: "group.groupbar.indicator_gap", value_kind: ScalarWriteValueKind::Number },
        SafeWritableRow { row_id: "group.groupbar.indicator_height", official_setting: "group.groupbar.indicator_height", value_kind: ScalarWriteValueKind::Number },
        SafeWritableRow { row_id: "group.groupbar.priority", official_setting: "group.groupbar.priority", value_kind: ScalarWriteValueKind::Number },
        SafeWritableRow { row_id: "group.groupbar.rounding", official_setting: "group.groupbar.rounding", value_kind: ScalarWriteValueKind::Number },
        SafeWritableRow { row_id: "group.groupbar.rounding_power", official_setting: "group.groupbar.rounding_power", value_kind: ScalarWriteValueKind::Number },
        SafeWritableRow { row_id: "group.groupbar.gradient_rounding", official_setting: "group.groupbar.gradient_rounding", value_kind: ScalarWriteValueKind::Number },
        SafeWritableRow { row_id: "group.groupbar.gradient_rounding_power", official_setting: "group.groupbar.gradient_rounding_power", value_kind: ScalarWriteValueKind::Number },
        SafeWritableRow { row_id: "group.groupbar.gaps_out", official_setting: "group.groupbar.gaps_out", value_kind: ScalarWriteValueKind::Number },
        SafeWritableRow { row_id: "group.groupbar.gaps_in", official_setting: "group.groupbar.gaps_in", value_kind: ScalarWriteValueKind::Number },
        SafeWritableRow { row_id: "group.groupbar.text_offset", official_setting: "group.groupbar.text_offset", value_kind: ScalarWriteValueKind::Number },
        SafeWritableRow { row_id: "group.groupbar.text_padding", official_setting: "group.groupbar.text_padding", value_kind: ScalarWriteValueKind::Number },
        SafeWritableRow { row_id: "misc.force_default_wallpaper", official_setting: "misc.force_default_wallpaper", value_kind: ScalarWriteValueKind::Number },
        SafeWritableRow { row_id: "misc.initial_workspace_tracking", official_setting: "misc.initial_workspace_tracking", value_kind: ScalarWriteValueKind::Number },
        SafeWritableRow { row_id: "misc.render_unfocused_fps", official_setting: "misc.render_unfocused_fps", value_kind: ScalarWriteValueKind::Number },
        SafeWritableRow { row_id: "misc.lockdead_screen_delay", official_setting: "misc.lockdead_screen_delay", value_kind: ScalarWriteValueKind::Number },
        SafeWritableRow { row_id: "misc.anr_missed_pings", official_setting: "misc.anr_missed_pings", value_kind: ScalarWriteValueKind::Number },
        SafeWritableRow { row_id: "binds.pass_mouse_when_bound", official_setting: "binds.pass_mouse_when_bound", value_kind: ScalarWriteValueKind::Boolean },
        SafeWritableRow { row_id: "binds.scroll_event_delay", official_setting: "binds.scroll_event_delay", value_kind: ScalarWriteValueKind::Number },
        SafeWritableRow { row_id: "binds.workspace_back_and_forth", official_setting: "binds.workspace_back_and_forth", value_kind: ScalarWriteValueKind::Boolean },
        SafeWritableRow { row_id: "binds.hide_special_on_workspace_change", official_setting: "binds.hide_special_on_workspace_change", value_kind: ScalarWriteValueKind::Boolean },
        SafeWritableRow { row_id: "binds.allow_workspace_cycles", official_setting: "binds.allow_workspace_cycles", value_kind: ScalarWriteValueKind::Boolean },
        SafeWritableRow { row_id: "binds.workspace_center_on", official_setting: "binds.workspace_center_on", value_kind: ScalarWriteValueKind::Number },
        SafeWritableRow { row_id: "binds.focus_preferred_method", official_setting: "binds.focus_preferred_method", value_kind: ScalarWriteValueKind::Number },
        SafeWritableRow { row_id: "binds.ignore_group_lock", official_setting: "binds.ignore_group_lock", value_kind: ScalarWriteValueKind::Boolean },
        SafeWritableRow { row_id: "binds.movefocus_cycles_groupfirst", official_setting: "binds.movefocus_cycles_groupfirst", value_kind: ScalarWriteValueKind::Boolean },
        SafeWritableRow { row_id: "binds.movefocus_cycles_fullscreen", official_setting: "binds.movefocus_cycles_fullscreen", value_kind: ScalarWriteValueKind::Boolean },
        SafeWritableRow { row_id: "binds.disable_keybind_grabbing", official_setting: "binds.disable_keybind_grabbing", value_kind: ScalarWriteValueKind::Boolean },
        SafeWritableRow { row_id: "binds.window_direction_monitor_fallback", official_setting: "binds.window_direction_monitor_fallback", value_kind: ScalarWriteValueKind::Boolean },
        SafeWritableRow { row_id: "binds.drag_threshold", official_setting: "binds.drag_threshold", value_kind: ScalarWriteValueKind::Number },
        SafeWritableRow { row_id: "binds.allow_pin_fullscreen", official_setting: "binds.allow_pin_fullscreen", value_kind: ScalarWriteValueKind::Boolean },
        SafeWritableRow { row_id: "layout.single_window_aspect_ratio_tolerance", official_setting: "layout.single_window_aspect_ratio_tolerance", value_kind: ScalarWriteValueKind::Percent },
        SafeWritableRow { row_id: "dwindle.force_split", official_setting: "dwindle.force_split", value_kind: ScalarWriteValueKind::FiniteChoice },
        SafeWritableRow { row_id: "dwindle.preserve_split", official_setting: "dwindle.preserve_split", value_kind: ScalarWriteValueKind::Boolean },
        SafeWritableRow { row_id: "dwindle.smart_split", official_setting: "dwindle.smart_split", value_kind: ScalarWriteValueKind::Boolean },
        SafeWritableRow { row_id: "dwindle.smart_resizing", official_setting: "dwindle.smart_resizing", value_kind: ScalarWriteValueKind::Boolean },
    ]
}

pub open spec fn safe_rows_part_6() -> Seq<SafeWritableRow> {
    seq![
        SafeWritableRow { row_id: "dwindle.permanent_direction_override", official_setting: "dwindle.permanent_direction_override", value_kind: ScalarWriteValueKind::Boolean },
        SafeWritableRow { row_id: "dwindle.special_scale_factor", official_setting: "dwindle.special_scale_factor", value_kind: ScalarWriteValueKind::Percent },
        SafeWritableRow { row_id: "dwindle.split_width_multiplier", official_setting: "dwindle.split_width_multiplier", value_kind: ScalarWriteValueKind::Number },
        SafeWritableRow { row_id: "dwindle.use_active_for_splits", official_setting: "dwindle.use_active_for_splits", value_kind: ScalarWriteValueKind::Boolean },
        SafeWritableRow { row_id: "dwindle.default_split_ratio", official_setting: "dwindle.default_split_ratio", value_kind: ScalarWriteValueKind::Percent },
        SafeWritableRow { row_id: "dwindle.split_bias", official_setting: "dwindle.split_bias", value_kind: ScalarWriteValueKind::FiniteChoice },
        SafeWritableRow { row_id: "dwindle.precise_mouse_move", official_setting: "dwindle.precise_mouse_move", value_kind: ScalarWriteValueKind::Boolean },
        SafeWritableRow { row_id: "master.allow_small_split", official_setting: "master.allow_small_split", value_kind: ScalarWriteValueKind::Boolean },
        SafeWritableRow { row_id: "master.special_scale_factor", official_setting: "master.special_scale_factor", value_kind: ScalarWriteValueKind::Percent },
        SafeWritableRow { row_id: "master.mfact", official_setting: "master.mfact", value_kind: ScalarWriteValueKind::Number },
        SafeWritableRow { row_id: "master.new_on_top", official_setting: "master.new_on_top", value_kind: ScalarWriteValueKind::Boolean },
        SafeWritableRow { row_id: "master.new_status", official_setting: "master.new_status", value_kind: ScalarWriteValueKind::FiniteChoice },
        SafeWritableRow { row_id: "master.new_on_active", official_setting: "master.new_on_active", value_kind: ScalarWriteValueKind::FiniteChoice },
        SafeWritableRow { row_id: "master.orientation", official_setting: "master.orientation", value_kind: ScalarWriteValueKind::FiniteChoice },
        SafeWritableRow { row_id: "master.slave_count_for_center_master", official_setting: "master.slave_count_for_center_master", value_kind: ScalarWriteValueKind::Number },
        SafeWritableRow { row_id: "master.center_ignores_reserved", official_setting: "master.center_ignores_reserved", value_kind: ScalarWriteValueKind::Boolean },
        SafeWritableRow { row_id: "master.center_master_fallback", official_setting: "master.center_master_fallback", value_kind: ScalarWriteValueKind::FiniteChoice },
        SafeWritableRow { row_id: "master.smart_resizing", official_setting: "master.smart_resizing", value_kind: ScalarWriteValueKind::Boolean },
        SafeWritableRow { row_id: "master.drop_at_cursor", official_setting: "master.drop_at_cursor", value_kind: ScalarWriteValueKind::Boolean },
        SafeWritableRow { row_id: "master.always_keep_position", official_setting: "master.always_keep_position", value_kind: ScalarWriteValueKind::Boolean },
        SafeWritableRow { row_id: "scrolling.column_width", official_setting: "scrolling.column_width", value_kind: ScalarWriteValueKind::Number },
        SafeWritableRow { row_id: "scrolling.focus_fit_method", official_setting: "scrolling.focus_fit_method", value_kind: ScalarWriteValueKind::FiniteChoice },
        SafeWritableRow { row_id: "scrolling.follow_focus", official_setting: "scrolling.follow_focus", value_kind: ScalarWriteValueKind::Boolean },
        SafeWritableRow { row_id: "scrolling.follow_min_visible", official_setting: "scrolling.follow_min_visible", value_kind: ScalarWriteValueKind::Number },
        SafeWritableRow { row_id: "scrolling.explicit_column_widths", official_setting: "scrolling.explicit_column_widths", value_kind: ScalarWriteValueKind::CommaSeparatedFloatList },
        SafeWritableRow { row_id: "scrolling.wrap_focus", official_setting: "scrolling.wrap_focus", value_kind: ScalarWriteValueKind::Boolean },
        SafeWritableRow { row_id: "scrolling.wrap_swapcol", official_setting: "scrolling.wrap_swapcol", value_kind: ScalarWriteValueKind::Boolean },
        SafeWritableRow { row_id: "scrolling.direction", official_setting: "scrolling.direction", value_kind: ScalarWriteValueKind::FiniteChoice },
        SafeWritableRow { row_id: "scrolling.fullscreen_on_one_column", official_setting: "scrolling.fullscreen_on_one_column", value_kind: ScalarWriteValueKind::Boolean },
        SafeWritableRow { row_id: "ecosystem.no_update_news", official_setting: "ecosystem.no_update_news", value_kind: ScalarWriteValueKind::Boolean },
        SafeWritableRow { row_id: "ecosystem.no_donation_nag", official_setting: "ecosystem.no_donation_nag", value_kind: ScalarWriteValueKind::Boolean },
        SafeWritableRow { row_id: "ecosystem.enforce_permissions", official_setting: "ecosystem.enforce_permissions", value_kind: ScalarWriteValueKind::Boolean },
    ]
}

/// The safe write allowlist, in order.
pub open spec fn spec_safe_writable_rows() -> Seq<SafeWritableRow> {
    safe_rows_part_0() + safe_rows_part_1() + safe_rows_part_2() + safe_rows_part_3() + safe_rows_part_4() + safe_rows_part_5() + safe_rows_part_6()
}

fn safe_rows_chunk_0() -> (r: &'static [SafeWritableRow])
    ensures
        r@ == safe_rows_part_0(),
{
    let t: &'static [SafeWritableRow] = &[
        SafeWritableRow { row_id: "appearance.dim.modal", official_setting: "decoration.dim_modal", value_kind: ScalarWriteValueKind::Boolean },
        SafeWritableRow { row_id: "appearance.dim.inactive", official_setting: "decoration.dim_inactive", value_kind: ScalarWriteValueKind::Boolean },
        SafeWritableRow { row_id: "appearance.border_part_of_window", official_setting: "decoration.border_part_of_window", value_kind: ScalarWriteValueKind::Boolean },
        SafeWritableRow { row_id: "appearance.blur.enabled", official_setting: "decoration.blur.enabled", value_kind: ScalarWriteValueKind::Boolean },
        SafeWritableRow { row_id: "appearance.blur.ignore_opacity", official_setting: "decoration.blur.ignore_opacity", value_kind: ScalarWriteValueKind::Boolean },
        SafeWritableRow { row_id: "appearance.blur.new_optimizations", official_setting: "decoration.blur.new_optimizations", value_kind: ScalarWriteValueKind::Boolean },
        SafeWritableRow { row_id: "appearance.blur.special", official_setting: "decoration.blur.special", value_kind: ScalarWriteValueKind::Boolean },
        SafeWritableRow { row_id: "appearance.blur.popups", official_setting: "decoration.blur.popups", value_kind: ScalarWriteValueKind::Boolean },
        SafeWritableRow { row_id: "appearance.blur.input_methods", official_setting: "decoration.blur.input_methods", value_kind: ScalarWriteValueKind::Boolean },
        SafeWritableRow { row_id: "appearance.blur.size", official_setting: "decoration.blur.size", value_kind: ScalarWriteValueKind::Number },
        SafeWritableRow { row_id: "appearance.blur.brightness", official_setting: "decoration.blur.brightness", value_kind: ScalarWriteValueKind::Percent },
        SafeWritableRow { row_id: "appearance.blur.contrast", official_setting: "decoration.blur.contrast", value_kind: ScalarWriteValueKind::Percent },
        SafeWritableRow { row_id: "appearance.fullscreen_opacity", official_setting: "decoration.fullscreen_opacity", value_kind: ScalarWriteValueKind::Percent },
        SafeWritableRow { row_id: "appearance.blur.xray", official_setting: "decoration.blur.xray", value_kind: ScalarWriteValueKind::Boolean },
        SafeWritableRow { row_id: "appearance.shadow.enabled", official_setting: "decoration.shadow.enabled", value_kind: ScalarWriteValueKind::Boolean },
        SafeWritableRow { row_id: "appearance.shadow.sharp", official_setting: "decoration.shadow.sharp", value_kind: ScalarWriteValueKind::Boolean },
        SafeWritableRow { row_id: "appearance.shadow.range", official_setting: "decoration.shadow.range", value_kind: ScalarWriteValueKind::Number },
        SafeWritableRow { row_id: "appearance.shadow.render_power", official_setting: "decoration.shadow.render_power", value_kind: ScalarWriteValueKind::Number },
        SafeWritableRow { row_id: "decoration.shadow.color", official_setting: "decoration.shadow.color", value_kind: ScalarWriteValueKind::Color },
        SafeWritableRow { row_id: "decoration.shadow.color_inactive", official_setting: "decoration.shadow.color_inactive", value_kind: ScalarWriteValueKind::Color },
        SafeWritableRow { row_id: "decoration.shadow.offset", official_setting: "decoration.shadow.offset", value_kind: ScalarWriteValueKind::Vector2 },
        SafeWritableRow { row_id: "decoration.screen_shader", official_setting: "decoration.screen_shader", value_kind: ScalarWriteValueKind::Path },
        SafeWritableRow { row_id: "appearance.gaps_in", official_setting: "general.gaps_in", value_kind: ScalarWriteValueKind::Number },
        SafeWritableRow { row_id: "appearance.gaps_out", official_setting: "general.gaps_out", value_kind: ScalarWriteValueKind::Number },
        SafeWritableRow { row_id: "appearance.border_size", official_setting: "general.border_size", value_kind: ScalarWriteValueKind::Number },
        SafeWritableRow { row_id: "appearance.rounding", official_setting: "decoration.rounding", value_kind: ScalarWriteValueKind::Number },
        SafeWritableRow { row_id: "appearance.active_opacity", official_setting: "decoration.active_opacity", value_kind: ScalarWriteValueKind::Percent },
        SafeWritableRow { row_id: "appearance.inactive_opacity", official_setting: "decoration.inactive_opacity", value_kind: ScalarWriteValueKind::Percent },
        SafeWritableRow { row_id: "animations.enabled", official_setting: "animations.enabled", value_kind: ScalarWriteValueKind::Boolean },
        SafeWritableRow { row_id: "animations.workspace_wraparound", official_setting: "animations.workspace_wraparound", value_kind: ScalarWriteValueKind::Boolean },
        SafeWritableRow { row_id: "appearance.glow.enabled", official_setting: "decoration.glow.enabled", value_kind: ScalarWriteValueKind::Boolean },
        SafeWritableRow { row_id: "group.groupbar.enabled", official_setting: "group.groupbar.enabled", value_kind: ScalarWriteValueKind::Boolean },
        SafeWritableRow { row_id: "group.groupbar.gradients", official_setting: "group.groupbar.gradients", value_kind: ScalarWriteValueKind::Boolean },
        SafeWritableRow { row_id: "group.groupbar.stacked", official_setting: "group.groupbar.stacked", value_kind: ScalarWriteValueKind::Boolean },
        SafeWritableRow { row_id: "group.groupbar.render_titles", official_setting: "group.groupbar.render_titles", value_kind: ScalarWriteValueKind::Boolean },
        SafeWritableRow { row_id: "group.groupbar.scrolling", official_setting: "group.groupbar.scrolling", value_kind: ScalarWriteValueKind::Boolean },
        SafeWritableRow { row_id: "group.groupbar.middle_click_close", official_setting: "group.groupbar.middle_click_close", value_kind: ScalarWriteValueKind::Boolean },
        SafeWritableRow { row_id: "group.groupbar.round_only_edges", official_setting: "group.groupbar.round_only_edges", value_kind: ScalarWriteValueKind::Boolean },
        SafeWritableRow { row_id: "group.groupbar.gradient_round_only_edges", official_setting: "group.groupbar.gradient_round_only_edges", value_kind: ScalarWriteValueKind::Boolean },
        SafeWritableRow { row_id: "group.groupbar.keep_upper_gap", official_setting: "group.groupbar.keep_upper_gap", value_kind: ScalarWriteValueKind::Boolean },
    ];
    assert(t@ =~= safe_rows_part_0());
    t
}

fn safe_rows_chunk_1() -> (r: &'static [SafeWritableRow])
    ensures
        r@ == safe_rows_part_1(),
{
    let t: &'static [SafeWritableRow] = &[
        SafeWritableRow { row_id: "group.groupbar.blur", official_setting: "group.groupbar.blur", value_kind: ScalarWriteValueKind::Boolean },
        SafeWritableRow { row_id: "misc.disable_hyprland_logo", official_setting: "misc.disable_hyprland_logo", value_kind: ScalarWriteValueKind::Boolean },
        SafeWritableRow { row_id: "misc.disable_splash_rendering", official_setting: "misc.disable_splash_rendering", value_kind: ScalarWriteValueKind::Boolean },
        SafeWritableRow { row_id: "misc.name_vk_after_proc", official_setting: "misc.name_vk_after_proc", value_kind: ScalarWriteValueKind::Boolean },
        SafeWritableRow { row_id: "misc.always_follow_on_dnd", official_setting: "misc.always_follow_on_dnd", value_kind: ScalarWriteValueKind::Boolean },
        SafeWritableRow { row_id: "misc.layers_hog_keyboard_focus", official_setting: "misc.layers_hog_keyboard_focus", value_kind: ScalarWriteValueKind::Boolean },
        SafeWritableRow { row_id: "misc.animate_manual_resizes", official_setting: "misc.animate_manual_resizes", value_kind: ScalarWriteValueKind::Boolean },
        SafeWritableRow { row_id: "misc.animate_mouse_windowdragging", official_setting: "misc.animate_mouse_windowdragging", value_kind: ScalarWriteValueKind::Boolean },
        SafeWritableRow { row_id: "misc.enable_swallow", official_setting: "misc.enable_swallow", value_kind: ScalarWriteValueKind::Boolean },
        SafeWritableRow { row_id: "misc.mouse_move_focuses_monitor", official_setting: "misc.mouse_move_focuses_monitor", value_kind: ScalarWriteValueKind::Boolean },
        SafeWritableRow { row_id: "misc.close_special_on_empty", official_setting: "misc.close_special_on_empty", value_kind: ScalarWriteValueKind::Boolean },
        SafeWritableRow { row_id: "misc.middle_click_paste", official_setting: "misc.middle_click_paste", value_kind: ScalarWriteValueKind::Boolean },
        SafeWritableRow { row_id: "misc.disable_xdg_env_checks", official_setting: "misc.disable_xdg_env_checks", value_kind: ScalarWriteValueKind::Boolean },
        SafeWritableRow { row_id: "misc.disable_hyprland_guiutils_check", official_setting: "misc.disable_hyprland_guiutils_check", value_kind: ScalarWriteValueKind::Boolean },
        SafeWritableRow { row_id: "misc.disable_watchdog_warning", official_setting: "misc.disable_watchdog_warning", value_kind: ScalarWriteValueKind::Boolean },
        SafeWritableRow { row_id: "misc.enable_anr_dialog", official_setting: "misc.enable_anr_dialog", value_kind: ScalarWriteValueKind::Boolean },
        SafeWritableRow { row_id: "misc.screencopy_force_8b", official_setting: "misc.screencopy_force_8b", value_kind: ScalarWriteValueKind::Boolean },
        SafeWritableRow { row_id: "misc.disable_scale_notification", official_setting: "misc.disable_scale_notification", value_kind: ScalarWriteValueKind::Boolean },
        SafeWritableRow { row_id: "misc.size_limits_tiled", official_setting: "misc.size_limits_tiled", value_kind: ScalarWriteValueKind::Boolean },
        SafeWritableRow { row_id: "misc.vrr", official_setting: "misc.vrr", value_kind: ScalarWriteValueKind::FiniteChoice },
        SafeWritableRow { row_id: "misc.mouse_move_enables_dpms", official_setting: "misc.mouse_move_enables_dpms", value_kind: ScalarWriteValueKind::Boolean },
        SafeWritableRow { row_id: "misc.key_press_enables_dpms", official_setting: "misc.key_press_enables_dpms", value_kind: ScalarWriteValueKind::Boolean },
        SafeWritableRow { row_id: "misc.disable_autoreload", official_setting: "misc.disable_autoreload", value_kind: ScalarWriteValueKind::Boolean },
        SafeWritableRow { row_id: "misc.focus_on_activate", official_setting: "misc.focus_on_activate", value_kind: ScalarWriteValueKind::Boolean },
        SafeWritableRow { row_id: "misc.allow_session_lock_restore", official_setting: "misc.allow_session_lock_restore", value_kind: ScalarWriteValueKind::Boolean },
        SafeWritableRow { row_id: "misc.session_lock_xray", official_setting: "misc.session_lock_xray", value_kind: ScalarWriteValueKind::Boolean },
        SafeWritableRow { row_id: "misc.on_focus_under_fullscreen", official_setting: "misc.on_focus_under_fullscreen", value_kind: ScalarWriteValueKind::FiniteChoice },
        SafeWritableRow { row_id: "misc.exit_window_retains_fullscreen", official_setting: "misc.exit_window_retains_fullscreen", value_kind: ScalarWriteValueKind::Boolean },
        SafeWritableRow { row_id: "windows.snap.enabled", official_setting: "general.snap.enabled", value_kind: ScalarWriteValueKind::Boolean },
        SafeWritableRow { row_id: "general.allow_tearing", official_setting: "general.allow_tearing", value_kind: ScalarWriteValueKind::Boolean },
        SafeWritableRow { row_id: "general.locale", official_setting: "general.locale", value_kind: ScalarWriteValueKind::LineSafeString },
        SafeWritableRow { row_id: "windows.snap.window_gap", official_setting: "general.snap.window_gap", value_kind: ScalarWriteValueKind::Number },
        SafeWritableRow { row_id: "windows.snap.monitor_gap", official_setting: "general.snap.monitor_gap", value_kind: ScalarWriteValueKind::Number },
        SafeWritableRow { row_id: "general.col.inactive_border", official_setting: "general.col.inactive_border", value_kind: ScalarWriteValueKind::Gradient },
        SafeWritableRow { row_id: "general.col.active_border", official_setting: "general.col.active_border", value_kind: ScalarWriteValueKind::Gradient },
        SafeWritableRow { row_id: "general.col.nogroup_border", official_setting: "general.col.nogroup_border", value_kind: ScalarWriteValueKind::Gradient },
        SafeWritableRow { row_id: "general.col.nogroup_border_active", official_setting: "general.col.nogroup_border_active", value_kind: ScalarWriteValueKind::Gradient },
        SafeWritableRow { row_id: "input.kb_model", official_setting: "input.kb_model", value_kind: ScalarWriteValueKind::SourceBacked },
        SafeWritableRow { row_id: "input.kb_layout", official_setting: "input.kb_layout", value_kind: ScalarWriteValueKind::SourceBacked },
        SafeWritableRow { row_id: "input.kb_variant", official_setting: "input.kb_variant", value_kind: ScalarWriteValueKind::SourceBacked },
    ];
    assert(t@ =~= safe_rows_part_1());
    t
}

fn safe_rows_chunk_2() -> (r: &'static [SafeWritableRow])
    ensures
        r@ == safe_rows_part_2(),
{
    let t: &'static [SafeWritableRow] = &[
        SafeWritableRow { row_id: "input.kb_options", official_setting: "input.kb_options", value_kind: ScalarWriteValueKind::SourceBacked },
        SafeWritableRow { row_id: "input.kb_rules", official_setting: "input.kb_rules", value_kind: ScalarWriteValueKind::SourceBacked },
        SafeWritableRow { row_id: "input.pointer_sensitivity", official_setting: "input.sensitivity", value_kind: ScalarWriteValueKind::Percent },
        SafeWritableRow { row_id: "input.accel_profile", official_setting: "input.accel_profile", value_kind: ScalarWriteValueKind::LineSafeString },
        SafeWritableRow { row_id: "input.scroll_points", official_setting: "input.scroll_points", value_kind: ScalarWriteValueKind::NumericList },
        SafeWritableRow { row_id: "input.kb_file", official_setting: "input.kb_file", value_kind: ScalarWriteValueKind::Path },
        SafeWritableRow { row_id: "input.tablet.region_position", official_setting: "input.tablet.region_position", value_kind: ScalarWriteValueKind::Vector2 },
        SafeWritableRow { row_id: "input.tablet.region_size", official_setting: "input.tablet.region_size", value_kind: ScalarWriteValueKind::Vector2 },
        SafeWritableRow { row_id: "input.tablet.active_area_size", official_setting: "input.tablet.active_area_size", value_kind: ScalarWriteValueKind::Vector2 },
        SafeWritableRow { row_id: "input.tablet.active_area_position", official_setting: "input.tablet.active_area_position", value_kind: ScalarWriteValueKind::Vector2 },
        SafeWritableRow { row_id: "decoration.glow.color", official_setting: "decoration.glow.color", value_kind: ScalarWriteValueKind::Color },
        SafeWritableRow { row_id: "decoration.glow.color_inactive", official_setting: "decoration.glow.color_inactive", value_kind: ScalarWriteValueKind::Color },
        SafeWritableRow { row_id: "group.groupbar.text_color", official_setting: "group.groupbar.text_color", value_kind: ScalarWriteValueKind::Color },
        SafeWritableRow { row_id: "group.groupbar.text_color_inactive", official_setting: "group.groupbar.text_color_inactive", value_kind: ScalarWriteValueKind::Color },
        SafeWritableRow { row_id: "group.groupbar.text_color_locked_active", official_setting: "group.groupbar.text_color_locked_active", value_kind: ScalarWriteValueKind::Color },
        SafeWritableRow { row_id: "group.groupbar.text_color_locked_inactive", official_setting: "group.groupbar.text_color_locked_inactive", value_kind: ScalarWriteValueKind::Color },
        SafeWritableRow { row_id: "group.groupbar.font_family", official_setting: "group.groupbar.font_family", value_kind: ScalarWriteValueKind::LineSafeString },
        SafeWritableRow { row_id: "group.col.border_active", official_setting: "group.col.border_active", value_kind: ScalarWriteValueKind::Gradient },
        SafeWritableRow { row_id: "group.col.border_inactive", official_setting: "group.col.border_inactive", value_kind: ScalarWriteValueKind::Gradient },
        SafeWritableRow { row_id: "group.col.border_locked_inactive", official_setting: "group.col.border_locked_inactive", value_kind: ScalarWriteValueKind::Gradient },
        SafeWritableRow { row_id: "group.col.border_locked_active", official_setting: "group.col.border_locked_active", value_kind: ScalarWriteValueKind::Gradient },
        SafeWritableRow { row_id: "group.groupbar.col.active", official_setting: "group.groupbar.col.active", value_kind: ScalarWriteValueKind::Gradient },
        SafeWritableRow { row_id: "group.groupbar.col.inactive", official_setting: "group.groupbar.col.inactive", value_kind: ScalarWriteValueKind::Gradient },
        SafeWritableRow { row_id: "group.groupbar.col.locked_active", official_setting: "group.groupbar.col.locked_active", value_kind: ScalarWriteValueKind::Gradient },
        SafeWritableRow { row_id: "group.groupbar.col.locked_inactive", official_setting: "group.groupbar.col.locked_inactive", value_kind: ScalarWriteValueKind::Gradient },
        SafeWritableRow { row_id: "misc.col.splash", official_setting: "misc.col.splash", value_kind: ScalarWriteValueKind::Color },
        SafeWritableRow { row_id: "misc.background_color", official_setting: "misc.background_color", value_kind: ScalarWriteValueKind::Color },
        SafeWritableRow { row_id: "misc.font_family", official_setting: "misc.font_family", value_kind: ScalarWriteValueKind::LineSafeString },
        SafeWritableRow { row_id: "misc.splash_font_family", official_setting: "misc.splash_font_family", value_kind: ScalarWriteValueKind::LineSafeString },
        SafeWritableRow { row_id: "misc.swallow_regex", official_setting: "misc.swallow_regex", value_kind: ScalarWriteValueKind::RegexString },
        SafeWritableRow { row_id: "misc.swallow_exception_regex", official_setting: "misc.swallow_exception_regex", value_kind: ScalarWriteValueKind::RegexString },
        SafeWritableRow { row_id: "layout.single_window_aspect_ratio", official_setting: "layout.single_window_aspect_ratio", value_kind: ScalarWriteValueKind::Vector2 },
        SafeWritableRow { row_id: "appearance.blur.passes", official_setting: "decoration.blur.passes", value_kind: ScalarWriteValueKind::Number },
        SafeWritableRow { row_id: "appearance.blur.noise", official_setting: "decoration.blur.noise", value_kind: ScalarWriteValueKind::Number },
        SafeWritableRow { row_id: "appearance.shadow.scale", official_setting: "decoration.shadow.scale", value_kind: ScalarWriteValueKind::Percent },
        SafeWritableRow { row_id: "appearance.rounding_power", official_setting: "decoration.rounding_power", value_kind: ScalarWriteValueKind::Number },
        SafeWritableRow { row_id: "appearance.dim.strength", official_setting: "decoration.dim_strength", value_kind: ScalarWriteValueKind::Percent },
        SafeWritableRow { row_id: "appearance.dim.special", official_setting: "decoration.dim_special", value_kind: ScalarWriteValueKind::Percent },
        SafeWritableRow { row_id: "appearance.dim.around", official_setting: "decoration.dim_around", value_kind: ScalarWriteValueKind::Percent },
        SafeWritableRow { row_id: "appearance.blur.vibrancy", official_setting: "decoration.blur.vibrancy", value_kind: ScalarWriteValueKind::Percent },
    ];
    assert(t@ =~= safe_rows_part_2());
    t
}

fn safe_rows_chunk_3() -> (r: &'static [SafeWritableRow])
    ensures
        r@ == safe_rows_part_3(),
{
    let t: &'static [SafeWritableRow] = &[
        SafeWritableRow { row_id: "appearance.blur.vibrancy_darkness", official_setting: "decoration.blur.vibrancy_darkness", value_kind: ScalarWriteValueKind::Percent },
        SafeWritableRow { row_id: "appearance.blur.popups_ignorealpha", official_setting: "decoration.blur.popups_ignorealpha", value_kind: ScalarWriteValueKind::Percent },
        SafeWritableRow { row_id: "appearance.blur.input_methods_ignorealpha", official_setting: "decoration.blur.input_methods_ignorealpha", value_kind: ScalarWriteValueKind::Percent },
        SafeWritableRow { row_id: "appearance.glow.range", official_setting: "decoration.glow.range", value_kind: ScalarWriteValueKind::Number },
        SafeWritableRow { row_id: "appearance.glow.render_power", official_setting: "decoration.glow.render_power", value_kind: ScalarWriteValueKind::Number },
        SafeWritableRow { row_id: "general.float_gaps", official_setting: "general.float_gaps", value_kind: ScalarWriteValueKind::Number },
        SafeWritableRow { row_id: "general.gaps_workspaces", official_setting: "general.gaps_workspaces", value_kind: ScalarWriteValueKind::Number },
        SafeWritableRow { row_id: "layout.selection", official_setting: "general.layout", value_kind: ScalarWriteValueKind::FiniteChoice },
        SafeWritableRow { row_id: "general.no_focus_fallback", official_setting: "general.no_focus_fallback", value_kind: ScalarWriteValueKind::Boolean },
        SafeWritableRow { row_id: "general.resize_on_border", official_setting: "general.resize_on_border", value_kind: ScalarWriteValueKind::Boolean },
        SafeWritableRow { row_id: "general.extend_border_grab_area", official_setting: "general.extend_border_grab_area", value_kind: ScalarWriteValueKind::Number },
        SafeWritableRow { row_id: "general.hover_icon_on_border", official_setting: "general.hover_icon_on_border", value_kind: ScalarWriteValueKind::Boolean },
        SafeWritableRow { row_id: "general.resize_corner", official_setting: "general.resize_corner", value_kind: ScalarWriteValueKind::FiniteChoice },
        SafeWritableRow { row_id: "general.snap.border_overlap", official_setting: "general.snap.border_overlap", value_kind: ScalarWriteValueKind::Boolean },
        SafeWritableRow { row_id: "general.snap.respect_gaps", official_setting: "general.snap.respect_gaps", value_kind: ScalarWriteValueKind::Boolean },
        SafeWritableRow { row_id: "general.modal_parent_blocking", official_setting: "general.modal_parent_blocking", value_kind: ScalarWriteValueKind::Boolean },
        SafeWritableRow { row_id: "input.numlock_by_default", official_setting: "input.numlock_by_default", value_kind: ScalarWriteValueKind::Boolean },
        SafeWritableRow { row_id: "input.resolve_binds_by_sym", official_setting: "input.resolve_binds_by_sym", value_kind: ScalarWriteValueKind::Boolean },
        SafeWritableRow { row_id: "input.repeat_rate", official_setting: "input.repeat_rate", value_kind: ScalarWriteValueKind::Number },
        SafeWritableRow { row_id: "input.repeat_delay", official_setting: "input.repeat_delay", value_kind: ScalarWriteValueKind::Number },
        SafeWritableRow { row_id: "input.force_no_accel", official_setting: "input.force_no_accel", value_kind: ScalarWriteValueKind::Boolean },
        SafeWritableRow { row_id: "input.rotation", official_setting: "input.rotation", value_kind: ScalarWriteValueKind::Number },
        SafeWritableRow { row_id: "input.left_handed", official_setting: "input.left_handed", value_kind: ScalarWriteValueKind::Boolean },
        SafeWritableRow { row_id: "input.scroll_button", official_setting: "input.scroll_button", value_kind: ScalarWriteValueKind::Number },
        SafeWritableRow { row_id: "input.scroll_button_lock", official_setting: "input.scroll_button_lock", value_kind: ScalarWriteValueKind::Boolean },
        SafeWritableRow { row_id: "input.scroll_factor", official_setting: "input.scroll_factor", value_kind: ScalarWriteValueKind::Percent },
        SafeWritableRow { row_id: "input.scroll_method", official_setting: "input.scroll_method", value_kind: ScalarWriteValueKind::FiniteChoice },
        SafeWritableRow { row_id: "input.natural_scroll", official_setting: "input.natural_scroll", value_kind: ScalarWriteValueKind::Boolean },
        SafeWritableRow { row_id: "input.follow_mouse_threshold", official_setting: "input.follow_mouse_threshold", value_kind: ScalarWriteValueKind::Number },
        SafeWritableRow { row_id: "input.follow_mouse", official_setting: "input.follow_mouse", value_kind: ScalarWriteValueKind::FiniteChoice },
        SafeWritableRow { row_id: "input.focus_on_close", official_setting: "input.focus_on_close", value_kind: ScalarWriteValueKind::FiniteChoice },
        SafeWritableRow { row_id: "input.mouse_refocus", official_setting: "input.mouse_refocus", value_kind: ScalarWriteValueKind::Boolean },
        SafeWritableRow { row_id: "input.float_switch_override_focus", official_setting: "input.float_switch_override_focus", value_kind: ScalarWriteValueKind::FiniteChoice },
        SafeWritableRow { row_id: "input.special_fallthrough", official_setting: "input.special_fallthrough", value_kind: ScalarWriteValueKind::Boolean },
        SafeWritableRow { row_id: "input.off_window_axis_events", official_setting: "input.off_window_axis_events", value_kind: ScalarWriteValueKind::FiniteChoice },
        SafeWritableRow { row_id: "input.emulate_discrete_scroll", official_setting: "input.emulate_discrete_scroll", value_kind: ScalarWriteValueKind::FiniteChoice },
        SafeWritableRow { row_id: "input.follow_mouse_shrink", official_setting: "input.follow_mouse_shrink", value_kind: ScalarWriteValueKind::Number },
        SafeWritableRow { row_id: "input.touchpad.disable_while_typing", official_setting: "input.touchpad.disable_while_typing", value_kind: ScalarWriteValueKind::Boolean },
        SafeWritableRow { row_id: "input.touchpad.natural_scroll", official_setting: "input.touchpad.natural_scroll", value_kind: ScalarWriteValueKind::Boolean },
        SafeWritableRow { row_id: "input.touchpad.scroll_factor", official_setting: "input.touchpad.scroll_factor", value_kind: ScalarWriteValueKind::Percent },
    ];
    assert(t@ =~= safe_rows_part_3());
    t
}

fn safe_rows_chunk_4() -> (r: &'static [SafeWritableRow])
    ensures
        r@ == safe_rows_part_4(),
{
    let t: &'static [SafeWritableRow] = &[
        SafeWritableRow { row_id: "input.touchpad.middle_button_emulation", official_setting: "input.touchpad.middle_button_emulation", value_kind: ScalarWriteValueKind::Boolean },
        SafeWritableRow { row_id: "input.touchpad.clickfinger_behavior", official_setting: "input.touchpad.clickfinger_behavior", value_kind: ScalarWriteValueKind::Boolean },
        SafeWritableRow { row_id: "input.touchpad.tap-to-click", official_setting: "input.touchpad.tap-to-click", value_kind: ScalarWriteValueKind::Boolean },
        SafeWritableRow { row_id: "input.touchpad.drag_lock", official_setting: "input.touchpad.drag_lock", value_kind: ScalarWriteValueKind::FiniteChoice },
        SafeWritableRow { row_id: "input.touchpad.tap_button_map", official_setting: "input.touchpad.tap_button_map", value_kind: ScalarWriteValueKind::FiniteChoice },
        SafeWritableRow { row_id: "input.touchpad.tap-and-drag", official_setting: "input.touchpad.tap-and-drag", value_kind: ScalarWriteValueKind::Boolean },
        SafeWritableRow { row_id: "input.touchpad.flip_x", official_setting: "input.touchpad.flip_x", value_kind: ScalarWriteValueKind::Boolean },
        SafeWritableRow { row_id: "input.touchpad.flip_y", official_setting: "input.touchpad.flip_y", value_kind: ScalarWriteValueKind::Boolean },
        SafeWritableRow { row_id: "input.touchpad.drag_3fg", official_setting: "input.touchpad.drag_3fg", value_kind: ScalarWriteValueKind::FiniteChoice },
        SafeWritableRow { row_id: "input.touchdevice.transform", official_setting: "input.touchdevice.transform", value_kind: ScalarWriteValueKind::Number },
        SafeWritableRow { row_id: "input.touchdevice.enabled", official_setting: "input.touchdevice.enabled", value_kind: ScalarWriteValueKind::Boolean },
        SafeWritableRow { row_id: "input.touchdevice.output", official_setting: "input.touchdevice.output", value_kind: ScalarWriteValueKind::MonitorName },
        SafeWritableRow { row_id: "input.virtualkeyboard.share_states", official_setting: "input.virtualkeyboard.share_states", value_kind: ScalarWriteValueKind::FiniteChoice },
        SafeWritableRow { row_id: "input.virtualkeyboard.release_pressed_on_close", official_setting: "input.virtualkeyboard.release_pressed_on_close", value_kind: ScalarWriteValueKind::Boolean },
        SafeWritableRow { row_id: "input.tablet.transform", official_setting: "input.tablet.transform", value_kind: ScalarWriteValueKind::Number },
        SafeWritableRow { row_id: "input.tablet.absolute_region_position", official_setting: "input.tablet.absolute_region_position", value_kind: ScalarWriteValueKind::Boolean },
        SafeWritableRow { row_id: "input.tablet.relative_input", official_setting: "input.tablet.relative_input", value_kind: ScalarWriteValueKind::Boolean },
        SafeWritableRow { row_id: "input.tablet.output", official_setting: "input.tablet.output", value_kind: ScalarWriteValueKind::MonitorName },
        SafeWritableRow { row_id: "input.tablet.left_handed", official_setting: "input.tablet.left_handed", value_kind: ScalarWriteValueKind::Boolean },
        SafeWritableRow { row_id: "gestures.workspace_swipe_distance", official_setting: "gestures.workspace_swipe_distance", value_kind: ScalarWriteValueKind::Number },
        SafeWritableRow { row_id: "gestures.workspace_swipe_touch", official_setting: "gestures.workspace_swipe_touch", value_kind: ScalarWriteValueKind::Boolean },
        SafeWritableRow { row_id: "gestures.workspace_swipe_invert", official_setting: "gestures.workspace_swipe_invert", value_kind: ScalarWriteValueKind::Boolean },
        SafeWritableRow { row_id: "gestures.workspace_swipe_touch_invert", official_setting: "gestures.workspace_swipe_touch_invert", value_kind: ScalarWriteValueKind::Boolean },
        SafeWritableRow { row_id: "gestures.workspace_swipe_min_speed_to_force", official_setting: "gestures.workspace_swipe_min_speed_to_force", value_kind: ScalarWriteValueKind::Number },
        SafeWritableRow { row_id: "gestures.workspace_swipe_cancel_ratio", official_setting: "gestures.workspace_swipe_cancel_ratio", value_kind: ScalarWriteValueKind::Percent },
        SafeWritableRow { row_id: "gestures.workspace_swipe_create_new", official_setting: "gestures.workspace_swipe_create_new", value_kind: ScalarWriteValueKind::Boolean },
        SafeWritableRow { row_id: "gestures.workspace_swipe_direction_lock", official_setting: "gestures.workspace_swipe_direction_lock", value_kind: ScalarWriteValueKind::Boolean },
        SafeWritableRow { row_id: "gestures.workspace_swipe_direction_lock_threshold", official_setting: "gestures.workspace_swipe_direction_lock_threshold", value_kind: ScalarWriteValueKind::Number },
        SafeWritableRow { row_id: "gestures.workspace_swipe_forever", official_setting: "gestures.workspace_swipe_forever", value_kind: ScalarWriteValueKind::Boolean },
        SafeWritableRow { row_id: "gestures.workspace_swipe_use_r", official_setting: "gestures.workspace_swipe_use_r", value_kind: ScalarWriteValueKind::Boolean },
        SafeWritableRow { row_id: "gestures.close_max_timeout", official_setting: "gestures.close_max_timeout", value_kind: ScalarWriteValueKind::Number },
        SafeWritableRow { row_id: "gestures.scrolling.move_snap_to_grid", official_setting: "gestures.scrolling.move_snap_to_grid", value_kind: ScalarWriteValueKind::Boolean },
        SafeWritableRow { row_id: "gestures.scrolling.move_snap_cursor", official_setting: "gestures.scrolling.move_snap_cursor", value_kind: ScalarWriteValueKind::Boolean },
        SafeWritableRow { row_id: "group.insert_after_current", official_setting: "group.insert_after_current", value_kind: ScalarWriteValueKind::Boolean },
        SafeWritableRow { row_id: "group.focus_removed_window", official_setting: "group.focus_removed_window", value_kind: ScalarWriteValueKind::Boolean },
        SafeWritableRow { row_id: "group.merge_groups_on_drag", official_setting: "group.merge_groups_on_drag", value_kind: ScalarWriteValueKind::Boolean },
        SafeWritableRow { row_id: "group.merge_groups_on_groupbar", official_setting: "group.merge_groups_on_groupbar", value_kind: ScalarWriteValueKind::Boolean },
        SafeWritableRow { row_id: "group.auto_group", official_setting: "group.auto_group", value_kind: ScalarWriteValueKind::Boolean },
        SafeWritableRow { row_id: "group.drag_into_group", official_setting: "group.drag_into_group", value_kind: ScalarWriteValueKind::FiniteChoice },
        SafeWritableRow { row_id: "group.merge_floated_into_tiled_on_groupbar", official_setting: "group.merge_floated_into_tiled_on_groupbar", value_kind: ScalarWriteValueKind::Boolean },
    ];
    assert(t@ =~= safe_rows_part_4());
    t
}

fn safe_rows_chunk_5() -> (r: &'static [SafeWritableRow])
    ensures
        r@ == safe_rows_part_5(),
{
    let t: &'static [SafeWritableRow] = &[
        SafeWritableRow { row_id: "group.group_on_movetoworkspace", official_setting: "group.group_on_movetoworkspace", value_kind: ScalarWriteValueKind::Boolean },
        SafeWritableRow { row_id: "group.groupbar.font_weight_active", official_setting: "group.groupbar.font_weight_active", value_kind: ScalarWriteValueKind::Number },
        SafeWritableRow { row_id: "group.groupbar.font_weight_inactive", official_setting: "group.groupbar.font_weight_inactive", value_kind: ScalarWriteValueKind::Number },
        SafeWritableRow { row_id: "group.groupbar.font_size", official_setting: "group.groupbar.font_size", value_kind: ScalarWriteValueKind::Number },
        SafeWritableRow { row_id: "group.groupbar.height", official_setting: "group.groupbar.height", value_kind: ScalarWriteValueKind::Number },
        SafeWritableRow { row_id: "group.groupbar.indicator_gap", official_setting: "group.groupbar.indicator_gap", value_kind: ScalarWriteValueKind::Number },
        SafeWritableRow { row_id: "group.groupbar.indicator_height", official_setting: "group.groupbar.indicator_height", value_kind: ScalarWriteValueKind::Number },
        SafeWritableRow { row_id: "group.groupbar.priority", official_setting: "group.groupbar.priority", value_kind: ScalarWriteValueKind::Number },
        SafeWritableRow { row_id: "group.groupbar.rounding", official_setting: "group.groupbar.rounding", value_kind: ScalarWriteValueKind::Number },
        SafeWritableRow { row_id: "group.groupbar.rounding_power", official_setting: "group.groupbar.rounding_power", value_kind: ScalarWriteValueKind::Number },
        SafeWritableRow { row_id: "group.groupbar.gradient_rounding", official_setting: "group.groupbar.gradient_rounding", value_kind: ScalarWriteValueKind::Number },
        SafeWritableRow { row_id: "group.groupbar.gradient_rounding_power", official_setting: "group.groupbar.gradient_rounding_power", value_kind: ScalarWriteValueKind::Number },
        SafeWritableRow { row_id: "group.groupbar.gaps_out", official_setting: "group.groupbar.gaps_out", value_kind: ScalarWriteValueKind::Number },
        SafeWritableRow { row_id: "group.groupbar.gaps_in", official_setting: "group.groupbar.gaps_in", value_kind: ScalarWriteValueKind::Number },
        SafeWritableRow { row_id: "group.groupbar.text_offset", official_setting: "group.groupbar.text_offset", value_kind: ScalarWriteValueKind::Number },
        SafeWritableRow { row_id: "group.groupbar.text_padding", official_setting: "group.groupbar.text_padding", value_kind: ScalarWriteValueKind::Number },
        SafeWritableRow { row_id: "misc.force_default_wallpaper", official_setting: "misc.force_default_wallpaper", value_kind: ScalarWriteValueKind::Number },
        SafeWritableRow { row_id: "misc.initial_workspace_tracking", official_setting: "misc.initial_workspace_tracking", value_kind: ScalarWriteValueKind::Number },
        SafeWritableRow { row_id: "misc.render_unfocused_fps", official_setting: "misc.render_unfocused_fps", value_kind: ScalarWriteValueKind::Number },
        SafeWritableRow { row_id: "misc.lockdead_screen_delay", official_setting: "misc.lockdead_screen_delay", value_kind: ScalarWriteValueKind::Number },
        SafeWritableRow { row_id: "misc.anr_missed_pings", official_setting: "misc.anr_missed_pings", value_kind: ScalarWriteValueKind::Number },
        SafeWritableRow { row_id: "binds.pass_mouse_when_bound", official_setting: "binds.pass_mouse_when_bound", value_kind: ScalarWriteValueKind::Boolean },
        SafeWritableRow { row_id: "binds.scroll_event_delay", official_setting: "binds.scroll_event_delay", value_kind: ScalarWriteValueKind::Number },
        SafeWritableRow { row_id: "binds.workspace_back_and_forth", official_setting: "binds.workspace_back_and_forth", value_kind: ScalarWriteValueKind::Boolean },
        SafeWritableRow { row_id: "binds.hide_special_on_workspace_change", official_setting: "binds.hide_special_on_workspace_change", value_kind: ScalarWriteValueKind::Boolean },
        SafeWritableRow { row_id: "binds.allow_workspace_cycles", official_setting: "binds.allow_workspace_cycles", value_kind: ScalarWriteValueKind::Boolean },
        SafeWritableRow { row_id: "binds.workspace_center_on", official_setting: "binds.workspace_center_on", value_kind: ScalarWriteValueKind::Number },
        SafeWritableRow { row_id: "binds.focus_preferred_method", official_setting: "binds.focus_preferred_method", value_kind: ScalarWriteValueKind::Number },
        SafeWritableRow { row_id: "binds.ignore_group_lock", official_setting: "binds.ignore_group_lock", value_kind: ScalarWriteValueKind::Boolean },
        SafeWritableRow { row_id: "binds.movefocus_cycles_groupfirst", official_setting: "binds.movefocus_cycles_groupfirst", value_kind: ScalarWriteValueKind::Boolean },
        SafeWritableRow { row_id: "binds.movefocus_cycles_fullscreen", official_setting: "binds.movefocus_cycles_fullscreen", value_kind: ScalarWriteValueKind::Boolean },
        SafeWritableRow { row_id: "binds.disable_keybind_grabbing", official_setting: "binds.disable_keybind_grabbing", value_kind: ScalarWriteValueKind::Boolean },
        SafeWritableRow { row_id: "binds.window_direction_monitor_fallback", official_setting: "binds.window_direction_monitor_fallback", value_kind: ScalarWriteValueKind::Boolean },
        SafeWritableRow { row_id: "binds.drag_threshold", official_setting: "binds.drag_threshold", value_kind: ScalarWriteValueKind::Number },
        SafeWritableRow { row_id: "binds.allow_pin_fullscreen", official_setting: "binds.allow_pin_fullscreen", value_kind: ScalarWriteValueKind::Boolean },
        SafeWritableRow { row_id: "layout.single_window_aspect_ratio_tolerance", official_setting: "layout.single_window_aspect_ratio_tolerance", value_kind: ScalarWriteValueKind::Percent },
        SafeWritableRow { row_id: "dwindle.force_split", official_setting: "dwindle.force_split", value_kind: ScalarWriteValueKind::FiniteChoice },
        SafeWritableRow { row_id: "dwindle.preserve_split", official_setting: "dwindle.preserve_split", value_kind: ScalarWriteValueKind::Boolean },
        SafeWritableRow { row_id: "dwindle.smart_split", official_setting: "dwindle.smart_split", value_kind: ScalarWriteValueKind::Boolean },
        SafeWritableRow { row_id: "dwindle.smart_resizing", official_setting: "dwindle.smart_resizing", value_kind: ScalarWriteValueKind::Boolean },
    ];
    assert(t@ =~= safe_rows_part_5());
    t
}

fn safe_rows_chunk_6() -> (r: &'static [SafeWritableRow])
    ensures
        r@ == safe_rows_part_6(),
{
    let t: &'static [SafeWritableRow] = &[
        SafeWritableRow { row_id: "dwindle.permanent_direction_override", official_setting: "dwindle.permanent_direction_override", value_kind: ScalarWriteValueKind::Boolean },
        SafeWritableRow { row_id: "dwindle.special_scale_factor", official_setting: "dwindle.special_scale_factor", value_kind: ScalarWriteValueKind::Percent },
        SafeWritableRow { row_id: "dwindle.split_width_multiplier", official_setting: "dwindle.split_width_multiplier", value_kind: ScalarWriteValueKind::Number },
        SafeWritableRow { row_id: "dwindle.use_active_for_splits", official_setting: "dwindle.use_active_for_splits", value_kind: ScalarWriteValueKind::Boolean },
        SafeWritableRow { row_id: "dwindle.default_split_ratio", official_setting: "dwindle.default_split_ratio", value_kind: ScalarWriteValueKind::Percent },
        SafeWritableRow { row_id: "dwindle.split_bias", official_setting: "dwindle.split_bias", value_kind: ScalarWriteValueKind::FiniteChoice },
        SafeWritableRow { row_id: "dwindle.precise_mouse_move", official_setting: "dwindle.precise_mouse_move", value_kind: ScalarWriteValueKind::Boolean },
        SafeWritableRow { row_id: "master.allow_small_split", official_setting: "master.allow_small_split", value_kind: ScalarWriteValueKind::Boolean },
        SafeWritableRow { row_id: "master.special_scale_factor", official_setting: "master.special_scale_factor", value_kind: ScalarWriteValueKind::Percent },
        SafeWritableRow { row_id: "master.mfact", official_setting: "master.mfact", value_kind: ScalarWriteValueKind::Number },
        SafeWritableRow { row_id: "master.new_on_top", official_setting: "master.new_on_top", value_kind: ScalarWriteValueKind::Boolean },
        SafeWritableRow { row_id: "master.new_status", official_setting: "master.new_status", value_kind: ScalarWriteValueKind::FiniteChoice },
        SafeWritableRow { row_id: "master.new_on_active", official_setting: "master.new_on_active", value_kind: ScalarWriteValueKind::FiniteChoice },
        SafeWritableRow { row_id: "master.orientation", official_setting: "master.orientation", value_kind: ScalarWriteValueKind::FiniteChoice },
        SafeWritableRow { row_id: "master.slave_count_for_center_master", official_setting: "master.slave_count_for_center_master", value_kind: ScalarWriteValueKind::Number },
        SafeWritableRow { row_id: "master.center_ignores_reserved", official_setting: "master.center_ignores_reserved", value_kind: ScalarWriteValueKind::Boolean },
        SafeWritableRow { row_id: "master.center_master_fallback", official_setting: "master.center_master_fallback", value_kind: ScalarWriteValueKind::FiniteChoice },
        SafeWritableRow { row_id: "master.smart_resizing", official_setting: "master.smart_resizing", value_kind: ScalarWriteValueKind::Boolean },
        SafeWritableRow { row_id: "master.drop_at_cursor", official_setting: "master.drop_at_cursor", value_kind: ScalarWriteValueKind::Boolean },
        SafeWritableRow { row_id: "master.always_keep_position", official_setting: "master.always_keep_position", value_kind: ScalarWriteValueKind::Boolean },
        SafeWritableRow { row_id: "scrolling.column_width", official_setting: "scrolling.column_width", value_kind: ScalarWriteValueKind::Number },
        SafeWritableRow { row_id: "scrolling.focus_fit_method", official_setting: "scrolling.focus_fit_method", value_kind: ScalarWriteValueKind::FiniteChoice },
        SafeWritableRow { row_id: "scrolling.follow_focus", official_setting: "scrolling.follow_focus", value_kind: ScalarWriteValueKind::Boolean },
        SafeWritableRow { row_id: "scrolling.follow_min_visible", official_setting: "scrolling.follow_min_visible", value_kind: ScalarWriteValueKind::Number },
        SafeWritableRow { row_id: "scrolling.explicit_column_widths", official_setting: "scrolling.explicit_column_widths", value_kind: ScalarWriteValueKind::CommaSeparatedFloatList },
        SafeWritableRow { row_id: "scrolling.wrap_focus", official_setting: "scrolling.wrap_focus", value_kind: ScalarWriteValueKind::Boolean },
        SafeWritableRow { row_id: "scrolling.wrap_swapcol", official_setting: "scrolling.wrap_swapcol", value_kind: ScalarWriteValueKind::Boolean },
        SafeWritableRow { row_id: "scrolling.direction", official_setting: "scrolling.direction", value_kind: ScalarWriteValueKind::FiniteChoice },
        SafeWritableRow { row_id: "scrolling.fullscreen_on_one_column", official_setting: "scrolling.fullscreen_on_one_column", value_kind: ScalarWriteValueKind::Boolean },
        SafeWritableRow { row_id: "ecosystem.no_update_news", official_setting: "ecosystem.no_update_news", value_kind: ScalarWriteValueKind::Boolean },
        SafeWritableRow { row_id: "ecosystem.no_donation_nag", official_setting: "ecosystem.no_donation_nag", value_kind: ScalarWriteValueKind::Boolean },
        SafeWritableRow { row_id: "ecosystem.enforce_permissions", official_setting: "ecosystem.enforce_permissions", value_kind: ScalarWriteValueKind::Boolean },
    ];
    assert(t@ =~= safe_rows_part_6());
    t
}

pub open spec fn spec_layout_selection_choices() -> Seq<FiniteChoiceOption> {
    seq![
        FiniteChoiceOption { raw_value: "dwindle", label: "Dwindle" },
        FiniteChoiceOption { raw_value: "master", label: "Master" },
        FiniteChoiceOption { raw_value: "scrolling", label: "Scrolling" },
        FiniteChoiceOption { raw_value: "monocle", label: "Monocle" },
    ]
}

pub open spec fn spec_input_follow_mouse_choices() -> Seq<FiniteChoiceOption> {
    seq![
        FiniteChoiceOption { raw_value: "0", label: "Disabled" },
        FiniteChoiceOption { raw_value: "1", label: "Full" },
        FiniteChoiceOption { raw_value: "2", label: "Loose" },
        FiniteChoiceOption { raw_value: "3", label: "Loose (no mouse focus)" },
    ]
}

pub open spec fn spec_input_touchpad_tap_button_map_choices() -> Seq<FiniteChoiceOption> {
    seq![
        FiniteChoiceOption { raw_value: "lrm", label: "Left / Right / Middle" },
        FiniteChoiceOption { raw_value: "lmr", label: "Left / Middle / Right" },
    ]
}

pub open spec fn spec_master_new_status_choices() -> Seq<FiniteChoiceOption> {
    seq![
        FiniteChoiceOption { raw_value: "master", label: "Master" },
        FiniteChoiceOption { raw_value: "slave", label: "Slave" },
        FiniteChoiceOption { raw_value: "inherit", label: "Inherit" },
    ]
}

pub open spec fn spec_master_new_on_active_choices() -> Seq<FiniteChoiceOption> {
    seq![
        FiniteChoiceOption { raw_value: "none", label: "None" },
        FiniteChoiceOption { raw_value: "before", label: "Before active" },
        FiniteChoiceOption { raw_value: "after", label: "After active" },
    ]
}

pub open spec fn spec_master_orientation_choices() -> Seq<FiniteChoiceOption> {
    seq![
        FiniteChoiceOption { raw_value: "left", label: "Left" },
        FiniteChoiceOption { raw_value: "right", label: "Right" },
        FiniteChoiceOption { raw_value: "top", label: "Top" },
        FiniteChoiceOption { raw_value: "bottom", label: "Bottom" },
        FiniteChoiceOption { raw_value: "center", label: "Center" },
    ]
}

pub open spec fn spec_scrolling_direction_choices() -> Seq<FiniteChoiceOption> {
    seq![
        FiniteChoiceOption { raw_value: "right", label: "Right" },
        FiniteChoiceOption { raw_value: "left", label: "Left" },
        FiniteChoiceOption { raw_value: "down", label: "Down" },
        FiniteChoiceOption { raw_value: "up", label: "Up" },
    ]
}

pub open spec fn spec_master_center_master_fallback_choices() -> Seq<FiniteChoiceOption> {
    seq![
        FiniteChoiceOption { raw_value: "left", label: "Left" },
        FiniteChoiceOption { raw_value: "right", label: "Right" },
        FiniteChoiceOption { raw_value: "top", label: "Top" },
        FiniteChoiceOption { raw_value: "bottom", label: "Bottom" },
    ]
}

pub open spec fn spec_input_scroll_method_choices() -> Seq<FiniteChoiceOption> {
    seq![
        FiniteChoiceOption { raw_value: "2fg", label: "Two-finger" },
        FiniteChoiceOption { raw_value: "edge", label: "Edge" },
        FiniteChoiceOption { raw_value: "on_button_down", label: "On button down" },
        FiniteChoiceOption { raw_value: "no_scroll", label: "No scroll" },
    ]
}

pub open spec fn spec_general_resize_corner_choices() -> Seq<FiniteChoiceOption> {
    seq![
        FiniteChoiceOption { raw_value: "0", label: "disable" },
        FiniteChoiceOption { raw_value: "1", label: "top_left" },
        FiniteChoiceOption { raw_value: "2", label: "top_right" },
        FiniteChoiceOption { raw_value: "3", label: "bottom_right" },
        FiniteChoiceOption { raw_value: "4", label: "bottom_left" },
    ]
}

pub open spec fn spec_input_focus_on_close_choices() -> Seq<FiniteChoiceOption> {
    seq![
        FiniteChoiceOption { raw_value: "0", label: "next" },
        FiniteChoiceOption { raw_value: "1", label: "cursor" },
        FiniteChoiceOption { raw_value: "2", label: "mru" },
    ]
}

pub open spec fn spec_input_float_switch_override_focus_choices() -> Seq<FiniteChoiceOption> {
    seq![
        FiniteChoiceOption { raw_value: "0", label: "Disabled" },
        FiniteChoiceOption { raw_value: "1", label: "Enabled" },
        FiniteChoiceOption { raw_value: "2", label: "Enabled also unfocuses" },
    ]
}

pub open spec fn spec_input_off_window_axis_events_choices() -> Seq<FiniteChoiceOption> {
    seq![
        FiniteChoiceOption { raw_value: "0", label: "ignore" },
        FiniteChoiceOption { raw_value: "1", label: "send" },
        FiniteChoiceOption { raw_value: "2", label: "clamp" },
        FiniteChoiceOption { raw_value: "3", label: "warp" },
    ]
}

pub open spec fn spec_input_emulate_discrete_scroll_choices() -> Seq<FiniteChoiceOption> {
    seq![
        FiniteChoiceOption { raw_value: "0", label: "disable" },
        FiniteChoiceOption { raw_value: "1", label: "non_standard" },
        FiniteChoiceOption { raw_value: "2", label: "force_all" },
    ]
}

pub open spec fn spec_input_touchpad_drag_lock_choices() -> Seq<FiniteChoiceOption> {
    seq![
        FiniteChoiceOption { raw_value: "0", label: "Disabled" },
        FiniteChoiceOption { raw_value: "1", label: "Enabled with timeout" },
        FiniteChoiceOption { raw_value: "2", label: "Sticky" },
    ]
}

pub open spec fn spec_input_touchpad_drag_3fg_choices() -> Seq<FiniteChoiceOption> {
    seq![
        FiniteChoiceOption { raw_value: "0", label: "disable" },
        FiniteChoiceOption { raw_value: "1", label: "3_finger" },
        FiniteChoiceOption { raw_value: "2", label: "4_finger" },
    ]
}

pub open spec fn spec_input_virtualkeyboard_share_states_choices() -> Seq<FiniteChoiceOption> {
    seq![
        FiniteChoiceOption { raw_value: "0", label: "disable" },
        FiniteChoiceOption { raw_value: "1", label: "enable" },
        FiniteChoiceOption { raw_value: "2", label: "only_non_ime" },
    ]
}

pub open spec fn spec_group_drag_into_group_choices() -> Seq<FiniteChoiceOption> {
    seq![
        FiniteChoiceOption { raw_value: "0", label: "disabled" },
        FiniteChoiceOption { raw_value: "1", label: "enabled" },
        FiniteChoiceOption { raw_value: "2", label: "only when dragging into the groupbar" },
    ]
}

pub open spec fn spec_dwindle_force_split_choices() -> Seq<FiniteChoiceOption> {
    seq![
        FiniteChoiceOption { raw_value: "0", label: "Follow mouse" },
        FiniteChoiceOption { raw_value: "1", label: "Left / Top" },
        FiniteChoiceOption { raw_value: "2", label: "Right / Bottom" },
    ]
}

pub open spec fn spec_dwindle_split_bias_choices() -> Seq<FiniteChoiceOption> {
    seq![
        FiniteChoiceOption { raw_value: "0", label: "directional" },
        FiniteChoiceOption { raw_value: "1", label: "current" },
    ]
}

pub open spec fn spec_scrolling_focus_fit_method_choices() -> Seq<FiniteChoiceOption> {
    seq![
        FiniteChoiceOption { raw_value: "0", label: "center" },
        FiniteChoiceOption { raw_value: "1", label: "fit" },
    ]
}

pub open spec fn spec_misc_vrr_choices() -> Seq<FiniteChoiceOption> {
    seq![
        FiniteChoiceOption { raw_value: "0", label: "Off" },
        FiniteChoiceOption { raw_value: "1", label: "On" },
        FiniteChoiceOption { raw_value: "2", label: "Fullscreen only" },
        FiniteChoiceOption { raw_value: "3", label: "Fullscreen game content" },
    ]
}

pub open spec fn spec_misc_on_focus_under_fullscreen_choices() -> Seq<FiniteChoiceOption> {
    seq![
        FiniteChoiceOption { raw_value: "0", label: "ignore" },
        FiniteChoiceOption { raw_value: "1", label: "take_over" },
        FiniteChoiceOption { raw_value: "2", label: "exit_fullscreen" },
    ]
}

/// The verified choices of a finite-choice row.
pub open spec fn spec_finite_choice_options(row_id: Seq<char>) -> Option<Seq<FiniteChoiceOption>> {
    if row_id == "layout.selection"@ {
        Some(spec_layout_selection_choices())
    } else if row_id == "input.follow_mouse"@ {
        Some(spec_input_follow_mouse_choices())
    } else if row_id == "input.touchpad.tap_button_map"@ {
        Some(spec_input_touchpad_tap_button_map_choices())
    } else if row_id == "master.new_status"@ {
        Some(spec_master_new_status_choices())
    } else if row_id == "master.new_on_active"@ {
        Some(spec_master_new_on_active_choices())
    } else if row_id == "master.orientation"@ {
        Some(spec_master_orientation_choices())
    } else if row_id == "master.center_master_fallback"@ {
        Some(spec_master_center_master_fallback_choices())
    } else if row_id == "scrolling.direction"@ {
        Some(spec_scrolling_direction_choices())
    } else if row_id == "input.scroll_method"@ {
        Some(spec_input_scroll_method_choices())
    } else if row_id == "general.resize_corner"@ {
        Some(spec_general_resize_corner_choices())
    } else if row_id == "input.focus_on_close"@ {
        Some(spec_input_focus_on_close_choices())
    } else if row_id == "input.float_switch_override_focus"@ {
        Some(spec_input_float_switch_override_focus_choices())
    } else if row_id == "input.off_window_axis_events"@ {
        Some(spec_input_off_window_axis_events_choices())
    } else if row_id == "input.emulate_discrete_scroll"@ {
        Some(spec_input_emulate_discrete_scroll_choices())
    } else if row_id == "input.touchpad.drag_lock"@ {
        Some(spec_input_touchpad_drag_lock_choices())
    } else if row_id == "input.touchpad.drag_3fg"@ {
        Some(spec_input_touchpad_drag_3fg_choices())
    } else if row_id == "input.virtualkeyboard.share_states"@ {
        Some(spec_input_virtualkeyboard_share_states_choices())
    } else if row_id == "group.drag_into_group"@ {
        Some(spec_group_drag_into_group_choices())
    } else if row_id == "dwindle.force_split"@ {
        Some(spec_dwindle_force_split_choices())
    } else if row_id == "dwindle.split_bias"@ {
        Some(spec_dwindle_split_bias_choices())
    } else if row_id == "scrolling.focus_fit_method"@ {
        Some(spec_scrolling_focus_fit_method_choices())
    } else if row_id == "misc.vrr"@ {
        Some(spec_misc_vrr_choices())
    } else if row_id == "misc.on_focus_under_fullscreen"@ {
        Some(spec_misc_on_focus_under_fullscreen_choices())
    } else {
        None
    }
}

/// The verified choices of a finite-choice row.
pub fn finite_choice_options(row_id: &str) -> (r: Option<&'static [FiniteChoiceOption]>)
    ensures
        match r {
            Some(t) => spec_finite_choice_options(row_id@) == Some(t@),
            None => spec_finite_choice_options(row_id@) is None,
        },
{
    if str_eq(row_id, "layout.selection") {
        let t: &'static [FiniteChoiceOption] = &[
            FiniteChoiceOption { raw_value: "dwindle", label: "Dwindle" },
            FiniteChoiceOption { raw_value: "master", label: "Master" },
            FiniteChoiceOption { raw_value: "scrolling", label: "Scrolling" },
            FiniteChoiceOption { raw_value: "monocle", label: "Monocle" },
        ];
        assert(t@ =~= spec_layout_selection_choices());
        return Some(t);
    }
    if str_eq(row_id, "input.follow_mouse") {
        let t: &'static [FiniteChoiceOption] = &[
            FiniteChoiceOption { raw_value: "0", label: "Disabled" },
            FiniteChoiceOption { raw_value: "1", label: "Full" },
            FiniteChoiceOption { raw_value: "2", label: "Loose" },
            FiniteChoiceOption { raw_value: "3", label: "Loose (no mouse focus)" },
        ];
        assert(t@ =~= spec_input_follow_mouse_choices());
        return Some(t);
    }
    if str_eq(row_id, "input.touchpad.tap_button_map") {
        let t: &'static [FiniteChoiceOption] = &[
            FiniteChoiceOption { raw_value: "lrm", label: "Left / Right / Middle" },
            FiniteChoiceOption { raw_value: "lmr", label: "Left / Middle / Right" },
        ];
        assert(t@ =~= spec_input_touchpad_tap_button_map_choices());
        return Some(t);
    }
    if str_eq(row_id, "master.new_status") {
        let t: &'static [FiniteChoiceOption] = &[
            FiniteChoiceOption { raw_value: "master", label: "Master" },
            FiniteChoiceOption { raw_value: "slave", label: "Slave" },
            FiniteChoiceOption { raw_value: "inherit", label: "Inherit" },
        ];
        assert(t@ =~= spec_master_new_status_choices());
        return Some(t);
    }
    if str_eq(row_id, "master.new_on_active") {
        let t: &'static [FiniteChoiceOption] = &[
            FiniteChoiceOption { raw_value: "none", label: "None" },
            FiniteChoiceOption { raw_value: "before", label: "Before active" },
            FiniteChoiceOption { raw_value: "after", label: "After active" },
        ];
        assert(t@ =~= spec_master_new_on_active_choices());
        return Some(t);
    }
    if str_eq(row_id, "master.orientation") {
        let t: &'static [FiniteChoiceOption] = &[
            FiniteChoiceOption { raw_value: "left", label: "Left" },
            FiniteChoiceOption { raw_value: "right", label: "Right" },
            FiniteChoiceOption { raw_value: "top", label: "Top" },
            FiniteChoiceOption { raw_value: "bottom", label: "Bottom" },
            FiniteChoiceOption { raw_value: "center", label: "Center" },
        ];
        assert(t@ =~= spec_master_orientation_choices());
        return Some(t);
    }
    if str_eq(row_id, "master.center_master_fallback") {
        let t: &'static [FiniteChoiceOption] = &[
            FiniteChoiceOption { raw_value: "left", label: "Left" },
            FiniteChoiceOption { raw_value: "right", label: "Right" },
            FiniteChoiceOption { raw_value: "top", label: "Top" },
            FiniteChoiceOption { raw_value: "bottom", label: "Bottom" },
        ];
        assert(t@ =~= spec_master_center_master_fallback_choices());
        return Some(t);
    }
    if str_eq(row_id, "scrolling.direction") {
        let t: &'static [FiniteChoiceOption] = &[
            FiniteChoiceOption { raw_value: "right", label: "Right" },
            FiniteChoiceOption { raw_value: "left", label: "Left" },
            FiniteChoiceOption { raw_value: "down", label: "Down" },
            FiniteChoiceOption { raw_value: "up", label: "Up" },
        ];
        assert(t@ =~= spec_scrolling_direction_choices());
        return Some(t);
    }
    if str_eq(row_id, "input.scroll_method") {
        let t: &'static [FiniteChoiceOption] = &[
            FiniteChoiceOption { raw_value: "2fg", label: "Two-finger" },
            FiniteChoiceOption { raw_value: "edge", label: "Edge" },
            FiniteChoiceOption { raw_value: "on_button_down", label: "On button down" },
            FiniteChoiceOption { raw_value: "no_scroll", label: "No scroll" },
        ];
        assert(t@ =~= spec_input_scroll_method_choices());
        return Some(t);
    }
    if str_eq(row_id, "general.resize_corner") {
        let t: &'static [FiniteChoiceOption] = &[
            FiniteChoiceOption { raw_value: "0", label: "disable" },
            FiniteChoiceOption { raw_value: "1", label: "top_left" },
            FiniteChoiceOption { raw_value: "2", label: "top_right" },
            FiniteChoiceOption { raw_value: "3", label: "bottom_right" },
            FiniteChoiceOption { raw_value: "4", label: "bottom_left" },
        ];
        assert(t@ =~= spec_general_resize_corner_choices());
        return Some(t);
    }
    if str_eq(row_id, "input.focus_on_close") {
        let t: &'static [FiniteChoiceOption] = &[
            FiniteChoiceOption { raw_value: "0", label: "next" },
            FiniteChoiceOption { raw_value: "1", label: "cursor" },
            FiniteChoiceOption { raw_value: "2", label: "mru" },
        ];
        assert(t@ =~= spec_input_focus_on_close_choices());
        return Some(t);
    }
    if str_eq(row_id, "input.float_switch_override_focus") {
        let t: &'static [FiniteChoiceOption] = &[
            FiniteChoiceOption { raw_value: "0", label: "Disabled" },
            FiniteChoiceOption { raw_value: "1", label: "Enabled" },
            FiniteChoiceOption { raw_value: "2", label: "Enabled also unfocuses" },
        ];
        assert(t@ =~= spec_input_float_switch_override_focus_choices());
        return Some(t);
    }
    if str_eq(row_id, "input.off_window_axis_events") {
        let t: &'static [FiniteChoiceOption] = &[
            FiniteChoiceOption { raw_value: "0", label: "ignore" },
            FiniteChoiceOption { raw_value: "1", label: "send" },
            FiniteChoiceOption { raw_value: "2", label: "clamp" },
            FiniteChoiceOption { raw_value: "3", label: "warp" },
        ];
        assert(t@ =~= spec_input_off_window_axis_events_choices());
        return Some(t);
    }
    if str_eq(row_id, "input.emulate_discrete_scroll") {
        let t: &'static [FiniteChoiceOption] = &[
            FiniteChoiceOption { raw_value: "0", label: "disable" },
            FiniteChoiceOption { raw_value: "1", label: "non_standard" },
            FiniteChoiceOption { raw_value: "2", label: "force_all" },
        ];
        assert(t@ =~= spec_input_emulate_discrete_scroll_choices());
        return Some(t);
    }
    if str_eq(row_id, "input.touchpad.drag_lock") {
        let t: &'static [FiniteChoiceOption] = &[
            FiniteChoiceOption { raw_value: "0", label: "Disabled" },
            FiniteChoiceOption { raw_value: "1", label: "Enabled with timeout" },
            FiniteChoiceOption { raw_value: "2", label: "Sticky" },
        ];
        assert(t@ =~= spec_input_touchpad_drag_lock_choices());
        return Some(t);
    }
    if str_eq(row_id, "input.touchpad.drag_3fg") {
        let t: &'static [FiniteChoiceOption] = &[
            FiniteChoiceOption { raw_value: "0", label: "disable" },
            FiniteChoiceOption { raw_value: "1", label: "3_finger" },
            FiniteChoiceOption { raw_value: "2", label: "4_finger" },
        ];
        assert(t@ =~= spec_input_touchpad_drag_3fg_choices());
        return Some(t);
    }
    if str_eq(row_id, "input.virtualkeyboard.share_states") {
        let t: &'static [FiniteChoiceOption] = &[
            FiniteChoiceOption { raw_value: "0", label: "disable" },
            FiniteChoiceOption { raw_value: "1", label: "enable" },
            FiniteChoiceOption { raw_value: "2", label: "only_non_ime" },
        ];
        assert(t@ =~= spec_input_virtualkeyboard_share_states_choices());
        return Some(t);
    }
    if str_eq(row_id, "group.drag_into_group") {
        let t: &'static [FiniteChoiceOption] = &[
            FiniteChoiceOption { raw_value: "0", label: "disabled" },
            FiniteChoiceOption { raw_value: "1", label: "enabled" },
            FiniteChoiceOption { raw_value: "2", label: "only when dragging into the groupbar" },
        ];
        assert(t@ =~= spec_group_drag_into_group_choices());
        return Some(t);
    }
    if str_eq(row_id, "dwindle.force_split") {
        let t: &'static [FiniteChoiceOption] = &[
            FiniteChoiceOption { raw_value: "0", label: "Follow mouse" },
            FiniteChoiceOption { raw_value: "1", label: "Left / Top" },
            FiniteChoiceOption { raw_value: "2", label: "Right / Bottom" },
        ];
        assert(t@ =~= spec_dwindle_force_split_choices());
        return Some(t);
    }
    if str_eq(row_id, "dwindle.split_bias") {
        let t: &'static [FiniteChoiceOption] = &[
            FiniteChoiceOption { raw_value: "0", label: "directional" },
            FiniteChoiceOption { raw_value: "1", label: "current" },
        ];
        assert(t@ =~= spec_dwindle_split_bias_choices());
        return Some(t);
    }
    if str_eq(row_id, "scrolling.focus_fit_method") {
        let t: &'static [FiniteChoiceOption] = &[
            FiniteChoiceOption { raw_value: "0", label: "center" },
            FiniteChoiceOption { raw_value: "1", label: "fit" },
        ];
        assert(t@ =~= spec_scrolling_focus_fit_method_choices());
        return Some(t);
    }
    if str_eq(row_id, "misc.vrr") {
        let t: &'static [FiniteChoiceOption] = &[
            FiniteChoiceOption { raw_value: "0", label: "Off" },
            FiniteChoiceOption { raw_value: "1", label: "On" },
            FiniteChoiceOption { raw_value: "2", label: "Fullscreen only" },
            FiniteChoiceOption { raw_value: "3", label: "Fullscreen game content" },
        ];
        assert(t@ =~= spec_misc_vrr_choices());
        return Some(t);
    }
    if str_eq(row_id, "misc.on_focus_under_fullscreen") {
        let t: &'static [FiniteChoiceOption] = &[
            FiniteChoiceOption { raw_value: "0", label: "ignore" },
            FiniteChoiceOption { raw_value: "1", label: "take_over" },
            FiniteChoiceOption { raw_value: "2", label: "exit_fullscreen" },
        ];
        assert(t@ =~= spec_misc_on_focus_under_fullscreen_choices());
        return Some(t);
    }
    None
}

/// The first row of `rows` whose id is `id`.
pub open spec fn find_safe_row(rows: Seq<SafeWritableRow>, id: Seq<char>) -> Option<SafeWritableRow>
    decreases rows.len(),
{
    if rows.len() == 0 {
        None
    } else if rows[0].row_id@ == id {
        Some(rows[0])
    } else {
        find_safe_row(rows.drop_first(), id)
    }
}

pub proof fn lemma_find_safe_row_concat(a: Seq<SafeWritableRow>, b: Seq<SafeWritableRow>, id: Seq<char>)
    ensures
        find_safe_row(a + b, id) == if find_safe_row(a, id) is Some {
            find_safe_row(a, id)
        } else {
            find_safe_row(b, id)
        },
    decreases a.len(),
{
    if a.len() > 0 {
        assert((a + b).drop_first() =~= a.drop_first() + b);
        assert((a + b)[0] == a[0]);
        lemma_find_safe_row_concat(a.drop_first(), b, id);
    } else {
        assert(a + b =~= b);
    }
}

/// The allowlist row of `id`, if any.
pub open spec fn safe_row(id: Seq<char>) -> Option<SafeWritableRow> {
    find_safe_row(spec_safe_writable_rows(), id)
}

fn find_in_chunk(chunk: &'static [SafeWritableRow], row_id: &str) -> (r: Option<&'static SafeWritableRow>)
    ensures
        match r {
            Some(row) => find_safe_row(chunk@, row_id@) == Some(*row),
            None => find_safe_row(chunk@, row_id@) is None,
        },
{
    let mut i: usize = 0;
    assert(chunk@.skip(0) =~= chunk@);
    while i < chunk.len()
        invariant
            i <= chunk@.len(),
            find_safe_row(chunk@, row_id@) == find_safe_row(chunk@.skip(i as int), row_id@),
        decreases chunk@.len() - i,
    {
        assert(chunk@.skip(i as int)[0] == chunk@[i as int]);
        assert(chunk@.skip(i as int).drop_first() =~= chunk@.skip(i + 1));
        if str_eq(chunk[i].row_id, row_id) {
            return Some(&chunk[i]);
        }
        i = i + 1;
    }
    None
}

/// The allowlist row of `row_id`, if it is on the safe write allowlist.
pub fn safe_writable_row(row_id: &str) -> (r: Option<&'static SafeWritableRow>)
    ensures
        match r {
            Some(row) => safe_row(row_id@) == Some(*row),
            None => safe_row(row_id@) is None,
        },
{
    proof {
        let id = row_id@;
        lemma_find_safe_row_concat(safe_rows_part_0(), safe_rows_part_1(), id);
        lemma_find_safe_row_concat(safe_rows_part_0() + safe_rows_part_1(), safe_rows_part_2(), id);
        lemma_find_safe_row_concat(safe_rows_part_0() + safe_rows_part_1() + safe_rows_part_2(), safe_rows_part_3(), id);
        lemma_find_safe_row_concat(safe_rows_part_0() + safe_rows_part_1() + safe_rows_part_2() + safe_rows_part_3(), safe_rows_part_4(), id);
        lemma_find_safe_row_concat(safe_rows_part_0() + safe_rows_part_1() + safe_rows_part_2() + safe_rows_part_3() + safe_rows_part_4(), safe_rows_part_5(), id);
        lemma_find_safe_row_concat(safe_rows_part_0() + safe_rows_part_1() + safe_rows_part_2() + safe_rows_part_3() + safe_rows_part_4() + safe_rows_part_5(), safe_rows_part_6(), id);
    }
    let r = find_in_chunk(safe_rows_chunk_0(), row_id);
    if r.is_some() {
        return r;
    }
    let r = find_in_chunk(safe_rows_chunk_1(), row_id);
    if r.is_some() {
        return r;
    }
    let r = find_in_chunk(safe_rows_chunk_2(), row_id);
    if r.is_some() {
        return r;
    }
    let r = find_in_chunk(safe_rows_chunk_3(), row_id);
    if r.is_some() {
        return r;
    }
    let r = find_in_chunk(safe_rows_chunk_4(), row_id);
    if r.is_some() {
        return r;
    }
    let r = find_in_chunk(safe_rows_chunk_5(), row_id);
    if r.is_some() {
        return r;
    }
    let r = find_in_chunk(safe_rows_chunk_6(), row_id);
    if r.is_some() {
        return r;
    }
    None
}

/// Whether `row_id` is on the safe write allowlist.
pub fn is_safe_writable_setting(row_id: &str) -> (r: bool)
    ensures
        r == safe_row(row_id@) is Some,
{
    safe_writable_official_setting(row_id).is_some()
}

/// The official setting of an allowlisted row.
pub fn safe_writable_official_setting(row_id: &str) -> (r: Option<&'static str>)
    ensures
        r == match safe_row(row_id@) {
            Some(row) => Some(row.official_setting),
            None => None,
        },
{
    match safe_writable_row(row_id) {
        Some(row) => Some(row.official_setting),
        None => None,
    }
}

/// The value kind of an allowlisted row.
pub fn safe_writable_value_kind(row_id: &str) -> (r: Option<ScalarWriteValueKind>)
    ensures
        r == match safe_row(row_id@) {
            Some(row) => Some(row.value_kind),
            None => None,
        },
{
    match safe_writable_row(row_id) {
        Some(row) => Some(row.value_kind),
        None => None,
    }
}

pub open spec fn names(list: Seq<&'static str>) -> Seq<Seq<char>> {
    list.map_values(|s: &str| s@)
}

/// Whether `x` is one of `list`.
pub fn list_contains(list: &'static [&'static str], x: &str) -> (r: bool)
    ensures
        r == names(list@).contains(x@),
{
    let mut i: usize = 0;
    while i < list.len()
        invariant
            i <= list@.len(),
            forall|j: int| 0 <= j < i ==> list@[j]@ != x@,
        decreases list@.len() - i,
    {
        if str_eq(list[i], x) {
            assert(names(list@)[i as int] == x@);
            return true;
        }
        i = i + 1;
    }
    assert forall|j: int| 0 <= j < names(list@).len() implies names(list@)[j] != x@ by {
        assert(names(list@)[j] == list@[j]@);
    }
    false
}

pub open spec fn pending_reload_policy() -> SessionRuntimeWritePolicy {
    SessionRuntimeWritePolicy {
        scope: "persistent-needs-reload",
        apply_path: "persistent-config-write-with-backup-reread",
        reread_oracle: "file-reread",
        recovery_strategy: "backup-rollback",
        approval_gate: "explicit-warning-pending-user-reload",
        runtime_effect: "pending-user-reload",
        review_warning: "This setting is written to config only. Hyprland reload is not run, so the runtime effect is pending user reload.",
    }
}

pub open spec fn startup_only_policy() -> SessionRuntimeWritePolicy {
    SessionRuntimeWritePolicy {
        scope: "startup-only",
        apply_path: "persistent-config-write-with-backup-reread",
        reread_oracle: "file-reread",
        recovery_strategy: "backup-rollback",
        approval_gate: "explicit-warning-pending-session-restart",
        runtime_effect: "pending-session-restart",
        review_warning: "This setting is written to config only. Hyprland reload is not run. It is startup/session sensitive, so the effect is pending a future Hyprland session start.",
    }
}

pub open spec fn config_only_policy() -> SessionRuntimeWritePolicy {
    SessionRuntimeWritePolicy {
        scope: "persistent-config-only",
        apply_path: "persistent-config-write-with-backup-reread",
        reread_oracle: "file-reread",
        recovery_strategy: "backup-rollback",
        approval_gate: "normal-safe-write-review-with-session-runtime-note",
        runtime_effect: "file-reread-proof-only-runtime-not-mutated",
        review_warning: "This setting may affect session/runtime behavior, but this app only writes persistent config with backup and file reread verification. Hyprland reload is not run.",
    }
}

/// The write policy of a session/runtime-sensitive row.
pub open spec fn spec_session_runtime_write_policy(id: Seq<char>) -> Option<SessionRuntimeWritePolicy> {
    if id == "misc.disable_autoreload"@ || id == "scrolling.fullscreen_on_one_column"@ {
        Some(pending_reload_policy())
    } else if id == "misc.allow_session_lock_restore"@ {
        Some(startup_only_policy())
    } else if names(spec_session_runtime_sensitive_rows()).contains(id) {
        Some(config_only_policy())
    } else {
        None
    }
}

/// The write policy of a session/runtime-sensitive row.
pub fn session_runtime_write_policy(row_id: &str) -> (r: Option<SessionRuntimeWritePolicy>)
    ensures
        r == spec_session_runtime_write_policy(row_id@),
{
    if str_eq(row_id, "misc.disable_autoreload") || str_eq(row_id, "scrolling.fullscreen_on_one_column") {
        return Some(SessionRuntimeWritePolicy {
            scope: "persistent-needs-reload",
            apply_path: "persistent-config-write-with-backup-reread",
            reread_oracle: "file-reread",
            recovery_strategy: "backup-rollback",
            approval_gate: "explicit-warning-pending-user-reload",
            runtime_effect: "pending-user-reload",
            review_warning: "This setting is written to config only. Hyprland reload is not run, so the runtime effect is pending user reload.",
        });
    }
    if str_eq(row_id, "misc.allow_session_lock_restore") {
        return Some(SessionRuntimeWritePolicy {
            scope: "startup-only",
            apply_path: "persistent-config-write-with-backup-reread",
            reread_oracle: "file-reread",
            recovery_strategy: "backup-rollback",
            approval_gate: "explicit-warning-pending-session-restart",
            runtime_effect: "pending-session-restart",
            review_warning: "This setting is written to config only. Hyprland reload is not run. It is startup/session sensitive, so the effect is pending a future Hyprland session start.",
        });
    }
    if list_contains(session_runtime_sensitive_rows(), row_id) {
        return Some(SessionRuntimeWritePolicy {
            scope: "persistent-config-only",
            apply_path: "persistent-config-write-with-backup-reread",
            reread_oracle: "file-reread",
            recovery_strategy: "backup-rollback",
            approval_gate: "normal-safe-write-review-with-session-runtime-note",
            runtime_effect: "file-reread-proof-only-runtime-not-mutated",
            review_warning: "This setting may affect session/runtime behavior, but this app only writes persistent config with backup and file reread verification. Hyprland reload is not run.",
        });
    }
    None
}

pub open spec fn ecosystem_policy() -> HighRiskWritePolicy {
    HighRiskWritePolicy {
        recovery_bucket: "ecosystem-permission-policy",
        approval_gate: "advanced-opt-in-plus-policy-confirmation-plus-independent-dead-man-confirm-or-revert",
        watchdog_requirement: "production-capable watchdog plan must be armed before mutation; timeout restores the backup unless the user confirms the change",
        review_warning: "High-risk ecosystem/policy setting. Requires advanced opt-in and dead-man confirm-or-revert recovery; display/render, cursor/input, and debug/crash rows remain blocked.",
    }
}

/// The write policy of a high-risk writable row.
pub fn high_risk_write_policy(row_id: &str) -> (r: Option<HighRiskWritePolicy>)
    ensures
        r == if names(spec_ecosystem_high_risk_writable_rows()).contains(row_id@) {
            Some(ecosystem_policy())
        } else {
            None
        },
{
    if !list_contains(ecosystem_high_risk_writable_rows(), row_id) {
        return None;
    }
    Some(HighRiskWritePolicy {
        recovery_bucket: "ecosystem-permission-policy",
        approval_gate: "advanced-opt-in-plus-policy-confirmation-plus-independent-dead-man-confirm-or-revert",
        watchdog_requirement: "production-capable watchdog plan must be armed before mutation; timeout restores the backup unless the user confirms the change",
        review_warning: "High-risk ecosystem/policy setting. Requires advanced opt-in and dead-man confirm-or-revert recovery; display/render, cursor/input, and debug/crash rows remain blocked.",
    })
}

/// The first option of `opts` whose raw value is `t`.
pub open spec fn find_option(opts: Seq<FiniteChoiceOption>, t: Seq<char>) -> Option<FiniteChoiceOption>
    decreases opts.len(),
{
    if opts.len() == 0 {
        None
    } else if opts[0].raw_value@ == t {
        Some(opts[0])
    } else {
        find_option(opts.drop_first(), t)
    }
}

pub proof fn lemma_find_option(opts: Seq<FiniteChoiceOption>, t: Seq<char>)
    ensures
        find_option(opts, t) is Some <==> exists|i: int| 0 <= i < opts.len() && (#[trigger] opts[i]).raw_value@ == t,
        find_option(opts, t) matches Some(o) ==> o.raw_value@ == t,
    decreases opts.len(),
{
    if opts.len() > 0 {
        lemma_find_option(opts.drop_first(), t);
        if exists|i: int| 0 <= i < opts.len() && (#[trigger] opts[i]).raw_value@ == t {
            let i = choose|i: int| 0 <= i < opts.len() && (#[trigger] opts[i]).raw_value@ == t;
            if i > 0 {
                assert(opts.drop_first()[i - 1] == opts[i]);
            }
        }
        if exists|i: int| 0 <= i < opts.drop_first().len() && (#[trigger] opts.drop_first()[i]).raw_value@ == t {
            let i = choose|i: int| 0 <= i < opts.drop_first().len() && (#[trigger] opts.drop_first()[i]).raw_value@ == t;
            assert(opts[i + 1] == opts.drop_first()[i]);
        }
    }
}

fn option_for(opts: &'static [FiniteChoiceOption], t: &str) -> (r: Option<&'static FiniteChoiceOption>)
    ensures
        match r {
            Some(o) => find_option(opts@, t@) == Some(*o),
            None => find_option(opts@, t@) is None,
        },
{
    let mut i: usize = 0;
    assert(opts@.skip(0) =~= opts@);
    while i < opts.len()
        invariant
            i <= opts@.len(),
            find_option(opts@, t@) == find_option(opts@.skip(i as int), t@),
        decreases opts@.len() - i,
    {
        assert(opts@.skip(i as int)[0] == opts@[i as int]);
        assert(opts@.skip(i as int).drop_first() =~= opts@.skip(i + 1));
        if str_eq(opts[i].raw_value, t) {
            return Some(&opts[i]);
        }
        i = i + 1;
    }
    None
}

/// Whether the trimmed `value` is one of the verified choices of `row_id`.
pub fn is_verified_finite_choice_value(row_id: &str, value: &str) -> (r: bool)
    ensures
        r == match spec_finite_choice_options(row_id@) {
            Some(opts) => exists|i: int| 0 <= i < opts.len() && (#[trigger] opts[i]).raw_value@ == trim(value@),
            None => false,
        },
{
    let trimmed = trim_str(value);
    match finite_choice_options(row_id) {
        Some(opts) => {
            proof {
                lemma_find_option(opts@, trimmed@);
            }
            let r = option_for(opts, trimmed).is_some();
            proof {
                let sv = spec_finite_choice_options(row_id@).unwrap();
                assert(sv == opts@);
                if r {
                    let i = choose|i: int| 0 <= i < opts@.len() && (#[trigger] opts@[i]).raw_value@ == trim(value@);
                    assert(sv[i] == opts@[i]);
                }
            }
            r
        },
        None => false,
    }
}

/// The label of the verified choice `raw_value` (trimmed) of `row_id`.
pub fn finite_choice_label(row_id: &str, raw_value: &str) -> (r: Option<&'static str>)
    ensures
        r == match spec_finite_choice_options(row_id@) {
            Some(opts) => match find_option(opts, trim(raw_value@)) {
                Some(o) => Some(o.label),
                None => None,
            },
            None => None,
        },
{
    let trimmed = trim_str(raw_value);
    match finite_choice_options(row_id) {
        Some(opts) => match option_for(opts, trimmed) {
            Some(o) => Some(o.label),
            None => None,
        },
        None => None,
    }
}

/// Law: a value is a verified finite choice exactly when it has a choice label.
pub proof fn law_verified_choice_has_label(row_id: Seq<char>, value: Seq<char>)
    ensures
        (match spec_finite_choice_options(row_id) {
            Some(opts) => exists|i: int| 0 <= i < opts.len() && (#[trigger] opts[i]).raw_value@ == trim(value),
            None => false,
        }) <==> (match spec_finite_choice_options(row_id) {
            Some(opts) => find_option(opts, trim(value)) is Some,
            None => false,
        }),
{
    if let Some(opts) = spec_finite_choice_options(row_id) {
        lemma_find_option(opts, trim(value));
    }
}

pub open spec fn dot_to_colon(c: char) -> char {
    if c == '.' {
        ':'
    } else {
        c
    }
}

/// The config key of an official setting: `.` separators become `:`.
pub open spec fn config_key(setting: Seq<char>) -> Seq<char> {
    setting.map_values(|c: char| dot_to_colon(c))
}

/// The config key of an official setting: `.` separators become `:`.
pub fn config_key_from_official_setting(setting: &str) -> (r: String)
    ensures
        r@ == config_key(setting@),
{
    let v = chars_of(setting);
    let mut r = String::new();
    let mut i: usize = 0;
    while i < v.len()
        invariant
            i <= v.len(),
            v@ == setting@,
            r@ == config_key(setting@).subrange(0, i as int),
        decreases v.len() - i,
    {
        let c = if v[i] == '.' {
            ':'
        } else {
            v[i]
        };
        push_char(&mut r, c);
        assert(config_key(setting@).subrange(0, i + 1) =~= config_key(setting@).subrange(0, i as int).push(c));
        i = i + 1;
    }
    assert(config_key(setting@).subrange(0, i as int) =~= config_key(setting@));
    r
}

/// The value kind a control of `control_kind` edits.
pub open spec fn kind_for(control_kind: Seq<char>, value_family: Seq<char>) -> ScalarWriteValueKind {
    if value_family == "none"@ {
        if control_kind == "toggle"@ {
            ScalarWriteValueKind::Boolean
        } else if control_kind == "slider"@ || control_kind == "number-input"@ {
            ScalarWriteValueKind::Number
        } else if control_kind == "percent-slider"@ {
            ScalarWriteValueKind::Percent
        } else if control_kind == "dropdown"@ {
            ScalarWriteValueKind::FiniteChoice
        } else {
            ScalarWriteValueKind::Unknown
        }
    } else {
        ScalarWriteValueKind::ComplexRaw
    }
}

/// The value kind a control of `control_kind` edits.
pub fn value_kind_for_control(control_kind: &str, value_family: &str) -> (r: ScalarWriteValueKind)
    ensures
        r == kind_for(control_kind@, value_family@),
{
    if !str_eq(value_family, "none") {
        return ScalarWriteValueKind::ComplexRaw;
    }
    if str_eq(control_kind, "toggle") {
        ScalarWriteValueKind::Boolean
    } else if str_eq(control_kind, "slider") || str_eq(control_kind, "number-input") {
        ScalarWriteValueKind::Number
    } else if str_eq(control_kind, "percent-slider") {
        ScalarWriteValueKind::Percent
    } else if str_eq(control_kind, "dropdown") {
        ScalarWriteValueKind::FiniteChoice
    } else {
        ScalarWriteValueKind::Unknown
    }
}

/// The status and blocker `classify_inventory_entry` gives an entry.
pub open spec fn classify_spec(e: InventoryEntry) -> (ScalarWriteStatus, Option<Seq<char>>) {
    if safe_row(e.row_id@) is Some {
        (ScalarWriteStatus::SafeWritable, None)
    } else if e.structured_family == Some(true) {
        (
            ScalarWriteStatus::BlockedStructured,
            Some("structured-family metadata is not writable through scalar path"@),
        )
    } else if e.report_only {
        (ScalarWriteStatus::BlockedHighRisk, Some("report-only/high-risk row: "@ + e.risk_class@))
    } else if e.parser_status@ != "scalar-current-value-parser"@ {
        (
            ScalarWriteStatus::BlockedParserNeeded,
            Some("semantic parser needed before safe write: "@ + e.parser_status@),
        )
    } else if e.risk_class@ != "safe"@ {
        (
            ScalarWriteStatus::BlockedManualReview,
            Some("manual review required for risk class: "@ + e.risk_class@),
        )
    } else if kind_for(e.control_kind@, e.value_family@) != ScalarWriteValueKind::Boolean {
        (
            ScalarWriteStatus::BlockedValidatorNeeded,
            Some("safe numeric/string validation metadata is not available yet"@),
        )
    } else {
        (
            ScalarWriteStatus::BlockedManualReview,
            Some("not selected for the initial safe toggle write allowlist"@),
        )
    }
}

pub open spec fn blocker_view(b: Option<String>) -> Option<Seq<char>> {
    match b {
        Some(s) => Some(s@),
        None => None,
    }
}

/// Classifies an inventory row for the scalar write path.
pub fn classify_inventory_entry(entry: &InventoryEntry) -> (r: ScalarWriteClassification)
    ensures
        r.row_id@ == entry.row_id@,
        r.official_setting@ == entry.official_setting@,
        r.config_key@ == config_key(entry.official_setting@),
        r.value_kind == kind_for(entry.control_kind@, entry.value_family@),
        (r.status, blocker_view(r.blocker)) == classify_spec(*entry),
{
    let value_kind = value_kind_for_control(entry.control_kind.as_str(), entry.value_family.as_str());
    let (status, blocker) = if safe_writable_official_setting(entry.row_id.as_str()).is_some() {
        (ScalarWriteStatus::SafeWritable, None)
    } else if entry.structured_family == Some(true) {
        (
            ScalarWriteStatus::BlockedStructured,
            Some("structured-family metadata is not writable through scalar path".to_owned()),
        )
    } else if entry.report_only {
        (
            ScalarWriteStatus::BlockedHighRisk,
            Some(concat2("report-only/high-risk row: ", entry.risk_class.as_str())),
        )
    } else if !str_eq(entry.parser_status.as_str(), "scalar-current-value-parser") {
        (
            ScalarWriteStatus::BlockedParserNeeded,
            Some(concat2("semantic parser needed before safe write: ", entry.parser_status.as_str())),
        )
    } else if !str_eq(entry.risk_class.as_str(), "safe") {
        (
            ScalarWriteStatus::BlockedManualReview,
            Some(concat2("manual review required for risk class: ", entry.risk_class.as_str())),
        )
    } else if value_kind != ScalarWriteValueKind::Boolean {
        (
            ScalarWriteStatus::BlockedValidatorNeeded,
            Some("safe numeric/string validation metadata is not available yet".to_owned()),
        )
    } else {
        (
            ScalarWriteStatus::BlockedManualReview,
            Some("not selected for the initial safe toggle write allowlist".to_owned()),
        )
    };
    ScalarWriteClassification {
        row_id: entry.row_id.clone(),
        official_setting: entry.official_setting.clone(),
        config_key: config_key_from_official_setting(entry.official_setting.as_str()),
        status,
        blocker,
        value_kind,
    }
}

/// Law: a row is classified safe-writable exactly when it is on the
/// allowlist, and exactly then it carries no blocker.
pub proof fn law_safe_iff_allowlisted(e: InventoryEntry)
    ensures
        (classify_spec(e).0 == ScalarWriteStatus::SafeWritable) <==> safe_row(e.row_id@) is Some,
        (classify_spec(e).1 is None) <==> safe_row(e.row_id@) is Some,
{
}

/// Law: a row off the allowlist is held at the first gate it fails, in
/// this order: a structured family, a report-only row, a parser that is not
/// the scalar current-value parser, a risk class other than `safe`; the
/// blocker names that gate and the value that failed it.
pub proof fn law_first_failed_gate_blocks(e: InventoryEntry)
    requires
        safe_row(e.row_id@) is None,
    ensures
        e.structured_family == Some(true) ==> classify_spec(e) == (
            ScalarWriteStatus::BlockedStructured,
            Some("structured-family metadata is not writable through scalar path"@),
        ),
        e.structured_family != Some(true) && e.report_only ==> classify_spec(e) == (
            ScalarWriteStatus::BlockedHighRisk,
            Some("report-only/high-risk row: "@ + e.risk_class@),
        ),
        e.structured_family != Some(true) && !e.report_only && e.parser_status@
            != "scalar-current-value-parser"@ ==> classify_spec(e) == (
            ScalarWriteStatus::BlockedParserNeeded,
            Some("semantic parser needed before safe write: "@ + e.parser_status@),
        ),
        e.structured_family != Some(true) && !e.report_only && e.parser_status@
            == "scalar-current-value-parser"@ && e.risk_class@ != "safe"@ ==> classify_spec(e) == (
            ScalarWriteStatus::BlockedManualReview,
            Some("manual review required for risk class: "@ + e.risk_class@),
        ),
        e.structured_family != Some(true) && !e.report_only && e.parser_status@
            == "scalar-current-value-parser"@ && e.risk_class@ == "safe"@ ==> classify_spec(e).0
            == (if kind_for(e.control_kind@, e.value_family@) == ScalarWriteValueKind::Boolean {
            ScalarWriteStatus::BlockedManualReview
        } else {
            ScalarWriteStatus::BlockedValidatorNeeded
        }),
{
}

/// Law: once a row off the allowlist is held for its parser, its risk
/// class, control and value family make no difference to its status or
/// blocker.
pub proof fn law_parser_gate_ignores_risk(e1: InventoryEntry, e2: InventoryEntry)
    requires
        safe_row(e1.row_id@) is None,
        e1.row_id@ == e2.row_id@,
        e1.structured_family == e2.structured_family,
        e1.report_only == e2.report_only,
        e1.parser_status@ == e2.parser_status@,
        e1.structured_family != Some(true),
        !e1.report_only,
        e1.parser_status@ != "scalar-current-value-parser"@,
    ensures
        classify_spec(e1) == classify_spec(e2),
        classify_spec(e1).0 == ScalarWriteStatus::BlockedParserNeeded,
{
}

/// Law: the config key keeps the setting's length and contains no `.`.
pub proof fn law_config_key_has_no_dots(setting: Seq<char>)
    ensures
        config_key(setting).len() == setting.len(),
        !config_key(setting).contains('.'),
{
    if config_key(setting).contains('.') {
        let i = choose|i: int| 0 <= i < config_key(setting).len() && config_key(setting)[i] == '.';
        assert(config_key(setting)[i] == dot_to_colon(setting[i]));
    }
}

} // verus!
