use hyprland_settings::ui::pending_save::{
    diff_view_lines, pending_change_groups, pending_next_save_changes, save_progress_label, save_start,
    save_step, NextSaveChange, PendingChangeSnapshot, PendingGroup, SaveAction,
};
use hyprland_settings::ui::detail_text::DetailItem;
use hyprland_settings::ui::structured_text::{
    locked_entry_groups, structured_entry_rows, structured_family_card_items, EntryGroup,
    StructuredEntryRow, MAX_LISTED_ENTRIES,
};
use hyprland_settings::ui::window_text::{layout_settings, layout_tabs, sidebar_items, SidebarItem};
use hyprland_settings::ui::window_text::dashboard_needs_attention;
use std::cell::Cell;
use std::time::Duration;

use hyprland_settings::current_config::{CurrentValueProjection, CurrentValueSourceStatus};
use hyprland_settings::current_config::CurrentValueSourceStatus::{Configured, DuplicateConflict, NotConfigured, ReadUnavailable};
use hyprland_settings::export::{
    CoverageCounts, ExportBundle, ExportManifest, FamilyCounts, InventoryArtifact, InventoryCounts,
    InventoryEntry, ManifestCounts, NonReadArtifact, NonReadCounts, PreviewCandidatesArtifact,
    PreviewCounts, ReadAllowlistArtifact, RowCounts, SourceProvenanceArtifact,
    StructuredFamiliesArtifact, TabEntry, ValueFamiliesArtifact, WriteCandidateEntry,
    WriteSafetyArtifact, WriteSafetyCounts,
};
use hyprland_settings::ui::model::{
    initial_screen_shader_advisory_ui_action, run_screen_shader_advisory_selected_file_ui_action,
    run_screen_shader_advisory_ui_action, running_screen_shader_advisory_ui_action, AdvisoryStatus,
    ScreenShaderAdvisoryRequest, ScreenShaderAdvisoryResult,
    ScreenShaderAdvisorySelectedFileUiActionRequest, ScreenShaderAdvisoryUiActionRequest,
    ScreenShaderAdvisoryUiResultState, UiProjection, UiRowInputs, UiTab,
};
use hyprland_settings::ui::advisory::{
    screen_shader_advisory_check_render, screen_shader_advisory_gtk_widget_projection,
};
use hyprland_settings::validation::ValidationSummary;
use hyprland_settings::write_flow::SettingEditProjection;

fn s(x: &str) -> String {
    x.to_string()
}

fn tab(id: &str, order: usize) -> TabEntry {
    TabEntry { tab_id: s(id), tab_label: s(&id.to_uppercase()), tab_order: order, row_count: 0 }
}

fn setting(id: &str, tab: &str, order: usize, read_support: &str) -> InventoryEntry {
    InventoryEntry {
        row_id: s(id),
        official_setting: format!("{id}.official"),
        tab_id: s(tab),
        tab_label: s(&tab.to_uppercase()),
        subsection: s("General"),
        row_order: order,
        label: format!("{id} label"),
        description: s("Description."),
        default_config_presence: if id == "b" { s("default is 3") } else { s("not-exported") },
        read_support: s(read_support),
        write_support: s("none"),
        risk_class: s("safe"),
        preview_status: s("none"),
        report_only: id == "c",
        control_kind: s("toggle"),
        value_family: s("none"),
        parser_status: s("scalar-current-value-parser"),
        structured_family: None,
    }
}

fn bundle() -> ExportBundle {
    let header = |kind: &str| (s("0.53.0"), 1u32, s(kind));
    let (v, sc, _) = header("");
    ExportBundle {
        export_dir: s("/export"),
        manifest: ExportManifest {
            hyprland_version: v.clone(),
            schema_version: sc,
            artifact_kind: s("export-manifest"),
            counts: ManifestCounts {
                inventory_rows: 5,
                official_scalar_coverage: CoverageCounts { covered: 5, total: 5 },
                read_allowlist_rows: 0,
                non_read_classification_rows: 0,
                preview_parser_needed_rows: 0,
                report_only_high_risk_rows: 0,
                safe_parsed_preview_candidates: 0,
                warning_preview_candidates: 0,
                deferred_parser_rows: 0,
                active_write_candidates: 1,
                active_write_candidate_ids: vec![s("b")],
            },
        },
        inventory: InventoryArtifact {
            hyprland_version: v.clone(),
            schema_version: sc,
            artifact_kind: s("inventory"),
            counts: InventoryCounts {
                rows: 5,
                official_scalar_coverage: CoverageCounts { covered: 5, total: 5 },
            },
            tabs: vec![tab("system", 2), tab("input", 1), tab("appearance", 0)],
            settings: vec![
                setting("d", "system", 1, "blocked"),
                setting("b", "input", 2, "current-value-read-allowlisted"),
                setting("decoration.screen_shader", "appearance", 5, "current-value-read-allowlisted"),
                setting("c", "input", 1, "current-value-read-allowlisted"),
                setting("a", "input", 2, "current-value-read-allowlisted"),
            ],
        },
        read_allowlist: ReadAllowlistArtifact {
            hyprland_version: v.clone(),
            schema_version: sc,
            artifact_kind: s("read-allowlist"),
            counts: RowCounts { rows: 0 },
            items: vec![],
        },
        non_read: NonReadArtifact {
            hyprland_version: v.clone(),
            schema_version: sc,
            artifact_kind: s("non-read-classifications"),
            counts: NonReadCounts { rows: 0, preview_parser_needed_rows: 0, report_only_high_risk_rows: 0 },
            items: vec![],
        },
        value_families: ValueFamiliesArtifact {
            hyprland_version: v.clone(),
            schema_version: sc,
            artifact_kind: s("value-families"),
            counts: FamilyCounts { families: 0 },
            items: vec![],
        },
        preview_candidates: PreviewCandidatesArtifact {
            hyprland_version: v.clone(),
            schema_version: sc,
            artifact_kind: s("preview-candidates"),
            counts: PreviewCounts {
                rows: 0,
                safe_parsed_preview_candidates: 0,
                warning_preview_candidates: 0,
                deferred_parser_rows: 0,
            },
            items: vec![],
        },
        write_safety: WriteSafetyArtifact {
            hyprland_version: v.clone(),
            schema_version: sc,
            artifact_kind: s("write-safety"),
            counts: WriteSafetyCounts { active_candidates: 1 },
            active_candidates: vec![WriteCandidateEntry {
                row_id: s("b"),
                official_setting: s("b.official"),
                target_mode: s("review-only"),
                executable: false,
                command_generation_allowed: false,
            }],
        },
        structured_families: StructuredFamiliesArtifact {
            hyprland_version: v.clone(),
            schema_version: sc,
            artifact_kind: s("structured-families-design-index"),
            counts: FamilyCounts { families: 0 },
            families: vec![],
        },
        source_provenance: SourceProvenanceArtifact {
            hyprland_version: v,
            schema_version: sc,
            artifact_kind: s("source-provenance-index"),
        },
    }
}

fn value(status: CurrentValueSourceStatus, raw: Option<&str>, warning: Option<&str>) -> CurrentValueProjection {
    CurrentValueProjection { status, raw_value: raw.map(s), source_path: None, line_number: None, warning: warning.map(s) }
}

fn edit(editable: bool, disabled: Option<&str>, blocked: Option<&str>) -> SettingEditProjection {
    SettingEditProjection {
        editable,
        disabled_reason: disabled.map(s),
        review_block_reason: blocked.map(s),
        proposed_value: None,
        pending: None,
    }
}

fn summary() -> ValidationSummary {
    ValidationSummary {
        inventory_rows: 5,
        official_scalar_covered: 5,
        official_scalar_total: 5,
        read_allowlist_rows: 1,
        non_read_rows: 2,
        preview_parser_needed_rows: 3,
        report_only_high_risk_rows: 4,
        safe_parsed_preview_candidates: 5,
        warning_preview_candidates: 6,
        deferred_parser_rows: 7,
        active_write_candidate_ids: vec![s("b")],
        structured_family_count: 8,
    }
}

fn projection() -> UiProjection {
    let rows = vec![
        // d
        UiRowInputs {
            row_value: value(ReadUnavailable, None, None),
            official_value: value(Configured, Some("9"), None),
            edit: edit(false, None, None),
        },
        // b
        UiRowInputs {
            row_value: value(NotConfigured, None, None),
            official_value: value(Configured, Some("on"), Some("odd spacing")),
            edit: edit(true, None, Some("duplicate entries")),
        },
        // decoration.screen_shader
        UiRowInputs {
            row_value: value(NotConfigured, None, None),
            official_value: value(NotConfigured, None, None),
            edit: edit(true, None, None),
        },
        // c
        UiRowInputs {
            row_value: value(DuplicateConflict, Some("1"), None),
            official_value: value(Configured, Some("2"), None),
            edit: edit(false, Some("report-only row"), None),
        },
        // a
        UiRowInputs {
            row_value: value(Configured, Some("x"), None),
            official_value: value(NotConfigured, None, None),
            edit: edit(true, None, None),
        },
    ];
    UiProjection::from_bundle(&bundle(), &summary(), &rows, vec![])
}

#[test]
fn projection_orders_tabs_and_settings() {
    let p = projection();
    assert_eq!(p.export_dir, "/export");
    assert_eq!(p.hyprland_version, "0.53.0");
    assert_eq!(p.schema_version, 1);
    let tabs: Vec<&str> = p.tabs.iter().map(|t| t.id.as_str()).collect();
    assert_eq!(tabs, vec!["appearance", "input", "system"]);
    assert_eq!(p.tabs[1].label, "INPUT");
    let rows: Vec<&str> = p.settings.iter().map(|s| s.row_id.as_str()).collect();
    // Input rows by row order (b before a: equal order keeps inventory order), then system.
    assert_eq!(rows, vec!["decoration.screen_shader", "c", "b", "a", "d"]);
    assert_eq!(p.known_setting_ids, vec![s("a"), s("b"), s("c"), s("d"), s("decoration.screen_shader")]);
    assert_eq!(p.summary.structured_family_count, 8);
    assert_eq!(p.summary.active_write_candidate_ids, vec![s("b")]);
    assert_eq!(p.active_write_candidates.len(), 1);
    assert_eq!(p.active_write_candidates[0].target_mode, "review-only");
    assert!(p.structured_families.is_empty());
}

#[test]
fn settings_carry_current_values_and_comparisons() {
    let p = projection();
    let by_id = |id: &str| p.settings.iter().find(|s| s.row_id == id).unwrap();
    let b = by_id("b");
    assert!(b.is_write_candidate);
    assert_eq!(b.current_value.status, CurrentValueSourceStatus::Configured);
    assert_eq!(b.current_value.raw_value.as_deref(), Some("on"));
    assert_eq!(b.comparison.badge, "User configured");
    assert_eq!(b.comparison.detail, "user override present; default is 3");
    let d = by_id("d");
    assert!(!d.is_write_candidate);
    assert_eq!(d.current_value.status, CurrentValueSourceStatus::ReadUnavailable);
    assert_eq!(d.comparison.badge, "Read unavailable");
    assert_eq!(d.comparison.detail, "user config was not parsed; official default value is not exported");
    let c = by_id("c");
    assert_eq!(c.comparison.badge, "Conflict");
    assert_eq!(c.comparison.detail, "duplicate user config entries; official default value is not exported");
    let shader = by_id("decoration.screen_shader");
    assert_eq!(shader.comparison.badge, "Default");
    assert_eq!(shader.comparison.detail, "no user override found; official default value is not exported");
}

#[test]
fn current_value_summary_counts_rows() {
    let v = projection().current_value_summary;
    assert_eq!(v.total_rows, 5);
    assert_eq!(v.unreadable_rows, 1);
    assert_eq!(v.readable_rows, 4);
    assert_eq!(v.configured_rows, 2);
    assert_eq!(v.unconfigured_rows, 1);
    assert_eq!(v.duplicate_conflict_rows, 1);
    assert_eq!(v.parser_warning_rows, 1);
    assert_eq!(
        v.configured_rows + v.unconfigured_rows + v.duplicate_conflict_rows + v.unreadable_rows,
        v.total_rows
    );
}

#[test]
fn settings_for_a_tab() {
    let p = projection();
    let input: Vec<String> = p.settings_for_tab("input").into_iter().map(|s| s.row_id).collect();
    assert_eq!(input, vec![s("c"), s("b"), s("a")]);
    assert!(p.settings_for_tab("nope").is_empty());
    assert_eq!(p.tab_order_for("system"), 2);
    assert_eq!(p.tab_order_for("appearance"), 0);
    assert_eq!(p.tab_order_for("nope"), usize::MAX);
}

#[test]
fn row_details() {
    let p = projection();
    assert!(p.detail_for_row("zzz").is_none());
    let b = p.detail_for_row("b").unwrap();
    assert_eq!(b.label, "b label");
    assert_eq!(b.non_read_status, None);
    assert_eq!(b.report_only_status, "not report-only");
    assert_eq!(b.write_candidate_status, "active write candidate gated by backup and review");
    assert_eq!(b.write_candidate_target_mode.as_deref(), Some("review-only"));
    assert_eq!(b.write_candidate_executable, Some(false));
    assert_eq!(b.write_candidate_command_generation_allowed, Some(false));
    assert_eq!(
        b.safety_notes,
        vec![
            s("Current values are parsed from hyprland.conf as read-only text when available."),
            s("This row can use guarded safe-batch writing when review, backup, write, and reread verification checks pass."),
            s("Apply currently blocked: duplicate entries."),
            s("No Hyprland reload command is run."),
        ]
    );
    assert!(b.screen_shader_advisory.is_none());
    assert!(b.screen_shader_advisory_widget.is_none());

    let d = p.detail_for_row("d").unwrap();
    assert_eq!(d.non_read_status.as_deref(), Some("Current-value reads blocked"));
    assert_eq!(d.write_candidate_status, "not an active write candidate");
    assert_eq!(d.write_candidate_target_mode, None);
    assert_eq!(
        d.safety_notes,
        vec![
            s("Current values are parsed from hyprland.conf as read-only text when available."),
            s("not write-allowlisted"),
            s("No Hyprland reload command is run."),
        ]
    );
    let c = p.detail_for_row("c").unwrap();
    assert_eq!(c.report_only_status, "report-only");
    assert_eq!(c.safety_notes[1], "report-only row");

    let shader = p.detail_for_row("decoration.screen_shader").unwrap();
    assert_eq!(shader.safety_notes.len(), 3);
    let advisory = shader.screen_shader_advisory.unwrap();
    assert!(advisory.advanced_mode_required && advisory.explicit_user_trigger_required);
    assert!(!advisory.can_approve_write && !advisory.can_block_write && !advisory.can_bypass_production_gate);
    assert!(!advisory.runs_on_row_load && !advisory.runs_during_apply_flow);
    let widget = shader.screen_shader_advisory_widget.unwrap();
    assert_eq!(widget.row_id, "decoration.screen_shader");
    assert_eq!(widget.button_label, "Run optional advisory check");
    assert_eq!(
        widget.result_states_rendered,
        vec![
            s("not_run"),
            s("running"),
            s("passed"),
            s("failed"),
            s("unavailable"),
            s("timed_out"),
            s("temp_copy_failed"),
            s("cleanup_warning"),
        ]
    );
}

fn helper_request(consent: bool) -> ScreenShaderAdvisoryRequest {
    ScreenShaderAdvisoryRequest {
        selected_shader_path: s("/home/u/shader.frag"),
        temp_root: s("/tmp/advisory"),
        tex300_vertex_path: s("/usr/share/hyprland/tex300.vert"),
        tex320_vertex_path: s("/usr/share/hyprland/tex320.vert"),
        glslang_validator_path: s("/usr/bin/glslangValidator"),
        timeout: Duration::from_secs(5),
        explicit_user_consent: consent,
        simulate_cleanup_failure: false,
    }
}

fn result(status: AdvisoryStatus, args: &[&str], fragment: Option<&str>) -> ScreenShaderAdvisoryResult {
    ScreenShaderAdvisoryResult {
        status,
        compiler_args: args.iter().map(|a| s(a)).collect(),
        temp_fragment_path: fragment.map(s),
        temp_vertex_path: None,
        original_user_path_passed_to_compiler: false,
        production_write_decision_changed: false,
        runtime_safety_claimed: false,
        diagnostic: Some(s("diag")),
        cleanup_warning: None,
    }
}

#[test]
fn advisory_states_before_and_during_a_check() {
    assert!(initial_screen_shader_advisory_ui_action("misc.vrr").is_none());
    let initial = initial_screen_shader_advisory_ui_action("decoration.screen_shader").unwrap();
    assert_eq!(initial.state, ScreenShaderAdvisoryUiResultState::NotRun);
    assert_eq!(initial.state_label(), "not_run");
    assert_eq!(initial.title, "Advisory check not run");
    assert!(!initial.helper_invoked && !initial.consent_required && !initial.selected_shader_read);
    let running = running_screen_shader_advisory_ui_action("decoration.screen_shader").unwrap();
    assert_eq!(running.state_label(), "running");
    assert_eq!(running.title, "Advisory check running");
    assert!(running_screen_shader_advisory_ui_action("x").is_none());
    assert!(screen_shader_advisory_gtk_widget_projection("x").is_none());
    assert_eq!(ScreenShaderAdvisoryUiResultState::TempCopyFailed.as_str(), "temp_copy_failed");
}

#[test]
fn the_check_runs_only_after_trigger_and_consent() {
    let calls = Cell::new(0);
    let check = |_: ScreenShaderAdvisoryRequest| {
        calls.set(calls.get() + 1);
        result(AdvisoryStatus::Passed, &["-S", "frag"], Some("/tmp/advisory/a.frag"))
    };
    let other_row = run_screen_shader_advisory_ui_action(
        ScreenShaderAdvisoryUiActionRequest { row_id: s("misc.vrr"), explicit_user_trigger: true, helper_request: Some(helper_request(true)) },
        check,
    );
    assert_eq!(other_row.title, "No screen shader advisory action");
    assert_eq!(other_row.placement, "not-available-for-this-row");
    let no_file = run_screen_shader_advisory_ui_action(
        ScreenShaderAdvisoryUiActionRequest { row_id: s("decoration.screen_shader"), explicit_user_trigger: true, helper_request: None },
        check,
    );
    assert_eq!(no_file.title, "Explicit action required");
    assert_eq!(no_file.diagnostic.as_deref(), Some("no selected shader request was supplied"));
    assert!(no_file.consent_required);
    let no_consent = run_screen_shader_advisory_ui_action(
        ScreenShaderAdvisoryUiActionRequest { row_id: s("decoration.screen_shader"), explicit_user_trigger: true, helper_request: Some(helper_request(false)) },
        check,
    );
    assert_eq!(no_consent.diagnostic.as_deref(), Some("missing explicit user trigger or consent"));
    assert_eq!(calls.get(), 0);
    let passed = run_screen_shader_advisory_ui_action(
        ScreenShaderAdvisoryUiActionRequest { row_id: s("decoration.screen_shader"), explicit_user_trigger: true, helper_request: Some(helper_request(true)) },
        check,
    );
    assert_eq!(calls.get(), 1);
    assert_eq!(passed.state, ScreenShaderAdvisoryUiResultState::Passed);
    assert_eq!(passed.title, "Standalone advisory check passed");
    assert!(passed.helper_invoked && passed.compiler_invoked && passed.selected_shader_read);
    assert_eq!(passed.compiler_args, vec![s("-S"), s("frag")]);
    assert!(!passed.can_approve_write && !passed.can_block_write && !passed.can_bypass_production_gate && !passed.write_blocking);
}

#[test]
fn check_results_are_rendered_without_touching_writes() {
    let row = "decoration.screen_shader";
    let unavailable = screen_shader_advisory_check_render(row, result(AdvisoryStatus::Unavailable, &["x"], None)).unwrap();
    assert_eq!(unavailable.state, ScreenShaderAdvisoryUiResultState::Unavailable);
    assert!(!unavailable.compiler_invoked);
    assert!(unavailable.selected_shader_read);
    let temp = screen_shader_advisory_check_render(row, result(AdvisoryStatus::TempCopyFailed, &[], None)).unwrap();
    assert_eq!(temp.title, "Advisory temp copy failed");
    assert!(!temp.selected_shader_read);
    let consent = screen_shader_advisory_check_render(row, result(AdvisoryStatus::MissingConsent, &["x"], Some("/t"))).unwrap();
    assert_eq!(consent.state, ScreenShaderAdvisoryUiResultState::NotRun);
    assert!(consent.selected_shader_read && !consent.compiler_invoked);
    let failed = screen_shader_advisory_check_render(row, result(AdvisoryStatus::Failed, &["x"], None)).unwrap();
    assert_eq!(failed.message, "This warns about the standalone check result and does not automatically block the write.");
    assert!(!failed.can_block_write && !failed.write_blocking);
    let timeout = screen_shader_advisory_check_render(row, result(AdvisoryStatus::TimedOut, &[], None)).unwrap();
    assert_eq!(timeout.title, "Advisory check inconclusive");
    assert!(!timeout.compiler_invoked);
    let cleanup = screen_shader_advisory_check_render(row, result(AdvisoryStatus::CleanupWarning, &["x"], None)).unwrap();
    assert_eq!(cleanup.state_label(), "cleanup_warning");
    assert_eq!(cleanup.diagnostic.as_deref(), Some("diag"));
    assert!(screen_shader_advisory_check_render("other", result(AdvisoryStatus::Passed, &[], None)).is_none());
}

#[test]
fn selected_file_requests_use_the_trigger_as_consent() {
    let seen = Cell::new(false);
    let check = |q: ScreenShaderAdvisoryRequest| {
        seen.set(q.explicit_user_consent && q.selected_shader_path == "/home/u/warm.frag");
        result(AdvisoryStatus::Failed, &["a"], Some("/tmp/f"))
    };
    let request = |path: Option<&str>, trigger: bool| ScreenShaderAdvisorySelectedFileUiActionRequest {
        row_id: s("decoration.screen_shader"),
        explicit_user_trigger: trigger,
        selected_shader_path: path.map(s),
        temp_root: s("/tmp/advisory"),
        tex300_vertex_path: s("/v300"),
        tex320_vertex_path: s("/v320"),
        glslang_validator_path: s("/glslang"),
        timeout: Duration::from_millis(1500),
        simulate_cleanup_failure: false,
    };
    let none = run_screen_shader_advisory_selected_file_ui_action(request(None, true), check);
    assert_eq!(none.diagnostic.as_deref(), Some("no selected shader request was supplied"));
    let untriggered = run_screen_shader_advisory_selected_file_ui_action(request(Some("/home/u/warm.frag"), false), check);
    assert_eq!(untriggered.diagnostic.as_deref(), Some("missing explicit user trigger or consent"));
    assert!(!seen.get());
    let ran = run_screen_shader_advisory_selected_file_ui_action(request(Some("/home/u/warm.frag"), true), check);
    assert!(seen.get());
    assert_eq!(ran.state, ScreenShaderAdvisoryUiResultState::Failed);
}

#[test]
fn preserved_lines_become_structured_entries() {
    let line = hyprland_settings::config_parser::ParsedConfigLine {
        path: s("/home/u/.config/hypr/hyprland.conf"),
        line_number: 12,
        raw_line: s("bind = SUPER, Q, exec, kitty"),
        warning: Some(s("unknown dispatcher")),
    };
    let entry = hyprland_settings::ui::model::structured_entry_from_record(&line);
    assert_eq!(entry.source_path, "/home/u/.config/hypr/hyprland.conf");
    assert_eq!(entry.line_number, 12);
    assert_eq!(entry.raw_line, "bind = SUPER, Q, exec, kitty");
    assert_eq!(entry.parser_status, "preserved raw structured entry");
    assert_eq!(entry.warning.as_deref(), Some("unknown dispatcher"));
}

#[test]
fn ui_tab_copies_the_export_tab() {
    let entry = TabEntry { tab_id: s("input"), tab_label: s("Input"), tab_order: 3, row_count: 12 };
    let t = UiTab::from(&entry);
    assert_eq!(t.id, "input");
    assert_eq!(t.label, "Input");
    assert_eq!(t.order, 3);
    assert_eq!(t.row_count, 12);
}

fn family(warnings: usize) -> hyprland_settings::ui::model::UiStructuredFamily {
    hyprland_settings::ui::model::UiStructuredFamily {
        family_id: s("bind"),
        label: s("Keybinds"),
        entries: vec![],
        warning_count: warnings,
        edit_status: s(""),
        syntax_description: s(""),
        field_schema: vec![],
        projection_status: s(""),
        fixture_parse_proof_status: s(""),
        fixture_render_proof_status: s(""),
        family_specific_validation_status: s(""),
        temp_write_plan_status: s(""),
        temp_fixture_render_reread_status: s(""),
        path_guard_status: s(""),
        real_config_target_status: s(""),
        runtime_mutation_status: s(""),
        reload_status: s(""),
        write_status: s(""),
        widget_name: s(""),
        review_button_label: s(""),
        unproven_record_count: 0,
    }
}

#[test]
fn dashboard_attention_follows_conflicts_and_warnings() {
    let mut model = projection();
    assert_eq!(model.current_value_summary.duplicate_conflict_rows, 1);
    assert!(dashboard_needs_attention(&model, true));
    assert!(!dashboard_needs_attention(&model, false));
    model.current_value_summary.duplicate_conflict_rows = 0;
    model.current_value_summary.parser_warning_rows = 0;
    assert!(!dashboard_needs_attention(&model, true));
    model.structured_families = vec![family(0), family(2)];
    assert!(dashboard_needs_attention(&model, true));
    model.structured_families = vec![family(0)];
    assert!(!dashboard_needs_attention(&model, true));
    model.current_value_summary.parser_warning_rows = 3;
    assert!(dashboard_needs_attention(&model, true));
}

fn entry(path: &str, line: usize, raw: &str) -> hyprland_settings::ui::model::UiStructuredEntry {
    hyprland_settings::ui::model::UiStructuredEntry {
        source_path: s(path),
        line_number: line,
        raw_line: s(raw),
        parser_status: s("preserved raw structured entry"),
        warning: None,
    }
}

#[test]
fn structured_entries_are_listed_per_family_up_to_the_cap() {
    let mut model = projection();
    let mut binds = family(0);
    binds.entries = vec![entry("/c/hyprland.conf", 3, "  bind = SUPER, Q, exec, kitty  ")];
    let mut rules = family(0);
    rules.family_id = s("windowrule");
    rules.entries = vec![entry("/c/hyprland.conf", 9, "windowrule = float, class:pavucontrol")];
    let mut more_binds = family(0);
    more_binds.entries = (0..45).map(|i| entry("/c/binds.conf", i + 1, "bind = SUPER, 1, workspace, 1")).collect();
    model.structured_families = vec![binds, rules, more_binds];
    let rows = structured_entry_rows(&model, "bind");
    assert_eq!(rows.len(), MAX_LISTED_ENTRIES);
    assert_eq!(rows[0], StructuredEntryRow { text: s("bind = SUPER, Q, exec, kitty"), origin: s("/c/hyprland.conf · line 3") });
    assert_eq!(rows[1].origin, "/c/binds.conf · line 1");
    assert_eq!(rows[39].origin, "/c/binds.conf · line 39");
    let rules_rows = structured_entry_rows(&model, "windowrule");
    assert_eq!(rules_rows, vec![StructuredEntryRow { text: s("windowrule = float, class:pavucontrol"), origin: s("/c/hyprland.conf · line 9") }]);
    assert!(structured_entry_rows(&model, "monitor").is_empty());
}

#[test]
fn structured_family_card() {
    let mut f = family(1);
    f.label = s("Keybinds");
    f.syntax_description = s("bind = MODS, key, dispatcher, params");
    f.write_status = s("review-only");
    f.field_schema = vec![s("mods"), s("key"), s("dispatcher")];
    f.entries = vec![entry("/c/hyprland.conf", 3, "bind = SUPER, Q, exec, kitty")];
    f.unproven_record_count = 2;
    f.reload_status = s("no reload");
    let items = structured_family_card_items(&f);
    assert_eq!(items.len(), 21);
    assert_eq!(items[0], DetailItem::Body(s("Keybinds")));
    assert_eq!(items[1], DetailItem::Line { label: s("Syntax"), value: s("bind = MODS, key, dispatcher, params") });
    assert_eq!(items[7], DetailItem::Small(s("Temp-fixture write plan validated")));
    assert_eq!(items[11], DetailItem::Line { label: s("Write status"), value: s("review-only; Production writes blocked by default") });
    assert_eq!(items[12], DetailItem::Line { label: s("Records in current config"), value: s("1") });
    assert_eq!(items[13], DetailItem::Line { label: s("Not proven yet"), value: s("2") });
    assert_eq!(items[14], DetailItem::Small(s("Field schema: mods, key, dispatcher")));
    assert_eq!(items[18], DetailItem::Small(s("no reload")));
}

fn layout_row(base: &hyprland_settings::ui::model::UiSetting, tab: &str, id: &str, order: usize) -> hyprland_settings::ui::model::UiSetting {
    let mut r = base.clone();
    r.tab_id = s(tab);
    r.row_id = s(id);
    r.row_order = order;
    r
}

#[test]
fn layout_switches_show_their_settings_in_row_order() {

    let mut model = projection();
    let base = model.settings[0].clone();
    model.settings = vec![
        layout_row(&base, "windows-layout", "dwindle.pseudotile", 5),
        layout_row(&base, "windows-layout", "master.new_status", 1),
        layout_row(&base, "general", "dwindle.elsewhere", 0),
        layout_row(&base, "windows-layout", "dwindle.force_split", 2),
        layout_row(&base, "windows-layout", "dwindle.split_width_multiplier", 2),
    ];
    let ids: Vec<String> = layout_settings(&model, "dwindle.").into_iter().map(|r| r.row_id).collect();
    assert_eq!(ids, vec![s("dwindle.force_split"), s("dwindle.split_width_multiplier"), s("dwindle.pseudotile")]);
    let ids: Vec<String> = layout_settings(&model, "master.").into_iter().map(|r| r.row_id).collect();
    assert_eq!(ids, vec![s("master.new_status")]);
    assert!(layout_settings(&model, "scrolling.").is_empty());
    assert_eq!(layout_tabs(), &[("Dwindle", "dwindle."), ("Master", "master."), ("Scrolling", "scrolling.")]);
}

#[test]
fn locked_list_groups_entries_by_file() {
    let mut model = projection();
    let mut binds = family(0);
    binds.entries = vec![
        entry("/c/hyprland.conf", 3, " bind = SUPER, Q, exec, kitty"),
        entry("/c/binds.conf", 1, "bind = SUPER, 1, workspace, 1"),
        entry("/c/hyprland.conf", 8, "bind = SUPER, M, exit"),
    ];
    let mut rules = family(0);
    rules.family_id = s("windowrule");
    rules.entries = vec![entry("/c/rules.conf", 2, "windowrule = float, class:x")];
    let mut more = family(0);
    more.entries = vec![entry("/c/binds.conf", 4, "bind = SUPER, 2, workspace, 2")];
    model.structured_families = vec![binds, rules, more];
    let row = |t: &str, o: &str| StructuredEntryRow { text: s(t), origin: s(o) };
    assert_eq!(
        locked_entry_groups(&model, "bind"),
        vec![
            EntryGroup { path: s("/c/hyprland.conf"), rows: vec![row("bind = SUPER, Q, exec, kitty", "line 3"), row("bind = SUPER, M, exit", "line 8")] },
            EntryGroup { path: s("/c/binds.conf"), rows: vec![row("bind = SUPER, 1, workspace, 1", "line 1"), row("bind = SUPER, 2, workspace, 2", "line 4")] },
        ]
    );
    assert!(locked_entry_groups(&model, "monitor").is_empty());
}

fn sidebar_row(base: &hyprland_settings::ui::model::UiSetting, tab: &str, official: &str) -> hyprland_settings::ui::model::UiSetting {
    let mut r = base.clone();
    r.tab_id = s(tab);
    r.official_setting = s(official);
    r
}

#[test]
fn sidebar_hides_pages_without_rows() {
    let mut model = projection();
    let base = model.settings[0].clone();
    model.settings = vec![
        sidebar_row(&base, "appearance", "general.gaps_in"),
        sidebar_row(&base, "system", "xwayland.enabled"),
        sidebar_row(&base, "appearance", "decoration.rounding"),
        sidebar_row(&base, "input", "gestures.workspace_swipe"),
    ];
    let items = sidebar_items(&model);
    let ids: Vec<&str> = items.iter().map(|i| i.id.as_str()).collect();
    assert_eq!(
        ids,
        vec![
            "dashboard", "general", "decoration", "gestures", "workspaces", "layouts", "window-rules",
            "layer-rules", "autostart", "env-variables", "xwayland", "profiles", "config", "safety-details",
        ]
    );
    assert_eq!(items[0], SidebarItem { id: s("dashboard"), label: s("Dashboard"), target_tab_id: None });
    assert_eq!(items[2], SidebarItem { id: s("decoration"), label: s("Decoration"), target_tab_id: Some(s("appearance")) });
    assert_eq!(items[4].target_tab_id, None);
    model.settings = vec![sidebar_row(&base, "system", "misc.vrr")];
    let ids: Vec<String> = sidebar_items(&model).into_iter().map(|i| i.id).collect();
    assert!(ids.contains(&s("system")));
    assert!(!ids.contains(&s("general")));
    assert!(!ids.contains(&s("xwayland")));
}

#[test]
fn next_save_replaces_lines_read_from_the_target() {
    let mut model = projection();
    let base = model.settings[0].clone();
    let mut a = base.clone();
    a.row_id = s("general.gaps_in");
    a.current_value.source_path = Some(s("/c/hyprland.conf"));
    a.current_value.line_number = Some(12);
    let mut b = base.clone();
    b.row_id = s("general.gaps_out");
    b.current_value.source_path = Some(s("/c/other.conf"));
    b.current_value.line_number = Some(3);
    let mut c = base.clone();
    c.row_id = s("general.gaps_in");
    c.current_value.source_path = Some(s("/c/hyprland.conf"));
    c.current_value.line_number = Some(99);
    model.settings = vec![a, b, c];
    let snapshots = vec![
        PendingChangeSnapshot { row_id: s("general.gaps_in"), page_id: Some(s("general")), current_value: s("8") },
        PendingChangeSnapshot { row_id: s("general.gaps_out"), page_id: None, current_value: s("20") },
        PendingChangeSnapshot { row_id: s("general.border_size"), page_id: None, current_value: s("2") },
    ];
    assert_eq!(
        pending_next_save_changes(&model, &snapshots, "/c/./hyprland.conf"),
        vec![
            NextSaveChange { setting_id: s("general.gaps_in"), proposed_value: s("8"), line_in_target: Some(12) },
            NextSaveChange { setting_id: s("general.gaps_out"), proposed_value: s("20"), line_in_target: None },
            NextSaveChange { setting_id: s("general.border_size"), proposed_value: s("2"), line_in_target: None },
        ]
    );
    assert!(pending_next_save_changes(&model, &vec![], "/c/hyprland.conf").is_empty());
}

fn snap(row: &str, page: Option<&str>) -> PendingChangeSnapshot {
    PendingChangeSnapshot { row_id: s(row), page_id: page.map(s), current_value: s("1") }
}

#[test]
fn pending_changes_are_grouped_by_page() {
    let snaps = vec![
        snap("decoration.rounding", Some("decoration")),
        snap("general.gaps_in", None),
        snap("decoration.blur.size", Some("decoration")),
        snap("x.y", Some("no-such-page")),
        snap("general.border_size", Some("general")),
    ];
    assert_eq!(
        pending_change_groups(&snaps),
        vec![
            PendingGroup { page_id: s("decoration"), heading: s("Decoration"), members: vec![0, 2] },
            PendingGroup { page_id: s("general"), heading: s("General"), members: vec![1, 4] },
            PendingGroup { page_id: s("no-such-page"), heading: s("Options"), members: vec![3] },
        ]
    );
    assert!(pending_change_groups(&vec![]).is_empty());
}

#[test]
fn diff_lines_are_cut_at_the_limit() {
    let short: Vec<String> = (0..3).map(|i| format!("+line {i}")).collect();
    assert_eq!(diff_view_lines(&short), short);
    let exact: Vec<String> = (0..400).map(|i| format!(" {i}")).collect();
    assert_eq!(diff_view_lines(&exact), exact);
    let long: Vec<String> = (0..401).map(|i| format!(" {i}")).collect();
    let shown = diff_view_lines(&long);
    assert_eq!(shown.len(), 401);
    assert_eq!(shown[399], " 399");
    assert_eq!(shown[400], "… diff truncated");
}

#[test]
fn save_status_after_saving() {
    assert_eq!(save_progress_label(3, &vec![Ok(()), Ok(()), Ok(())]), "Changes saved to disk");
    assert_eq!(
        save_progress_label(3, &vec![Ok(()), Err(s("config is read-only"))]),
        "Saved 1 of 3 — config is read-only"
    );
    assert_eq!(save_progress_label(2, &vec![Err(s("no target"))]), "Saved 0 of 2 — no target");
}

#[test]
fn save_loop_saves_in_order_and_stops_at_the_first_error() {
    let (p, a) = save_start(3);
    assert_eq!(a, SaveAction::Save(0));
    let (p, a) = save_step(&p, Ok(()));
    assert_eq!(a, SaveAction::Save(1));
    assert_eq!(p.saved, 1);
    let (p, a) = save_step(&p, Err(s("disk full")));
    assert_eq!(a, SaveAction::Finish);
    assert_eq!(p.saved, 1);
    assert_eq!(p.first_error.as_deref(), Some("disk full"));
    assert_eq!(p.status_label(), "Saved 1 of 3 — disk full");
    assert_eq!(p.status_label(), save_progress_label(3, &vec![Ok(()), Err(s("disk full"))]));
}

#[test]
fn save_loop_finishes_after_every_change() {
    let (p, a) = save_start(0);
    assert_eq!(a, SaveAction::Finish);
    assert_eq!(p.status_label(), "Changes saved to disk");
    let (p, a) = save_start(2);
    assert_eq!(a, SaveAction::Save(0));
    let (p, a) = save_step(&p, Ok(()));
    assert_eq!(a, SaveAction::Save(1));
    let (p, a) = save_step(&p, Ok(()));
    assert_eq!(a, SaveAction::Finish);
    assert_eq!((p.total, p.saved), (2, 2));
    assert_eq!(p.status_label(), "Changes saved to disk");
}

#[test]
fn selected_file_action_matches_the_plain_action_on_its_request() {
    let check = |q: ScreenShaderAdvisoryRequest| {
        let status = if q.explicit_user_consent { AdvisoryStatus::Passed } else { AdvisoryStatus::Failed };
        result(status, &["-S", "frag"], Some("/tmp/f"))
    };
    for row in ["decoration.screen_shader", "general.gaps_in"] {
        for path in [None, Some("/home/u/warm.frag")] {
            for trigger in [false, true] {
                let selected = ScreenShaderAdvisorySelectedFileUiActionRequest {
                    row_id: s(row),
                    explicit_user_trigger: trigger,
                    selected_shader_path: path.map(s),
                    temp_root: s("/tmp/advisory"),
                    tex300_vertex_path: s("/v300"),
                    tex320_vertex_path: s("/v320"),
                    glslang_validator_path: s("/glslang"),
                    timeout: Duration::from_millis(1500),
                    simulate_cleanup_failure: false,
                };
                let plain = ScreenShaderAdvisoryUiActionRequest {
                    row_id: s(row),
                    explicit_user_trigger: trigger,
                    helper_request: path.map(|p| ScreenShaderAdvisoryRequest {
                        selected_shader_path: s(p),
                        temp_root: s("/tmp/advisory"),
                        tex300_vertex_path: s("/v300"),
                        tex320_vertex_path: s("/v320"),
                        glslang_validator_path: s("/glslang"),
                        timeout: Duration::from_millis(1500),
                        explicit_user_consent: trigger,
                        simulate_cleanup_failure: false,
                    }),
                };
                let a = run_screen_shader_advisory_selected_file_ui_action(selected, check);
                let b = run_screen_shader_advisory_ui_action(plain, check);
                assert_eq!(format!("{a:?}"), format!("{b:?}"));
            }
        }
    }
}
