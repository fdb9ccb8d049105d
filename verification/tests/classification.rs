use hyprland_settings::export::InventoryEntry;
use hyprland_settings::write_classification::{
    classify_inventory_entry, config_key_from_official_setting, conflict_finite_choice_rows,
    ecosystem_high_risk_writable_rows, finite_choice_label, finite_choice_options,
    high_risk_write_policy, is_safe_writable_setting, is_verified_finite_choice_value,
    monitor_output_rows, remaining_finite_choice_rows, safe_writable_official_setting,
    safe_writable_row, safe_writable_toggle_rows, safe_writable_value_kind,
    session_runtime_sensitive_rows, session_runtime_write_policy, source_backed_input_rows,
    value_kind_for_control, ScalarWriteStatus, ScalarWriteValueKind,
};

fn entry(row_id: &str, official: &str) -> InventoryEntry {
    InventoryEntry {
        row_id: row_id.to_string(),
        official_setting: official.to_string(),
        tab_id: "appearance".to_string(),
        tab_label: "Appearance".to_string(),
        subsection: "General".to_string(),
        row_order: 1,
        label: "Label".to_string(),
        description: "Description.".to_string(),
        default_config_presence: "not-exported".to_string(),
        read_support: "current-value-read-allowlisted".to_string(),
        write_support: "none".to_string(),
        risk_class: "safe".to_string(),
        preview_status: "none".to_string(),
        report_only: false,
        control_kind: "toggle".to_string(),
        value_family: "none".to_string(),
        parser_status: "scalar-current-value-parser".to_string(),
        structured_family: None,
    }
}

#[test]
fn safe_rows_are_looked_up_by_row_id() {
    let row = safe_writable_row("appearance.dim.modal").unwrap();
    assert_eq!(row.official_setting, "decoration.dim_modal");
    assert_eq!(row.value_kind, ScalarWriteValueKind::Boolean);
    assert_eq!(safe_writable_official_setting("layout.selection"), Some("general.layout"));
    assert_eq!(safe_writable_value_kind("decoration.screen_shader"), Some(ScalarWriteValueKind::Path));
    assert_eq!(safe_writable_value_kind("input.kb_layout"), Some(ScalarWriteValueKind::SourceBacked));
    assert!(is_safe_writable_setting("misc.vrr"));
    assert!(!is_safe_writable_setting("decoration.dim_modal"));
    assert!(!is_safe_writable_setting(""));
    assert!(safe_writable_row("no.such.row").is_none());
}

#[test]
fn row_lists() {
    assert_eq!(conflict_finite_choice_rows().len(), 12);
    assert_eq!(conflict_finite_choice_rows()[0], "general.resize_corner");
    assert_eq!(remaining_finite_choice_rows().len(), 9);
    assert_eq!(source_backed_input_rows()[1], "input.kb_layout");
    assert_eq!(monitor_output_rows(), &["input.touchdevice.output", "input.tablet.output"][..]);
    assert_eq!(session_runtime_sensitive_rows().len(), 16);
    assert_eq!(
        ecosystem_high_risk_writable_rows(),
        &["ecosystem.no_update_news", "ecosystem.no_donation_nag", "ecosystem.enforce_permissions"][..]
    );
    assert_eq!(safe_writable_toggle_rows()[0], ("appearance.dim.modal", "decoration.dim_modal"));
}

#[test]
fn every_listed_row_is_safe_writable() {
    for row in conflict_finite_choice_rows()
        .iter()
        .chain(remaining_finite_choice_rows())
        .chain(source_backed_input_rows())
        .chain(monitor_output_rows())
        .chain(session_runtime_sensitive_rows())
        .chain(ecosystem_high_risk_writable_rows())
    {
        assert!(is_safe_writable_setting(row), "{row}");
    }
    for (row, official) in safe_writable_toggle_rows() {
        assert_eq!(safe_writable_official_setting(row), Some(*official));
        assert_eq!(safe_writable_value_kind(row), Some(ScalarWriteValueKind::Boolean));
    }
}

#[test]
fn finite_choices() {
    let layouts = finite_choice_options("layout.selection").unwrap();
    let raw: Vec<&str> = layouts.iter().map(|o| o.raw_value).collect();
    assert_eq!(raw, vec!["dwindle", "master", "scrolling", "monocle"]);
    assert_eq!(finite_choice_options("dwindle.split_bias").unwrap().len(), 2);
    assert!(finite_choice_options("general.gaps_in").is_none());
    assert!(is_verified_finite_choice_value("layout.selection", " master "));
    assert!(!is_verified_finite_choice_value("layout.selection", "Master"));
    assert!(!is_verified_finite_choice_value("general.gaps_in", "1"));
    assert_eq!(finite_choice_label("general.resize_corner", "3"), Some("bottom_right"));
    assert_eq!(finite_choice_label("input.touchpad.tap_button_map", "lmr"), Some("Left / Middle / Right"));
    assert_eq!(finite_choice_label("input.follow_mouse", " 0"), Some("Disabled"));
    assert_eq!(finite_choice_label("general.resize_corner", "9"), None);
    assert_eq!(finite_choice_label("nope", "0"), None);
}

#[test]
fn verified_choices_have_labels() {
    for row in conflict_finite_choice_rows().iter().chain(remaining_finite_choice_rows()) {
        let options = finite_choice_options(row).unwrap();
        for option in options {
            assert!(is_verified_finite_choice_value(row, option.raw_value));
            assert_eq!(finite_choice_label(row, option.raw_value), Some(option.label));
        }
    }
}

#[test]
fn session_policies() {
    let reload = session_runtime_write_policy("misc.disable_autoreload").unwrap();
    assert_eq!(reload.scope, "persistent-needs-reload");
    assert_eq!(reload.runtime_effect, "pending-user-reload");
    assert_eq!(
        session_runtime_write_policy("scrolling.fullscreen_on_one_column").unwrap().scope,
        "persistent-needs-reload"
    );
    let restore = session_runtime_write_policy("misc.allow_session_lock_restore").unwrap();
    assert_eq!(restore.scope, "startup-only");
    assert_eq!(restore.approval_gate, "explicit-warning-pending-session-restart");
    let vrr = session_runtime_write_policy("misc.vrr").unwrap();
    assert_eq!(vrr.scope, "persistent-config-only");
    assert_eq!(vrr.reread_oracle, "file-reread");
    assert_eq!(vrr.recovery_strategy, "backup-rollback");
    assert_eq!(vrr.apply_path, "persistent-config-write-with-backup-reread");
    assert!(session_runtime_write_policy("general.gaps_in").is_none());
}

#[test]
fn high_risk_policies() {
    let p = high_risk_write_policy("ecosystem.enforce_permissions").unwrap();
    assert_eq!(p.recovery_bucket, "ecosystem-permission-policy");
    assert!(p.approval_gate.contains("dead-man"));
    assert!(high_risk_write_policy("misc.vrr").is_none());
}

#[test]
fn config_keys_use_colons() {
    assert_eq!(config_key_from_official_setting("decoration.blur.size"), "decoration:blur:size");
    assert_eq!(config_key_from_official_setting("plain"), "plain");
    assert_eq!(config_key_from_official_setting(".a."), ":a:");
    assert_eq!(config_key_from_official_setting(""), "");
}

#[test]
fn value_kinds_for_controls() {
    assert_eq!(value_kind_for_control("toggle", "none"), ScalarWriteValueKind::Boolean);
    assert_eq!(value_kind_for_control("slider", "none"), ScalarWriteValueKind::Number);
    assert_eq!(value_kind_for_control("number-input", "none"), ScalarWriteValueKind::Number);
    assert_eq!(value_kind_for_control("percent-slider", "none"), ScalarWriteValueKind::Percent);
    assert_eq!(value_kind_for_control("dropdown", "none"), ScalarWriteValueKind::FiniteChoice);
    assert_eq!(value_kind_for_control("text", "none"), ScalarWriteValueKind::Unknown);
    assert_eq!(value_kind_for_control("toggle", "color"), ScalarWriteValueKind::ComplexRaw);
}

#[test]
fn classification_of_safe_and_blocked_rows() {
    let safe = classify_inventory_entry(&entry("appearance.dim.modal", "decoration.dim_modal"));
    assert_eq!(safe.status, ScalarWriteStatus::SafeWritable);
    assert_eq!(safe.blocker, None);
    assert_eq!(safe.config_key, "decoration:dim_modal");
    assert_eq!(safe.value_kind, ScalarWriteValueKind::Boolean);
    assert_eq!(safe.row_id, "appearance.dim.modal");
    assert_eq!(safe.official_setting, "decoration.dim_modal");

    let mut structured = entry("x.structured", "x.structured");
    structured.structured_family = Some(true);
    let c = classify_inventory_entry(&structured);
    assert_eq!(c.status, ScalarWriteStatus::BlockedStructured);
    assert_eq!(
        c.blocker.as_deref(),
        Some("structured-family metadata is not writable through scalar path")
    );

    let mut report = entry("x.report", "x.report");
    report.report_only = true;
    report.risk_class = "high".to_string();
    let c = classify_inventory_entry(&report);
    assert_eq!(c.status, ScalarWriteStatus::BlockedHighRisk);
    assert_eq!(c.blocker.as_deref(), Some("report-only/high-risk row: high"));

    let mut parser = entry("x.parser", "x.parser");
    parser.parser_status = "needs-parser".to_string();
    let c = classify_inventory_entry(&parser);
    assert_eq!(c.status, ScalarWriteStatus::BlockedParserNeeded);
    assert_eq!(c.blocker.as_deref(), Some("semantic parser needed before safe write: needs-parser"));

    let mut review = entry("x.review", "x.review");
    review.risk_class = "medium".to_string();
    let c = classify_inventory_entry(&review);
    assert_eq!(c.status, ScalarWriteStatus::BlockedManualReview);
    assert_eq!(c.blocker.as_deref(), Some("manual review required for risk class: medium"));

    let mut number = entry("x.number", "x.number");
    number.control_kind = "slider".to_string();
    let c = classify_inventory_entry(&number);
    assert_eq!(c.status, ScalarWriteStatus::BlockedValidatorNeeded);
    assert_eq!(c.value_kind, ScalarWriteValueKind::Number);
    assert_eq!(
        c.blocker.as_deref(),
        Some("safe numeric/string validation metadata is not available yet")
    );

    let toggle = classify_inventory_entry(&entry("x.toggle", "x.toggle"));
    assert_eq!(toggle.status, ScalarWriteStatus::BlockedManualReview);
    assert_eq!(
        toggle.blocker.as_deref(),
        Some("not selected for the initial safe toggle write allowlist")
    );
    assert_eq!(toggle.config_key, "x:toggle");

    let mut not_structured = entry("x.toggle", "x.toggle");
    not_structured.structured_family = Some(false);
    assert_eq!(
        classify_inventory_entry(&not_structured).status,
        ScalarWriteStatus::BlockedManualReview
    );
}

#[test]
fn allowlist_tables_agree() {
    for (row, official) in safe_writable_toggle_rows() {
        let r = safe_writable_row(row).unwrap();
        assert_eq!(r.row_id, *row);
        assert_eq!(r.official_setting, *official);
        assert_eq!(r.value_kind, ScalarWriteValueKind::Boolean);
    }
    assert_eq!(safe_writable_row("windows.snap.enabled").unwrap().official_setting, "general.snap.enabled");
    assert!(safe_writable_row("general.snap.enabled").is_none());
    for row in ecosystem_high_risk_writable_rows() {
        assert!(is_safe_writable_setting(row));
        assert_eq!(high_risk_write_policy(row).unwrap().recovery_bucket, "ecosystem-permission-policy");
    }
    assert!(high_risk_write_policy("debug.manual_crash").is_none());
    let mut named: Vec<&str> = conflict_finite_choice_rows().to_vec();
    named.extend_from_slice(remaining_finite_choice_rows());
    named.push("misc.vrr");
    named.push("misc.on_focus_under_fullscreen");
    for row in &named {
        let options = finite_choice_options(row).unwrap();
        assert!(options.len() >= 2);
        for (i, a) in options.iter().enumerate() {
            for b in &options[i + 1..] {
                assert_ne!(a.raw_value, b.raw_value);
            }
        }
        assert_eq!(safe_writable_value_kind(row), Some(ScalarWriteValueKind::FiniteChoice));
    }
    assert!(finite_choice_options("general.gaps_in").is_none());
    assert_ne!(safe_writable_value_kind("appearance.blur.size"), Some(ScalarWriteValueKind::FiniteChoice));
    let raws: Vec<&str> = finite_choice_options("layout.selection").unwrap().iter().map(|o| o.raw_value).collect();
    assert_eq!(raws, vec!["dwindle", "master", "scrolling", "monocle"]);
}
