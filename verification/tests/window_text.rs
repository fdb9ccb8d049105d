use hyprland_settings::ui::color_picker::{
    hex_entry_color, picker_color_after_hex_entry, picker_initial_color, remember_custom_color,
};
use hyprland_settings::ui::window_text::switch_seed_active;
use hyprland_settings::ux_presentation::parse_hyprland_color;
use hyprland_settings::current_config::{CurrentValueProjection, CurrentValueSourceStatus};
use hyprland_settings::ui::model::{ComparisonProjection, RowDetailProjection, UiSetting};
use hyprland_settings::ui::window_text::{
    apply_state_message, collapse_uniform_gap, dashboard_cards, detail_pane_accessibility_text,
    friendly_current_value, friendly_row_attention_status, friendly_row_current_status, hex8_token,
    page_structured_family, raw_from_state, rgba_token, risk_class_label, runtime_seed_initial_value,
    safe_widget_name,
    setting_row_accessibility_text, state_from_raw, ColorRowState,
};
use hyprland_settings::ui::detail_text::{
    current_value_summary_items, safety_summary_items, setting_section_items,
    user_facing_write_reason_items, DetailItem,
};
use hyprland_settings::ui::advisory::screen_shader_advisory_projection;
use hyprland_settings::ux_presentation::ParsedColor;
use hyprland_settings::write_flow::{blocked_reason, PendingEditProjection, SettingEditProjection};

fn s(x: &str) -> String {
    x.to_string()
}

fn current(status: CurrentValueSourceStatus, raw: Option<&str>, warning: Option<&str>) -> CurrentValueProjection {
    CurrentValueProjection { status, raw_value: raw.map(s), source_path: None, line_number: None, warning: warning.map(s) }
}

fn no_edit() -> SettingEditProjection {
    SettingEditProjection { editable: false, disabled_reason: None, review_block_reason: None, proposed_value: None, pending: None }
}

fn setting(row_id: &str, risk: &str, value: CurrentValueProjection) -> UiSetting {
    UiSetting {
        row_id: s(row_id),
        official_setting: s("general.gaps_in"),
        tab_id: s("appearance"),
        tab_label: s("Appearance"),
        subsection: s("General"),
        row_order: 1,
        label: s("Gaps"),
        description: s("Gaps."),
        default_config_presence: s("not-exported"),
        read_support: s("current-value-read-allowlisted"),
        write_support: s("none"),
        risk_class: s(risk),
        preview_status: s("none"),
        report_only: false,
        is_write_candidate: false,
        current_value: value,
        comparison: ComparisonProjection { badge: s("Default"), detail: s("x") },
        edit: no_edit(),
    }
}

fn detail(row_id: &str, risk: &str, value: CurrentValueProjection, edit: SettingEditProjection) -> RowDetailProjection {
    RowDetailProjection {
        label: s("Gaps"),
        row_id: s(row_id),
        official_setting: s("general.gaps_in"),
        tab_label: s("Appearance"),
        subsection: s("General"),
        description: s("Gaps."),
        default_config_presence: s("not-exported"),
        read_support: s("current-value-read-allowlisted"),
        non_read_status: None,
        preview_status: s("none"),
        risk_class: s(risk),
        report_only_status: s("not report-only"),
        write_support: s("none"),
        write_candidate_status: s("not an active write candidate"),
        write_candidate_target_mode: None,
        write_candidate_executable: None,
        write_candidate_command_generation_allowed: None,
        current_value: value,
        comparison: ComparisonProjection { badge: s("Default"), detail: s("x") },
        edit,
        safety_notes: vec![],
        screen_shader_advisory: None,
        screen_shader_advisory_widget: None,
    }
}

fn pending(can_review: bool, blocked: Option<&str>, label: &str) -> SettingEditProjection {
    SettingEditProjection {
        editable: true,
        disabled_reason: None,
        review_block_reason: None,
        proposed_value: Some(s("8")),
        pending: Some(PendingEditProjection {
            can_review,
            review_blocked_reason: blocked.map(s),
            validation_label: s(label),
        }),
    }
}

#[test]
fn friendly_values() {
    assert_eq!(friendly_current_value(" TRUE "), "On");
    assert_eq!(friendly_current_value(" Yes"), "On");
    assert_eq!(friendly_current_value("1"), "On");
    assert_eq!(friendly_current_value("off"), "Off");
    assert_eq!(friendly_current_value("0"), "Off");
    assert_eq!(friendly_current_value("   "), "Empty");
    assert_eq!(friendly_current_value("maybe "), "maybe ");
    assert_eq!(friendly_current_value("5"), "5");
}

#[test]
fn risk_labels() {
    assert_eq!(risk_class_label("safe"), "Standard config setting");
    assert_eq!(risk_class_label("display_render_risk"), "Display/render high-risk setting");
    assert_eq!(risk_class_label("cursor_input_risk"), "Cursor/input high-risk setting");
    assert_eq!(risk_class_label("debug_crash_risk"), "Debug/crash high-risk setting");
    assert_eq!(risk_class_label("some_new_risk"), "some new risk");
}

#[test]
fn widget_names() {
    assert_eq!(safe_widget_name("Decoration Blur!"), "decoration-blur");
    assert_eq!(safe_widget_name("--a__b--"), "a-b");
    assert_eq!(safe_widget_name(""), "");
    assert_eq!(safe_widget_name("ÄB"), "b");
    assert_eq!(safe_widget_name("hl.bind"), "hl-bind");
}

#[test]
fn uniform_gaps() {
    assert_eq!(collapse_uniform_gap("5 5 5 5"), "5");
    assert_eq!(collapse_uniform_gap(" 2  2 "), "2");
    assert_eq!(collapse_uniform_gap("5 6"), "5 6");
    assert_eq!(collapse_uniform_gap("5"), "5");
    assert_eq!(collapse_uniform_gap("5 5 5 5 5"), "5 5 5 5 5");
    assert_eq!(collapse_uniform_gap("a a"), "a a");
    assert_eq!(collapse_uniform_gap("5 5.0"), "5 5.0");
}

#[test]
fn pages_tokens_and_cards() {
    assert_eq!(page_structured_family("keybinds"), Some("hl.bind"));
    assert_eq!(page_structured_family("ecosystem"), Some("hl.permission"));
    assert_eq!(page_structured_family("general"), None);
    let color = ParsedColor { red: 0x0a, green: 0xff, blue: 0, alpha: 0x80 };
    assert_eq!(hex8_token(color), "0aff0080");
    assert_eq!(rgba_token(color), "rgba(0aff0080)");
    let cards = dashboard_cards();
    assert_eq!(cards.len(), 9);
    assert_eq!(cards[0].title, "Settings");
    assert_eq!(cards[0].target_tab_id, "config");
    assert_eq!(cards[8].target_tab_id, "safety-details");
}

#[test]
fn row_status_and_attention() {
    let configured = setting("general.gaps_in", "safe", current(CurrentValueSourceStatus::Configured, Some("true"), None));
    assert_eq!(friendly_row_current_status(&configured), "Current: On");
    let set = setting("general.gaps_in", "safe", current(CurrentValueSourceStatus::Configured, None, None));
    assert_eq!(friendly_row_current_status(&set), "Current: Set");
    let default = setting("general.gaps_in", "safe", current(CurrentValueSourceStatus::NotConfigured, None, None));
    assert_eq!(friendly_row_current_status(&default), "Uses Hyprland default");
    assert_eq!(friendly_row_attention_status(&default), None);
    let conflict = setting("general.gaps_in", "safe", current(CurrentValueSourceStatus::DuplicateConflict, None, Some("w")));
    assert_eq!(friendly_row_current_status(&conflict), "Needs attention");
    assert_eq!(friendly_row_attention_status(&conflict), None);
    let warned = setting("general.gaps_in", "safe", current(CurrentValueSourceStatus::Configured, Some("1"), Some("w")));
    assert_eq!(friendly_row_attention_status(&warned), Some(s("Needs attention")));
    let risky = setting("ecosystem.no_update_news", "safe", current(CurrentValueSourceStatus::ReadUnavailable, None, None));
    assert_eq!(friendly_row_current_status(&risky), "Not available right now");
    assert_eq!(friendly_row_attention_status(&risky), Some(s("Extra care needed")));
}

#[test]
fn row_accessibility_text() {
    let plain = setting("general.gaps_in", "safe", current(CurrentValueSourceStatus::Configured, Some("5"), None));
    assert_eq!(
        setting_row_accessibility_text(&plain),
        "Setting row: Gaps. Official key: general.gaps_in. Current: 5. Safe normal setting"
    );
    let shader = setting("decoration.screen_shader", "safe", current(CurrentValueSourceStatus::NotConfigured, None, Some("odd")));
    assert_eq!(
        setting_row_accessibility_text(&shader),
        "Setting row: Gaps. Official key: general.gaps_in. Uses Hyprland default. Missing/default setting row. This setting is using Hyprland's default value.. Display/render risk setting row. Extra care needed.. Blocked or warning detail: odd"
    );
    let risky = setting("ecosystem.enforce_permissions", "safe", current(CurrentValueSourceStatus::DuplicateConflict, None, None));
    assert_eq!(
        setting_row_accessibility_text(&risky),
        "Setting row: Gaps. Official key: general.gaps_in. Needs attention. Duplicate conflict setting row. This setting appears more than once in your config.. High-risk setting row. Extra care needed."
    );
}

#[test]
fn detail_accessibility_text() {
    let plain = detail("general.gaps_in", "safe", current(CurrentValueSourceStatus::Configured, Some("5"), None), no_edit());
    assert_eq!(detail_pane_accessibility_text(&plain), "Detail pane for Gaps");
    let render = detail("misc.vrr", "display_render_risk", current(CurrentValueSourceStatus::ReadUnavailable, None, Some("w")), no_edit());
    assert_eq!(
        detail_pane_accessibility_text(&render),
        "Detail pane for Gaps. Current value unavailable detail. Display/render risk detail. Extra care needed.. Blocked or warning detail: w"
    );
}

#[test]
fn apply_messages() {
    let v = || current(CurrentValueSourceStatus::Configured, Some("1"), None);
    let mut locked = no_edit();
    locked.disabled_reason = Some(s("report-only row"));
    assert_eq!(
        apply_state_message(&detail("a", "safe", v(), locked)),
        "Apply is blocked because this setting is not currently editable in the app: report-only row."
    );
    assert_eq!(
        apply_state_message(&detail("a", "safe", v(), no_edit())),
        "Apply is blocked because this setting is not currently editable in the app: no edit path is available."
    );
    let mut nothing = no_edit();
    nothing.editable = true;
    assert_eq!(
        apply_state_message(&detail("a", "safe", v(), nothing)),
        "Apply is blocked because no pending value could be prepared."
    );
    assert_eq!(
        apply_state_message(&detail("a", "safe", v(), pending(true, None, "valid"))),
        "Apply is available after backup, config write, and reread verification."
    );
    assert_eq!(
        apply_state_message(&detail("ecosystem.no_donation_nag", "safe", v(), pending(true, None, "valid"))),
        "Apply can proceed only through the high-risk gated review path with recovery and confirmation proof."
    );
    assert_eq!(
        apply_state_message(&detail("a", "safe", v(), pending(false, Some("the value conflicts"), "invalid: x"))),
        "Apply is blocked because the value conflicts."
    );
    assert_eq!(
        apply_state_message(&detail("a", "safe", v(), pending(false, None, "invalid: too big"))),
        "Apply is blocked because the proposed value is invalid: too big."
    );
    assert_eq!(
        apply_state_message(&detail("a", "safe", v(), pending(false, None, "not allowed: locked"))),
        "Apply is blocked because locked."
    );
    assert_eq!(
        apply_state_message(&detail("ecosystem.no_update_news", "safe", v(), pending(false, None, "valid"))),
        "Apply is blocked until the high-risk gate has complete recovery, rollback, confirmation, and approval proof."
    );
    assert_eq!(
        apply_state_message(&detail("a", "safe", v(), pending(false, None, "valid"))),
        "Apply is blocked until the current config is readable, conflict-free, and the proposed value passes validation."
    );
}

#[test]
fn color_control_states() {
    let single = state_from_raw(" rgb(ff0000) ").unwrap();
    assert_eq!(single, ColorRowState { tokens: vec![s("rgb(ff0000)")], angle: None });
    assert_eq!(raw_from_state(&single), "rgb(ff0000)");
    let gradient = state_from_raw(" rgb(ff0000)  rgb(00ff00) 45deg ").unwrap();
    assert_eq!(gradient, ColorRowState { tokens: vec![s("rgb(ff0000)"), s("rgb(00ff00)")], angle: Some(45) });
    assert_eq!(raw_from_state(&gradient), "rgb(ff0000) rgb(00ff00) 45deg");
    let no_angle = state_from_raw("rgba(ff0000ff) 0x80112233").unwrap();
    assert_eq!(no_angle.angle, None);
    assert_eq!(raw_from_state(&no_angle), "rgba(ff0000ff) 0x80112233");
    assert!(state_from_raw("red").is_none());
    assert!(state_from_raw("#fff").is_none());
    let lone = ColorRowState { tokens: vec![s("rgb(ff0000)")], angle: Some(90) };
    assert_eq!(raw_from_state(&lone), "rgb(ff0000)");
}

#[test]
fn color_control_state_reads_back_the_same() {
    let state = state_from_raw("rgba(ff0000ff)   0x80112233 +045deg").unwrap();
    assert_eq!(state.angle, Some(45));
    let text = raw_from_state(&state);
    assert_eq!(text, "rgba(ff0000ff) 0x80112233 45deg");
    assert_eq!(state_from_raw(&text).unwrap(), state);
    let single = state_from_raw("rgba( ff0000ff )").unwrap();
    assert_eq!(state_from_raw(&raw_from_state(&single)).unwrap(), single);
}

fn line(label: &str, value: &str) -> DetailItem {
    DetailItem::Line { label: s(label), value: s(value) }
}

#[test]
fn current_value_section() {
    let mut v = current(CurrentValueSourceStatus::DuplicateConflict, Some("4"), Some("odd spacing"));
    v.source_path = Some(s("/c/hyprland.conf"));
    v.line_number = Some(27);
    let d = detail("general.gaps_in", "safe", v, no_edit());
    assert_eq!(
        current_value_summary_items(&d),
        vec![
            line("Status", "Conflict: duplicate config entries found"),
            line("Current value", "4"),
            line("Source", "/c/hyprland.conf:27"),
            DetailItem::Body(s("This setting appears more than once in your config. The app will not write this setting until the duplicate entries are resolved manually.")),
            line("Warning", "odd spacing"),
        ]
    );
    let mut unset = current(CurrentValueSourceStatus::NotConfigured, None, None);
    unset.source_path = Some(s("/c/hyprland.conf"));
    let d = detail("general.gaps_in", "safe", unset, no_edit());
    assert_eq!(
        current_value_summary_items(&d),
        vec![
            line("Status", "Not configured; Hyprland will use its default behavior"),
            line("Current value", "not configured"),
        ]
    );
}

#[test]
fn write_reason_section() {
    let d = detail("general.gaps_in", "safe", current(CurrentValueSourceStatus::Configured, Some("5"), None), pending(true, None, "valid"));
    assert_eq!(
        user_facing_write_reason_items(&d),
        vec![
            line("Editable in app", "yes"),
            line("Proposed value", "8"),
            DetailItem::Body(s("Apply is available after backup, config write, and reread verification.")),
        ]
    );
    let d = detail("general.gaps_in", "safe", current(CurrentValueSourceStatus::Configured, Some("5"), None), no_edit());
    assert_eq!(
        user_facing_write_reason_items(&d),
        vec![
            line("Editable in app", "no"),
            DetailItem::Body(s("Apply is blocked because this setting is not currently editable in the app: no edit path is available.")),
        ]
    );
}

#[test]
fn safety_section() {
    let v = || current(CurrentValueSourceStatus::Configured, Some("1"), None);
    let plain = detail("general.gaps_in", "safe", v(), pending(true, None, "valid"));
    assert_eq!(
        safety_summary_items(&plain),
        vec![line("Risk", "Standard config setting"), line("Write path", "Reviewed config write")]
    );
    let gated = detail("ecosystem.enforce_permissions", "ecosystem_policy_risk", v(), no_edit());
    assert_eq!(
        safety_summary_items(&gated),
        vec![
            line("Risk", "ecosystem policy risk"),
            line("Write path", "Gated high-risk config write"),
            DetailItem::Body(s("High-risk ecosystem/policy setting. Requires advanced opt-in and dead-man confirm-or-revert recovery; display/render, cursor/input, and debug/crash rows remain blocked.")),
            line("Gate", "advanced-opt-in-plus-policy-confirmation-plus-independent-dead-man-confirm-or-revert"),
            line("Recovery", "production-capable watchdog plan must be armed before mutation; timeout restores the backup unless the user confirms the change"),
        ]
    );
    let crash = detail("debug.manual_crash", "debug_crash_risk", v(), no_edit());
    let items = safety_summary_items(&crash);
    assert_eq!(items[1], line("Write path", "Not currently writable in the app"));
    assert_eq!(items.len(), 3);
    assert!(matches!(&items[2], DetailItem::Body(t) if t.starts_with("This setting is crash/debug sensitive.")));
    let monitor = detail("cursor.default_monitor", "cursor_input_risk", v(), no_edit());
    let items = safety_summary_items(&monitor);
    assert_eq!(items[0], line("Risk", "Cursor/input high-risk setting"));
    assert!(matches!(&items[2], DetailItem::Body(t) if t.starts_with("This is not a freeform string write.")));
    let mut shader = detail("decoration.screen_shader", "display_render_risk", v(), no_edit());
    let advisory = screen_shader_advisory_projection("decoration.screen_shader").unwrap();
    shader.screen_shader_advisory = Some(advisory.clone());
    let items = safety_summary_items(&shader);
    assert_eq!(items.len(), 4);
    assert_eq!(items[2], DetailItem::Body(advisory.production_gate_disclaimer.clone()));
    assert_eq!(items[3], DetailItem::Small(advisory.runtime_safety_disclaimer.clone()));
}

#[test]
fn review_summary_gives_the_first_blocked_reason() {
    let summary = vec![s("checked: syntax"), s("blocked: the config has duplicates"), s("blocked: later reason")];
    assert_eq!(blocked_reason(&summary), Some(s("the config has duplicates")));
    assert_eq!(blocked_reason(&vec![s("ok"), s(" blocked: no")]), None);
    assert_eq!(blocked_reason(&vec![]), None);
    let p = PendingEditProjection::from_review_summary(false, &summary, s("valid"));
    assert_eq!(p.review_blocked_reason.as_deref(), Some("the config has duplicates"));
    let mut edit = pending(false, None, "valid");
    edit.pending = Some(p);
    let d = detail("general.gaps_in", "safe", current(CurrentValueSourceStatus::Configured, Some("5"), None), edit);
    assert_eq!(apply_state_message(&d), "Apply is blocked because the config has duplicates.");
}

#[test]
fn setting_section() {
    let mut d = detail("general.gaps_in", "safe", current(CurrentValueSourceStatus::Configured, Some("5"), None), no_edit());
    d.label = s("Appearance gaps in");
    assert_eq!(
        setting_section_items(&d, None),
        vec![
            DetailItem::Title(s("gaps in")),
            line("Official setting", "general.gaps_in"),
            line("Category", "Appearance / General"),
            line("Description", "Gaps."),
        ]
    );
    d.description = s("");
    assert_eq!(
        setting_section_items(&d, Some("Inner gaps")),
        vec![
            DetailItem::Title(s("Inner gaps")),
            line("Official setting", "general.gaps_in"),
            line("Category", "Appearance / General"),
        ]
    );
}

#[test]
fn live_preview_seed_values() {
    let mut row = setting("general.gaps_in", "safe", current(CurrentValueSourceStatus::Configured, Some("5 5 5 5"), None));
    assert_eq!(runtime_seed_initial_value(Some(s("7")), &row, Some("3")), "7");
    assert_eq!(runtime_seed_initial_value(None, &row, Some("3")), "5");
    row.current_value = current(CurrentValueSourceStatus::NotConfigured, None, None);
    assert_eq!(runtime_seed_initial_value(None, &row, Some("2 4")), "2 4");
    row.edit.proposed_value = Some(s("9"));
    assert_eq!(runtime_seed_initial_value(None, &row, None), "9");
    row.edit.proposed_value = None;
    assert_eq!(runtime_seed_initial_value(None, &row, None), "");
}

#[test]
fn picked_colors_are_remembered() {
    let palette = vec![s("rgba(ff0000ff)"), s("rgba(00ff00ff)")];
    let store: Vec<String> = (0..8).map(|i| format!("rgba(0000{i:02x}ff)")).collect();
    assert_eq!(remember_custom_color(&store, "rgba(ff0000ff)", &palette), store);
    let r = remember_custom_color(&store, "rgba(123456ff)", &palette);
    assert_eq!(r.len(), 8);
    assert_eq!(r[0], "rgba(123456ff)");
    assert_eq!(r[1], store[0]);
    assert_eq!(r[7], store[6]);
    let r = remember_custom_color(&store, "rgba(000003ff)", &palette);
    assert_eq!(r[0], "rgba(000003ff)");
    assert_eq!(r.len(), 8);
    assert_eq!(r.iter().filter(|x| x.as_str() == "rgba(000003ff)").count(), 1);
    assert_eq!(r[4], store[4]);
    assert_eq!(remember_custom_color(&vec![], "rgba(0a0b0cff)", &palette), vec![s("rgba(0a0b0cff)")]);
}

#[test]
fn typed_hex_codes() {
    assert_eq!(hex_entry_color("ff8000"), Some(ParsedColor { red: 255, green: 128, blue: 0, alpha: 255 }));
    assert_eq!(hex_entry_color("ff800040"), Some(ParsedColor { red: 255, green: 128, blue: 0, alpha: 64 }));
    assert_eq!(hex_entry_color("ff80"), None);
    assert_eq!(hex_entry_color("ff80004"), None);
    assert_eq!(hex_entry_color("gg8000"), None);
    assert_eq!(hex_entry_color("ééé"), None);
}

#[test]
fn hex_forms_read_back() {
    for c in [
        ParsedColor { red: 0, green: 0, blue: 0, alpha: 0 },
        ParsedColor { red: 255, green: 1, blue: 171, alpha: 16 },
        ParsedColor { red: 18, green: 52, blue: 86, alpha: 120 },
    ] {
        assert_eq!(parse_hyprland_color(&rgba_token(c)), Some(c));
        let zero_x = format!("0x{:02x}{:02x}{:02x}{:02x}", c.alpha, c.red, c.green, c.blue);
        assert_eq!(parse_hyprland_color(&zero_x), Some(c));
        let rgb = format!("rgb({:02x}{:02x}{:02x})", c.red, c.green, c.blue);
        assert_eq!(parse_hyprland_color(&rgb), Some(ParsedColor { alpha: 255, ..c }));
    }
}

#[test]
fn switch_seeds_follow_truthy_words() {
    for on in ["1", "true", " TRUE ", "Yes", "on", "\tOn\n"] {
        assert!(switch_seed_active(on), "{on:?}");
    }
    for off in ["0", "false", "off", "", "enabled", "y", "1.0"] {
        assert!(!switch_seed_active(off), "{off:?}");
    }
}

#[test]
fn picker_starts_from_the_token_or_white() {
    assert_eq!(
        picker_initial_color("rgba(11223344)"),
        ParsedColor { red: 0x11, green: 0x22, blue: 0x33, alpha: 0x44 }
    );
    assert_eq!(
        picker_initial_color(" 0x80ff0000 "),
        ParsedColor { red: 0xff, green: 0, blue: 0, alpha: 0x80 }
    );
    let white = ParsedColor { red: 255, green: 255, blue: 255, alpha: 255 };
    assert_eq!(picker_initial_color("red"), white);
    assert_eq!(picker_initial_color("rgba(1122334)"), white);
}

#[test]
fn hex_field_edits_change_the_picked_color() {
    let chosen = ParsedColor { red: 1, green: 2, blue: 3, alpha: 4 };
    assert_eq!(
        picker_color_after_hex_entry(chosen, "a0B0c0"),
        ParsedColor { red: 0xa0, green: 0xb0, blue: 0xc0, alpha: 255 }
    );
    assert_eq!(
        picker_color_after_hex_entry(chosen, "a0b0c0d0"),
        ParsedColor { red: 0xa0, green: 0xb0, blue: 0xc0, alpha: 0xd0 }
    );
    assert_eq!(picker_color_after_hex_entry(chosen, "a0b0c"), chosen);
    assert_eq!(picker_color_after_hex_entry(chosen, "a0b0c0d"), chosen);
    assert_eq!(picker_color_after_hex_entry(chosen, "zzzzzz"), chosen);
    assert_eq!(picker_color_after_hex_entry(chosen, ""), chosen);
}

#[test]
fn remembered_colors_stay_distinct_and_short() {
    let palette = vec![s("rgba(ff0000ff)")];
    let store: Vec<String> = (0..8).map(|i| format!("rgba(00000{i}ff)")).collect();
    for token in ["rgba(ff0000ff)", "rgba(000005ff)", "rgba(abcdefff)", "rgba(000000ff)"] {
        let r = remember_custom_color(&store, token, &palette);
        assert!(r.len() <= 8);
        for (i, a) in r.iter().enumerate() {
            assert!(r[i + 1..].iter().all(|b| b != a), "{token} repeats {a}");
        }
        if token != "rgba(ff0000ff)" {
            assert_eq!(r[0], token);
        }
    }
}
