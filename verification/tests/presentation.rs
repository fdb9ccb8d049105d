use hyprland_settings::ux_presentation::{
    category_for_tab, choice_display_label, fallback_display_label, page_claims_row, page_spec,
    parse_hyprland_color, parse_hyprland_gradient, resolved_row_label, section_display_name,
    short_description, sidebar_page_layout, sidebar_pages, status_chip_for_row, DeadManClassification,
    DeadManRowClassification, ParsedColor, RuntimePreviewCapability, StatusChip, SAVE_GATE_CHIP,
};
use hyprland_settings::ux_presentation::RuntimePreviewCapability as C;

fn page(id: &str) -> hyprland_settings::ux_presentation::PageSpec {
    page_spec(id).expect("known page")
}

#[test]
fn page_lookup() {
    let decoration = page("decoration");
    assert_eq!(decoration.id, "decoration");
    assert_eq!(decoration.label, "Decoration");
    assert_eq!(decoration.source_tab, Some("appearance"));
    assert_eq!(decoration.include_prefixes, Some(&["decoration."][..]));
    assert_eq!(page("config").label, "Settings");
    assert_eq!(page("workspaces").source_tab, None);
    assert!(page_spec("nope").is_none());
}

#[test]
fn sidebar_has_every_page_once_in_category_order() {
    let pages = sidebar_pages();
    assert_eq!(pages.len(), 22);
    assert_eq!(pages[0].0, "Look & Feel");
    assert_eq!(pages[0].1.id, "general");
    assert_eq!(pages[21].0, "Advanced");
    assert_eq!(pages[21].1.id, "safety-details");
    let layout = sidebar_page_layout();
    let labels: Vec<&str> = layout.iter().map(|c| c.label).collect();
    assert_eq!(
        labels,
        vec!["Look & Feel", "Input", "Display", "Window Management", "Startup", "Advanced"]
    );
    let flattened: Vec<&str> = layout.iter().flat_map(|c| c.pages.iter().map(|p| p.id)).collect();
    let listed: Vec<&str> = pages.iter().map(|(_, p)| p.id).collect();
    assert_eq!(flattened, listed);
    let mut sorted = listed.clone();
    sorted.sort();
    sorted.dedup();
    assert_eq!(sorted.len(), listed.len());
}

#[test]
fn categories_of_pages() {
    assert_eq!(category_for_tab("general"), Some("Look & Feel"));
    assert_eq!(category_for_tab("gestures"), Some("Input"));
    assert_eq!(category_for_tab("workspaces"), Some("Display"));
    assert_eq!(category_for_tab("layer-rules"), Some("Window Management"));
    assert_eq!(category_for_tab("env-variables"), Some("Startup"));
    assert_eq!(category_for_tab("safety-details"), Some("Advanced"));
    assert_eq!(category_for_tab("unknown"), None);
}

#[test]
fn prefix_pages_and_rest_pages_split_a_tab() {
    assert!(page_claims_row(&page("decoration"), "decoration.rounding"));
    assert!(!page_claims_row(&page("general"), "decoration.rounding"));
    assert!(page_claims_row(&page("general"), "general.gaps_in"));
    assert!(page_claims_row(&page("gestures"), "gestures.workspace_swipe_distance"));
    assert!(page_claims_row(&page("gestures"), "gesture.x"));
    assert!(!page_claims_row(&page("devices"), "gesture.x"));
    assert!(page_claims_row(&page("devices"), "input.kb_layout"));
    assert!(page_claims_row(&page("xwayland"), "xwayland.enabled"));
    assert!(!page_claims_row(&page("system"), "xwayland.enabled"));
    assert!(!page_claims_row(&page("system"), "ecosystem.no_update_news"));
    assert!(page_claims_row(&page("system"), "misc.vrr"));
    assert!(!page_claims_row(&page("workspaces"), "general.gaps_in"));
}

#[test]
fn every_row_of_a_tab_lands_on_exactly_one_page() {
    let pages = sidebar_pages();
    for (tab, setting) in [
        ("appearance", "decoration.blur.size"),
        ("appearance", "general.border_size"),
        ("input", "gestures.workspace_swipe"),
        ("input", "input.sensitivity"),
        ("system", "xwayland.force_zero_scaling"),
        ("system", "ecosystem.no_donation_nag"),
        ("system", "debug.overlay"),
    ] {
        let claiming = pages
            .iter()
            .filter(|(_, p)| p.source_tab == Some(tab) && page_claims_row(p, setting))
            .count();
        assert_eq!(claiming, 1, "{tab} {setting}");
    }
}

#[test]
fn section_names() {
    assert_eq!(section_display_name("Decoration Blur", "Decoration"), "Blur");
    assert_eq!(section_display_name(" misc ", "System"), "Miscellaneous");
    assert_eq!(section_display_name("general", "General"), "Gaps & Borders");
    assert_eq!(section_display_name("Cursor Behavior", "Cursor"), "Behavior");
    assert_eq!(section_display_name("Cursor", "Cursor"), "General");
    assert_eq!(section_display_name("cursor", "Cursor"), "General");
    assert_eq!(section_display_name("", "Cursor"), "General");
    assert_eq!(section_display_name("Input Mouse", "Devices"), "Input Mouse");
}

#[test]
fn fallback_labels_strip_the_page_name() {
    assert_eq!(fallback_display_label("Cursor Hide On Key Press", "Cursor"), "Hide On Key Press");
    assert_eq!(fallback_display_label("Cursor", "Cursor"), "Cursor");
    assert_eq!(fallback_display_label("  Cursor   ", " Cursor "), "Cursor");
    assert_eq!(fallback_display_label("Cursor  x ", "Cursor"), "x");
    assert_eq!(fallback_display_label("Cursors", "Cursor"), "Cursors");
}

#[test]
fn resolved_labels_prefer_the_matched_label() {
    assert_eq!(resolved_row_label(Some("Friendly"), "Official"), "Friendly");
    assert_eq!(resolved_row_label(None, "Official"), "Official");
}

#[test]
fn choice_labels_are_humanized() {
    assert_eq!(choice_display_label("dwindle"), "Dwindle");
    assert_eq!(choice_display_label(" top_left-x "), "Top left x");
    assert_eq!(choice_display_label("1.5"), "1.5");
    assert_eq!(choice_display_label("-2"), "-2");
    assert_eq!(choice_display_label("inf"), "inf");
    assert_eq!(choice_display_label("   "), "");
    assert_eq!(choice_display_label("éclair"), "Éclair");
    assert_eq!(choice_display_label("ßa"), "SSa");
    assert_eq!(choice_display_label("_x"), " x");
}

#[test]
fn short_descriptions() {
    assert_eq!(short_description("  Sets the gap. More text. "), "Sets the gap.");
    assert_eq!(short_description("Really? Yes."), "Really?");
    assert_eq!(short_description("No end"), "No end");
    assert_eq!(short_description(""), "");
    let long = "a".repeat(200);
    let expected = format!("{}…", "a".repeat(109));
    assert_eq!(short_description(&long), expected);
    let spaced = format!("{}  {}", "x".repeat(108), "y".repeat(20));
    assert_eq!(short_description(&spaced), format!("{}…", "x".repeat(108)));
    let exact = "z".repeat(110);
    assert_eq!(short_description(&exact), exact);
}

#[test]
fn chip_labels() {
    assert_eq!(StatusChip::LivePreview.label(), "Live Preview");
    assert_eq!(StatusChip::SaveOnly.label(), "Save Only");
    assert_eq!(StatusChip::HardwareRequired.label(), "Hardware Required");
    assert_eq!(StatusChip::NotProvenYet.label(), "Not Proven Yet");
    assert_eq!(StatusChip::Blocked.label(), "Blocked");
    assert_eq!(SAVE_GATE_CHIP, "Requires Safe Live Save Mode");
}

fn dead_man(classification: DeadManClassification, reason: &str) -> DeadManRowClassification {
    DeadManRowClassification { classification, reason: reason.to_string() }
}

#[test]
fn chips_fail_closed() {
    assert_eq!(status_chip_for_row(None, None), StatusChip::NotProvenYet);
    assert_eq!(status_chip_for_row(Some(C::LivePreviewSupported), None), StatusChip::LivePreview);
    assert_eq!(
        status_chip_for_row(Some(C::LivePreviewSupportedWithThrottle), None),
        StatusChip::LivePreview
    );
    assert_eq!(
        status_chip_for_row(Some(C::LivePreviewSupportedWithDeadMan), None),
        StatusChip::NotProvenYet
    );
    let candidate = dead_man(DeadManClassification::DeadManPreviewCandidate, "ok");
    assert_eq!(
        status_chip_for_row(Some(C::LivePreviewSupportedWithDeadMan), Some(&candidate)),
        StatusChip::LivePreview
    );
    let touch = dead_man(
        DeadManClassification::DeadManPreviewCandidateNeedsLiveProof,
        "needs a Touch screen",
    );
    assert_eq!(
        status_chip_for_row(Some(C::LivePreviewSupportedWithDeadMan), Some(&touch)),
        StatusChip::HardwareRequired
    );
    let tablet = dead_man(DeadManClassification::DeadManPreviewCandidateNeedsLiveProof, "TABLET only");
    assert_eq!(
        status_chip_for_row(Some(C::LivePreviewSupportedWithDeadMan), Some(&tablet)),
        StatusChip::HardwareRequired
    );
    let timing = dead_man(DeadManClassification::DeadManPreviewCandidateNeedsLiveProof, "timing");
    assert_eq!(
        status_chip_for_row(Some(C::LivePreviewSupportedWithDeadMan), Some(&timing)),
        StatusChip::NotProvenYet
    );
    let model_only = dead_man(DeadManClassification::DeadManPreviewModelOnly, "");
    assert_eq!(
        status_chip_for_row(Some(C::LivePreviewSupportedWithDeadMan), Some(&model_only)),
        StatusChip::SaveOnly
    );
    let other = dead_man(DeadManClassification::Other, "");
    assert_eq!(
        status_chip_for_row(Some(C::LivePreviewSupportedWithDeadMan), Some(&other)),
        StatusChip::Blocked
    );
    for c in [C::LivePreviewReadOnlyOnly, C::RequiresConfigWrite, C::RequiresReload, C::RequiresRelog, C::RequiresRestart] {
        assert_eq!(status_chip_for_row(Some(c), None), StatusChip::SaveOnly);
    }
    for c in [C::BlockedHighRisk, C::BlockedUnsupportedGrammar, C::BlockedStructuredFamilySemantics] {
        assert_eq!(status_chip_for_row(Some(c), Some(&candidate)), StatusChip::Blocked);
    }
    assert_eq!(status_chip_for_row(Some(C::NotProvenYet), Some(&candidate)), StatusChip::NotProvenYet);
}

#[test]
fn swatch_colors() {
    assert_eq!(
        parse_hyprland_color("rgba(11223344)"),
        Some(ParsedColor { red: 0x11, green: 0x22, blue: 0x33, alpha: 0x44 })
    );
    assert_eq!(
        parse_hyprland_color(" rgb( aabbcc ) "),
        Some(ParsedColor { red: 0xaa, green: 0xbb, blue: 0xcc, alpha: 0xff })
    );
    assert_eq!(
        parse_hyprland_color("0x80112233"),
        Some(ParsedColor { red: 0x11, green: 0x22, blue: 0x33, alpha: 0x80 })
    );
    assert_eq!(parse_hyprland_color("#fff"), None);
    assert_eq!(parse_hyprland_color("rgba(1122334)"), None);
    assert_eq!(parse_hyprland_color("rgb(gg0000)"), None);
    assert_eq!(parse_hyprland_color("0x112233"), None);
    assert_eq!(parse_hyprland_color("rgb(255,0,0)"), None);
}

#[test]
fn swatch_gradients() {
    let red = ParsedColor { red: 0xff, green: 0, blue: 0, alpha: 0xff };
    let green = ParsedColor { red: 0, green: 0xff, blue: 0, alpha: 0xff };
    assert_eq!(
        parse_hyprland_gradient("rgb(ff0000) rgb(00ff00) 45deg"),
        Some((vec![red, green], Some(45)))
    );
    assert_eq!(
        parse_hyprland_gradient("  rgb(ff0000)   rgb(00ff00) "),
        Some((vec![red, green], None))
    );
    assert_eq!(
        parse_hyprland_gradient("rgb(ff0000) rgb(00ff00) +7deg"),
        Some((vec![red, green], Some(7)))
    );
    assert_eq!(parse_hyprland_gradient("rgb(ff0000)"), None);
    assert_eq!(parse_hyprland_gradient("rgb(ff0000) 45deg rgb(00ff00)"), None);
    assert_eq!(parse_hyprland_gradient("rgb(ff0000) rgb(00ff00) 70000deg"), None);
    assert_eq!(parse_hyprland_gradient("rgb(ff0000) rgb(00ff00) -5deg"), None);
    assert_eq!(parse_hyprland_gradient("rgb(ff0000) red"), None);
    assert_eq!(parse_hyprland_gradient(""), None);
}
