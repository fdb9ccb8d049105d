use hyprland_settings::ui::connected_files::{
    config_path_summary, config_selection_scaffold_lines, connected_file_accessibility_suffix,
    connected_file_blockers, connected_file_card_items,
    connected_file_accessibility_summary, connected_file_details, connected_file_has_hint,
    connected_file_has_script_hint, connected_file_hint_lines, connected_file_issue_warnings,
    connected_file_notes, connected_file_readable_label, connected_file_reason,
    connected_file_source_summary, connected_file_title, friendly_config_graph_summary,
    friendly_config_hint_label, friendly_connected_file_note, paths_match_file,
    pending_target_config_path, selected_file_preview_summary_lines,
    source_follow_policy_for_choice, source_reference_for_file, ConfigDiscovery,
    ConfigDiscoveryStatus, ConfigGraphFile, ConfigGraphSummary, ConfigManagementHint,
    ConfigManagementHintKind, ConfigSourceReference, DetailLine, SourceFollowChoice,
    SourceFollowPolicy,
};
use hyprland_settings::ui::detail_text::DetailItem;
use hyprland_settings::ui::connected_files::ConfigManagementHintKind::{
    CurrentProfile, DesktopProfile, GamingProfile, GeneratedFile, HostProfile, ModeProfile,
    ScriptManaged, ScriptReferenced, SymlinkManaged, ThemeProfile,
};

fn s(x: &str) -> String {
    x.to_string()
}

fn file(path: &str, depth: usize, kinds: &[ConfigManagementHintKind]) -> ConfigGraphFile {
    ConfigGraphFile {
        path: s(path),
        resolved_path: None,
        symlink_target: None,
        is_symlink: false,
        readable: true,
        source_depth: depth,
        hints: kinds.iter().map(|k| ConfigManagementHint { kind: *k }).collect(),
    }
}

fn graph(files: Vec<ConfigGraphFile>, refs: Vec<ConfigSourceReference>) -> ConfigGraphSummary {
    ConfigGraphSummary {
        files,
        source_references: refs,
        multi_file: false,
        connected_file_count: 1,
        unreadable_file_count: 0,
        unreadable_files: vec![],
        cycle_count: 0,
        unsupported_source_count: 0,
        has_profile_hints: false,
        has_mode_hints: false,
        has_theme_hints: false,
        has_script_managed_hints: false,
        has_generated_hints: false,
    }
}

#[test]
fn hint_and_note_labels() {
    assert_eq!(friendly_config_hint_label(&ModeProfile), "Profile file");
    assert_eq!(friendly_config_hint_label(&ScriptReferenced), "May be changed by scripts");
    assert_eq!(friendly_config_hint_label(&SymlinkManaged), "Symlinked file");
    assert_eq!(friendly_connected_file_note(&GeneratedFile), "This file appears to be generated");
    assert_eq!(friendly_connected_file_note(&HostProfile), "This file looks like a profile file");
    assert_eq!(friendly_connected_file_note(&ScriptManaged), "This file may be changed by scripts");
}

#[test]
fn file_roles_and_suffixes() {
    let root = file("/c/hyprland.conf", 0, &[GeneratedFile]);
    assert_eq!(connected_file_title(&root), "Main config");
    assert_eq!(connected_file_reason(&root), "This is the config file the app is currently reviewing.");
    assert_eq!(connected_file_accessibility_suffix(&root), "generated");
    let themed = file("/c/theme.conf", 1, &[GeneratedFile, ThemeProfile, DesktopProfile]);
    assert_eq!(connected_file_title(&themed), "Desktop profile");
    assert_eq!(connected_file_reason(&themed), "This file is connected from another config file.");
    let plain = file("/c/other.conf", 2, &[]);
    assert_eq!(connected_file_title(&plain), "Connected config");
    assert_eq!(connected_file_accessibility_suffix(&plain), "connected");
    let plain_root = file("/c/hyprland.conf", 0, &[]);
    assert_eq!(connected_file_accessibility_suffix(&plain_root), "root");
    let scripted = file("/c/s.conf", 1, &[ScriptReferenced, ModeProfile]);
    assert!(connected_file_has_script_hint(&scripted));
    assert!(!connected_file_has_hint(&scripted, ScriptManaged));
    assert_eq!(connected_file_title(&scripted), "Connected config");
    assert_eq!(connected_file_accessibility_suffix(&scripted), "script-managed");
    let mut linked = file("/c/l.conf", 1, &[]);
    linked.is_symlink = true;
    linked.readable = false;
    assert_eq!(connected_file_accessibility_suffix(&linked), "symlink-current-profile");
    assert_eq!(connected_file_readable_label(&linked), "No");
    assert_eq!(
        connected_file_accessibility_summary(&linked),
        "Connected file card: Connected config This file may be a symlink or current-profile file. The app will not write it yet."
    );
    let all = file("/c/g.conf", 1, &[GeneratedFile, ScriptManaged, SymlinkManaged]);
    assert_eq!(
        connected_file_accessibility_summary(&all),
        "Connected file card: Generated file This file may be generated. The app will not write it yet. This file may be changed by a script. The app will not write it yet. This file may be a symlink or current-profile file. The app will not write it yet."
    );
}

#[test]
fn notes_and_hint_lines_are_listed_once() {
    let f = file("/c/p.conf", 1, &[ScriptManaged, DesktopProfile, ScriptReferenced, GamingProfile, ModeProfile]);
    assert_eq!(
        connected_file_notes(&f),
        vec![s("This file may be changed by scripts"), s("This file looks like a profile file")]
    );
    assert_eq!(
        connected_file_hint_lines(&f),
        vec![s("May be changed by scripts"), s("Desktop profile"), s("Gaming profile"), s("Profile file")]
    );
    assert!(connected_file_notes(&file("/c/x.conf", 1, &[])).is_empty());
}

#[test]
fn files_are_found_by_any_of_their_paths() {
    let mut f = file("/c/current.conf", 1, &[]);
    f.resolved_path = Some(s("/c/profiles/work.conf"));
    f.symlink_target = Some(s("profiles/work.conf"));
    assert!(paths_match_file("/c/current.conf", &f));
    assert!(paths_match_file("/c/profiles/work.conf", &f));
    assert!(paths_match_file("profiles/work.conf", &f));
    assert!(paths_match_file("/c//current.conf", &f));
    assert!(!paths_match_file("/c/other.conf", &f));
    let refs = vec![
        ConfigSourceReference { source_file: s("/c/hyprland.conf"), line_number: 3, resolved_target: None },
        ConfigSourceReference { source_file: s("/c/a.conf"), line_number: 7, resolved_target: Some(s("/c/b.conf")) },
        ConfigSourceReference { source_file: s("/c/hyprland.conf"), line_number: 12, resolved_target: Some(s("/c/profiles/work.conf")) },
        ConfigSourceReference { source_file: s("/c/z.conf"), line_number: 1, resolved_target: Some(s("/c/current.conf")) },
    ];
    let g = graph(vec![f.clone()], refs);
    let found = source_reference_for_file(&f, &g).unwrap();
    assert_eq!(found.line_number, 12);
    assert_eq!(connected_file_source_summary(&f, &g), "/c/hyprland.conf, line 12");
    let lost = file("/c/lost.conf", 1, &[]);
    assert!(source_reference_for_file(&lost, &g).is_none());
    assert_eq!(
        connected_file_source_summary(&lost, &g),
        "The app found this file while reviewing connected configs."
    );
    let root = file("/c/hyprland.conf", 0, &[]);
    assert_eq!(connected_file_source_summary(&root, &g), "This is the selected config root.");
}

#[test]
fn file_details_lines() {
    let mut f = file("/c/current.conf", 1, &[CurrentProfile, SymlinkManaged]);
    f.is_symlink = true;
    f.symlink_target = Some(s("/c/profiles/work.conf"));
    let refs = vec![ConfigSourceReference {
        source_file: s("/c/hyprland.conf"),
        line_number: 40,
        resolved_target: Some(s("/c/current.conf")),
    }];
    let g = graph(vec![f.clone()], refs);
    let d = |l: &str, v: &str| DetailLine { label: s(l), value: s(v) };
    assert_eq!(
        connected_file_details(&f, &g),
        vec![
            d("Why this file is listed", "This file is connected from another config file."),
            d("Role", "Current profile"),
            d("Readable", "Yes"),
            d("Symlink", "Yes"),
            d("Points to", "/c/profiles/work.conf"),
            d("Connected from", "/c/hyprland.conf, line 40"),
            d("Notes", "This file looks like a profile file; This file is symlinked"),
        ]
    );
    let bare = file("/c/hyprland.conf", 0, &[]);
    let details = connected_file_details(&bare, &g);
    assert_eq!(details.len(), 6);
    assert_eq!(details[5], d("Notes", "No extra notes were detected."));
}

#[test]
fn graph_summary_and_warnings() {
    let mut g = graph(vec![file("/c/hyprland.conf", 0, &[])], vec![]);
    assert_eq!(
        friendly_config_graph_summary(&g),
        vec![
            s("No connected config files were detected."),
            s("Connected-file review is read-only right now."),
            s("The app will review connected files before allowing changes."),
        ]
    );
    assert!(connected_file_issue_warnings(&g).is_empty());
    g.multi_file = true;
    g.connected_file_count = 4;
    g.unreadable_file_count = 2;
    g.unreadable_files = vec![s("/c/a.conf"), s("/c/b.conf")];
    g.has_theme_hints = true;
    g.has_script_managed_hints = true;
    g.unsupported_source_count = 1;
    g.cycle_count = 1;
    assert_eq!(
        friendly_config_graph_summary(&g),
        vec![
            s("This setup uses 4 config files."),
            s("Some files are connected through source/include lines."),
            s("2 connected file(s) could not be read."),
            s("Profile-style config files were detected."),
            s("Some files may be changed by scripts."),
            s("Some connected files may not be shown yet."),
            s("Connected-file review is read-only right now."),
            s("The app will review connected files before allowing changes."),
        ]
    );
    assert_eq!(
        connected_file_issue_warnings(&g),
        vec![
            s("Some connected files could not be read."),
            s("Missing or unreadable:"),
            s("- /c/a.conf"),
            s("- /c/b.conf"),
            s("Some connected files refer back to each other."),
            s("The app stopped following them to avoid looping."),
            s("Some connected file patterns are not shown yet."),
            s("Review carefully before editing these files in a future version."),
        ]
    );
}

#[test]
fn preview_of_a_chosen_file() {
    assert_eq!(source_follow_policy_for_choice(SourceFollowChoice::ReviewAllConnectedFiles), SourceFollowPolicy::ReviewAll);
    assert_eq!(source_follow_policy_for_choice(SourceFollowChoice::OnlySelectedFile), SourceFollowPolicy::OnlyRoot);
    assert_eq!(source_follow_policy_for_choice(SourceFollowChoice::Cancel), SourceFollowPolicy::OnlyRoot);
    let mut unreadable = file("/c/x.conf", 0, &[]);
    unreadable.readable = false;
    let bad = graph(vec![unreadable], vec![]);
    let refused = vec![s("This file could not be read for preview."), s("No changes were made.")];
    assert_eq!(selected_file_preview_summary_lines(&bad, SourceFollowChoice::ReviewAllConnectedFiles), refused);
    assert_eq!(selected_file_preview_summary_lines(&graph(vec![], vec![]), SourceFollowChoice::Cancel), refused);
    let mut g = graph(vec![file("/c/x.conf", 0, &[])], vec![]);
    g.connected_file_count = 3;
    g.has_generated_hints = true;
    g.cycle_count = 2;
    assert_eq!(
        selected_file_preview_summary_lines(&g, SourceFollowChoice::OnlySelectedFile),
        vec![
            s("Connected files found: 3"),
            s("Unreadable files: 0"),
            s("Profile-style files: not detected"),
            s("Script-managed hints: not detected"),
            s("Generated-file hints: detected"),
            s("Cycles: detected"),
            s("Unsupported patterns: not detected"),
            s("Connected files are not included in this preview."),
        ]
    );
    assert_eq!(selected_file_preview_summary_lines(&g, SourceFollowChoice::ReviewAllConnectedFiles).len(), 7);
}

#[test]
fn detected_config_summaries() {
    let found = ConfigDiscovery { status: ConfigDiscoveryStatus::Found { path: s("/h/.config/hypr/hyprland.conf") } };
    assert_eq!(config_path_summary(&found), "/h/.config/hypr/hyprland.conf");
    assert_eq!(pending_target_config_path(&found), Some(s("/h/.config/hypr/hyprland.conf")));
    let missing = ConfigDiscovery { status: ConfigDiscoveryStatus::Missing };
    assert_eq!(config_path_summary(&missing), "No Hyprland config file was detected.");
    assert_eq!(pending_target_config_path(&missing), None);
    let unreadable = ConfigDiscovery { status: ConfigDiscoveryStatus::Unreadable { path: s("/x") } };
    assert_eq!(config_path_summary(&unreadable), "/x could not be read.");
    assert_eq!(pending_target_config_path(&unreadable), None);
    let dir = ConfigDiscovery { status: ConfigDiscoveryStatus::NotAFile { path: s("/d") } };
    assert_eq!(config_path_summary(&dir), "/d is not a regular file.");
    assert_eq!(
        config_selection_scaffold_lines(&missing),
        vec![
            s("Using:"),
            s("No Hyprland config file was detected."),
            s("Auto-detection is a starting point."),
            s("Choose another config file to review."),
            s("This has not changed what the app will write."),
            s("The selected file is preview-only until a future review step."),
        ]
    );
}

#[test]
fn file_cards_and_their_safety_details() {
    let mut f = file("/c/current.conf", 1, &[ScriptReferenced, CurrentProfile, ScriptManaged]);
    f.symlink_target = Some(s("/c/profiles/work.conf"));
    f.readable = false;
    assert_eq!(
        connected_file_card_items(&f),
        vec![
            DetailItem::Body(s("Current profile")),
            DetailItem::Small(s("/c/current.conf")),
            DetailItem::Small(s("Points to: /c/profiles/work.conf")),
            DetailItem::Small(s("Missing or unreadable")),
            DetailItem::Small(s("May be changed by scripts")),
            DetailItem::Small(s("Current profile")),
        ]
    );
    let blockers = connected_file_blockers(&f);
    assert_eq!(blockers.len(), 1);
    assert_eq!(blockers[0].widget_name, "hyprland-settings-connected-file-detail-script-managed");
    assert_eq!(blockers[0].title, "Script-managed file detail");
    let mut g = file("/c/g.conf", 1, &[SymlinkManaged, GeneratedFile]);
    g.is_symlink = false;
    let titles: Vec<&str> = connected_file_blockers(&g).iter().map(|b| b.title).collect();
    assert_eq!(titles, vec!["Generated file detail", "Symlink/current-profile detail"]);
    assert!(connected_file_blockers(&file("/c/p.conf", 1, &[ThemeProfile])).is_empty());
    assert_eq!(connected_file_card_items(&file("/c/hyprland.conf", 0, &[])).len(), 2);
}
