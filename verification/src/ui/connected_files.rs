//! How the settings window describes the config files connected to the
//! reviewed config through `source` lines: the role of each file, the notes
//! and hints shown on its card, where it was connected from, and the summary
//! lines of the whole graph. Reading the files is done outside the library;
//! here the graph arrives as plain values.
use vstd::prelude::*;
use crate::id_list::strings_view;
use crate::lines::{
    lemma_first_occurrences, append_prefixed, contains_line, first_occurrences, joined, join_lines, prefixed, push_line,
};
use crate::text::{append_str, concat2, decimal, push_decimal};
use crate::ui::detail_text::{items_text, DetailItem, DetailItemText};

verus! {

/// What a config file's name, location or contents suggest about how it is
/// managed.
#[derive(Debug, Clone, Copy, PartialEq, Eq, Structural)]
pub enum ConfigManagementHintKind {
    CurrentProfile,
    DesktopProfile,
    GamingProfile,
    LaptopProfile,
    PerformanceProfile,
    ModeProfile,
    ThemeProfile,
    HostProfile,
    GeneratedFile,
    ScriptReferenced,
    ScriptManaged,
    SymlinkManaged,
}

/// One management hint found on a connected file.
#[derive(Debug, Clone, Copy, PartialEq, Eq, Structural)]
pub struct ConfigManagementHint {
    pub kind: ConfigManagementHintKind,
}

/// A config file of the graph, with the facts its card shows.
#[derive(Debug, Clone)]
pub struct ConfigGraphFile {
    pub path: String,
    pub resolved_path: Option<String>,
    pub symlink_target: Option<String>,
    pub is_symlink: bool,
    pub readable: bool,
    /// 0 for the reviewed config itself, 1 for a file it sources, and so on.
    pub source_depth: usize,
    pub hints: Vec<ConfigManagementHint>,
}

/// The label of a hint in the list of a file's hints.
pub open spec fn hint_label(kind: ConfigManagementHintKind) -> Seq<char> {
    match kind {
        ConfigManagementHintKind::CurrentProfile => "Current profile"@,
        ConfigManagementHintKind::DesktopProfile => "Desktop profile"@,
        ConfigManagementHintKind::GamingProfile => "Gaming profile"@,
        ConfigManagementHintKind::LaptopProfile => "Laptop profile"@,
        ConfigManagementHintKind::PerformanceProfile => "Performance profile"@,
        ConfigManagementHintKind::ModeProfile => "Profile file"@,
        ConfigManagementHintKind::ThemeProfile => "Theme profile"@,
        ConfigManagementHintKind::HostProfile => "Host profile"@,
        ConfigManagementHintKind::GeneratedFile => "Generated file"@,
        ConfigManagementHintKind::ScriptReferenced => "May be changed by scripts"@,
        ConfigManagementHintKind::ScriptManaged => "May be changed by scripts"@,
        ConfigManagementHintKind::SymlinkManaged => "Symlinked file"@,
    }
}

pub fn friendly_config_hint_label(kind: &ConfigManagementHintKind) -> (r: &'static str)
    ensures
        r@ == hint_label(*kind),
{
    match kind {
        ConfigManagementHintKind::CurrentProfile => "Current profile",
        ConfigManagementHintKind::DesktopProfile => "Desktop profile",
        ConfigManagementHintKind::GamingProfile => "Gaming profile",
        ConfigManagementHintKind::LaptopProfile => "Laptop profile",
        ConfigManagementHintKind::PerformanceProfile => "Performance profile",
        ConfigManagementHintKind::ModeProfile => "Profile file",
        ConfigManagementHintKind::ThemeProfile => "Theme profile",
        ConfigManagementHintKind::HostProfile => "Host profile",
        ConfigManagementHintKind::GeneratedFile => "Generated file",
        ConfigManagementHintKind::ScriptReferenced | ConfigManagementHintKind::ScriptManaged => {
            "May be changed by scripts"
        },
        ConfigManagementHintKind::SymlinkManaged => "Symlinked file",
    }
}

/// The note a hint adds to a file's details.
pub open spec fn note_label(kind: ConfigManagementHintKind) -> Seq<char> {
    match kind {
        ConfigManagementHintKind::GeneratedFile => "This file appears to be generated"@,
        ConfigManagementHintKind::ScriptReferenced => "This file may be changed by scripts"@,
        ConfigManagementHintKind::ScriptManaged => "This file may be changed by scripts"@,
        ConfigManagementHintKind::SymlinkManaged => "This file is symlinked"@,
        _ => "This file looks like a profile file"@,
    }
}

pub fn friendly_connected_file_note(kind: &ConfigManagementHintKind) -> (r: &'static str)
    ensures
        r@ == note_label(*kind),
{
    match kind {
        ConfigManagementHintKind::GeneratedFile => "This file appears to be generated",
        ConfigManagementHintKind::ScriptReferenced | ConfigManagementHintKind::ScriptManaged => {
            "This file may be changed by scripts"
        },
        ConfigManagementHintKind::SymlinkManaged => "This file is symlinked",
        ConfigManagementHintKind::CurrentProfile
        | ConfigManagementHintKind::DesktopProfile
        | ConfigManagementHintKind::GamingProfile
        | ConfigManagementHintKind::LaptopProfile
        | ConfigManagementHintKind::PerformanceProfile
        | ConfigManagementHintKind::ModeProfile
        | ConfigManagementHintKind::ThemeProfile
        | ConfigManagementHintKind::HostProfile => "This file looks like a profile file",
    }
}

/// Whether one of `hints` has the kind `kind`.
pub open spec fn has_hint(hints: Seq<ConfigManagementHint>, kind: ConfigManagementHintKind) -> bool {
    exists|j: int| 0 <= j < hints.len() && (#[trigger] hints[j]).kind == kind
}

pub fn connected_file_has_hint(file: &ConfigGraphFile, kind: ConfigManagementHintKind) -> (r: bool)
    ensures
        r == has_hint(file.hints@, kind),
{
    let mut i: usize = 0;
    while i < file.hints.len()
        invariant
            i <= file.hints@.len(),
            forall|j: int| 0 <= j < i ==> (#[trigger] file.hints@[j]).kind != kind,
        decreases file.hints@.len() - i,
    {
        if file.hints[i].kind == kind {
            assert(file.hints@[i as int].kind == kind);
            return true;
        }
        i = i + 1;
    }
    false
}

/// Whether a script references or manages the file.
pub open spec fn script_hinted(hints: Seq<ConfigManagementHint>) -> bool {
    has_hint(hints, ConfigManagementHintKind::ScriptManaged) || has_hint(
        hints,
        ConfigManagementHintKind::ScriptReferenced,
    )
}

pub fn connected_file_has_script_hint(file: &ConfigGraphFile) -> (r: bool)
    ensures
        r == script_hinted(file.hints@),
{
    connected_file_has_hint(file, ConfigManagementHintKind::ScriptManaged)
        || connected_file_has_hint(file, ConfigManagementHintKind::ScriptReferenced)
}

pub open spec fn file_reason(file: ConfigGraphFile) -> Seq<char> {
    if file.source_depth == 0 {
        "This is the config file the app is currently reviewing."@
    } else {
        "This file is connected from another config file."@
    }
}

pub fn connected_file_reason(file: &ConfigGraphFile) -> (r: String)
    ensures
        r@ == file_reason(*file),
{
    if file.source_depth == 0 {
        "This is the config file the app is currently reviewing.".to_string()
    } else {
        "This file is connected from another config file.".to_string()
    }
}

pub fn connected_file_readable_label(file: &ConfigGraphFile) -> (r: &'static str)
    ensures
        r@ == if file.readable {
            "Yes"@
        } else {
            "No"@
        },
{
    if file.readable {
        "Yes"
    } else {
        "No"
    }
}

/// The role shown for a file: the main config, the first profile kind it is
/// hinted as (in a fixed order), a generated file, or a connected config.
pub open spec fn file_title(file: ConfigGraphFile) -> Seq<char> {
    let h = file.hints@;
    if file.source_depth == 0 {
        "Main config"@
    } else if has_hint(h, ConfigManagementHintKind::CurrentProfile) {
        "Current profile"@
    } else if has_hint(h, ConfigManagementHintKind::DesktopProfile) {
        "Desktop profile"@
    } else if has_hint(h, ConfigManagementHintKind::GamingProfile) {
        "Gaming profile"@
    } else if has_hint(h, ConfigManagementHintKind::LaptopProfile) {
        "Laptop profile"@
    } else if has_hint(h, ConfigManagementHintKind::PerformanceProfile) {
        "Performance profile"@
    } else if has_hint(h, ConfigManagementHintKind::ThemeProfile) {
        "Theme profile"@
    } else if has_hint(h, ConfigManagementHintKind::HostProfile) {
        "Host profile"@
    } else if has_hint(h, ConfigManagementHintKind::GeneratedFile) {
        "Generated file"@
    } else {
        "Connected config"@
    }
}

pub fn connected_file_title(file: &ConfigGraphFile) -> (r: String)
    ensures
        r@ == file_title(*file),
{
    if file.source_depth == 0 {
        return "Main config".to_string();
    }
    if connected_file_has_hint(file, ConfigManagementHintKind::CurrentProfile) {
        return "Current profile".to_string();
    }
    if connected_file_has_hint(file, ConfigManagementHintKind::DesktopProfile) {
        return "Desktop profile".to_string();
    }
    if connected_file_has_hint(file, ConfigManagementHintKind::GamingProfile) {
        return "Gaming profile".to_string();
    }
    if connected_file_has_hint(file, ConfigManagementHintKind::LaptopProfile) {
        return "Laptop profile".to_string();
    }
    if connected_file_has_hint(file, ConfigManagementHintKind::PerformanceProfile) {
        return "Performance profile".to_string();
    }
    if connected_file_has_hint(file, ConfigManagementHintKind::ThemeProfile) {
        return "Theme profile".to_string();
    }
    if connected_file_has_hint(file, ConfigManagementHintKind::HostProfile) {
        return "Host profile".to_string();
    }
    if connected_file_has_hint(file, ConfigManagementHintKind::GeneratedFile) {
        return "Generated file".to_string();
    }
    "Connected config".to_string()
}

/// Whether the file may be a symlink or a current-profile file.
pub open spec fn symlink_like(file: ConfigGraphFile) -> bool {
    file.is_symlink || has_hint(file.hints@, ConfigManagementHintKind::SymlinkManaged)
}

/// The suffix of a file card's widget name.
pub open spec fn file_suffix(file: ConfigGraphFile) -> Seq<char> {
    if has_hint(file.hints@, ConfigManagementHintKind::GeneratedFile) {
        "generated"@
    } else if script_hinted(file.hints@) {
        "script-managed"@
    } else if symlink_like(file) {
        "symlink-current-profile"@
    } else if file.source_depth == 0 {
        "root"@
    } else {
        "connected"@
    }
}

pub fn connected_file_accessibility_suffix(file: &ConfigGraphFile) -> (r: &'static str)
    ensures
        r@ == file_suffix(*file),
{
    if connected_file_has_hint(file, ConfigManagementHintKind::GeneratedFile) {
        "generated"
    } else if connected_file_has_script_hint(file) {
        "script-managed"
    } else if file.is_symlink || connected_file_has_hint(
        file,
        ConfigManagementHintKind::SymlinkManaged,
    ) {
        "symlink-current-profile"
    } else if file.source_depth == 0 {
        "root"
    } else {
        "connected"
    }
}

/// The sentences read out for a file card: its title, then a warning for
/// each way the file may be managed outside the app.
pub open spec fn file_summary_parts(file: ConfigGraphFile) -> Seq<Seq<char>> {
    seq!["Connected file card: "@ + file_title(file)] + (if has_hint(
        file.hints@,
        ConfigManagementHintKind::GeneratedFile,
    ) {
        seq!["This file may be generated. The app will not write it yet."@]
    } else {
        seq![]
    }) + (if script_hinted(file.hints@) {
        seq!["This file may be changed by a script. The app will not write it yet."@]
    } else {
        seq![]
    }) + (if symlink_like(file) {
        seq![
            "This file may be a symlink or current-profile file. The app will not write it yet."@,
        ]
    } else {
        seq![]
    })
}

pub fn connected_file_accessibility_summary(file: &ConfigGraphFile) -> (r: String)
    ensures
        r@ == joined(file_summary_parts(*file), " "@),
{
    let mut parts: Vec<String> = Vec::new();
    let mut first = "Connected file card: ".to_string();
    let title = connected_file_title(file);
    append_str(&mut first, title.as_str());
    let ghost p0 = first@;
    parts.push(first);
    assert(strings_view(parts@) =~= seq![p0]);
    if connected_file_has_hint(file, ConfigManagementHintKind::GeneratedFile) {
        push_line(&mut parts, "This file may be generated. The app will not write it yet.");
    }
    if connected_file_has_script_hint(file) {
        push_line(&mut parts, "This file may be changed by a script. The app will not write it yet.");
    }
    if file.is_symlink || connected_file_has_hint(file, ConfigManagementHintKind::SymlinkManaged) {
        push_line(
            &mut parts,
            "This file may be a symlink or current-profile file. The app will not write it yet.",
        );
    }
    assert(strings_view(parts@) =~= file_summary_parts(*file));
    join_lines(&parts, " ")
}

/// The notes of a file's details: the note of each hint, each note once,
/// in the order the hints first give them.
pub open spec fn file_notes(hints: Seq<ConfigManagementHint>) -> Seq<Seq<char>> {
    first_occurrences(hints.map_values(|h: ConfigManagementHint| note_label(h.kind)))
}

pub fn connected_file_notes(file: &ConfigGraphFile) -> (r: Vec<String>)
    ensures
        strings_view(r@) == file_notes(file.hints@),
{
    let ghost all = file.hints@.map_values(|h: ConfigManagementHint| note_label(h.kind));
    let mut notes: Vec<String> = Vec::new();
    let mut i: usize = 0;
    while i < file.hints.len()
        invariant
            i <= file.hints@.len(),
            all == file.hints@.map_values(|h: ConfigManagementHint| note_label(h.kind)),
            strings_view(notes@) == first_occurrences(all.take(i as int)),
        decreases file.hints@.len() - i,
    {
        let note = friendly_connected_file_note(&file.hints[i].kind);
        assert(all.take(i + 1).drop_last() =~= all.take(i as int));
        assert(all.take(i + 1).last() == note@);
        if !contains_line(&notes, note) {
            push_line(&mut notes, note);
        }
        i = i + 1;
    }
    assert(all.take(i as int) =~= all);
    notes
}

/// The hint labels of a file's card: the label of each hint, each label
/// once, in the order the hints first give them.
pub open spec fn file_hint_lines(hints: Seq<ConfigManagementHint>) -> Seq<Seq<char>> {
    first_occurrences(hints.map_values(|h: ConfigManagementHint| hint_label(h.kind)))
}

pub fn connected_file_hint_lines(file: &ConfigGraphFile) -> (r: Vec<String>)
    ensures
        strings_view(r@) == file_hint_lines(file.hints@),
{
    let ghost all = file.hints@.map_values(|h: ConfigManagementHint| hint_label(h.kind));
    let mut lines: Vec<String> = Vec::new();
    let mut i: usize = 0;
    while i < file.hints.len()
        invariant
            i <= file.hints@.len(),
            all == file.hints@.map_values(|h: ConfigManagementHint| hint_label(h.kind)),
            strings_view(lines@) == first_occurrences(all.take(i as int)),
        decreases file.hints@.len() - i,
    {
        let label = friendly_config_hint_label(&file.hints[i].kind);
        assert(all.take(i + 1).drop_last() =~= all.take(i as int));
        assert(all.take(i + 1).last() == label@);
        if !contains_line(&lines, label) {
            push_line(&mut lines, label);
        }
        i = i + 1;
    }
    assert(all.take(i as int) =~= all);
    lines
}

/// A file's notes and its hint labels each list every label its hints give,
/// once, and nothing else.
pub proof fn law_file_labels_listed_once(hints: Seq<ConfigManagementHint>)
    ensures
        file_notes(hints).no_duplicates(),
        file_hint_lines(hints).no_duplicates(),
        forall|x: Seq<char>| #[trigger]
            file_notes(hints).contains(x) <==> exists|j: int|
                0 <= j < hints.len() && note_label((#[trigger] hints[j]).kind) == x,
        forall|x: Seq<char>| #[trigger]
            file_hint_lines(hints).contains(x) <==> exists|j: int|
                0 <= j < hints.len() && hint_label((#[trigger] hints[j]).kind) == x,
{
    let notes = hints.map_values(|h: ConfigManagementHint| note_label(h.kind));
    let labels = hints.map_values(|h: ConfigManagementHint| hint_label(h.kind));
    lemma_first_occurrences(notes);
    lemma_first_occurrences(labels);
    assert forall|x: Seq<char>| #[trigger] notes.contains(x) <==> exists|j: int|
        0 <= j < hints.len() && note_label((#[trigger] hints[j]).kind) == x by {
        if notes.contains(x) {
            let j = choose|j: int| 0 <= j < notes.len() && notes[j] == x;
            assert(note_label(hints[j].kind) == x);
        }
        if exists|j: int| 0 <= j < hints.len() && note_label((#[trigger] hints[j]).kind) == x {
            let j = choose|j: int| 0 <= j < hints.len() && note_label((#[trigger] hints[j]).kind) == x;
            assert(notes[j] == x);
        }
    }
    assert forall|x: Seq<char>| #[trigger] labels.contains(x) <==> exists|j: int|
        0 <= j < hints.len() && hint_label((#[trigger] hints[j]).kind) == x by {
        if labels.contains(x) {
            let j = choose|j: int| 0 <= j < labels.len() && labels[j] == x;
            assert(hint_label(hints[j].kind) == x);
        }
        if exists|j: int| 0 <= j < hints.len() && hint_label((#[trigger] hints[j]).kind) == x {
            let j = choose|j: int| 0 <= j < hints.len() && hint_label((#[trigger] hints[j]).kind) == x;
            assert(labels[j] == x);
        }
    }
}

// ---------------------------------------------------------------------
// The card of a file.
// ---------------------------------------------------------------------

/// A safety detail shown on a file card for a way the file may be managed
/// outside the app.
#[derive(Debug, Clone, Copy, PartialEq, Eq)]
pub struct BlockerDetail {
    pub widget_name: &'static str,
    pub title: &'static str,
    pub copy: &'static str,
    pub tooltip: &'static str,
}

pub open spec fn blocker_view(b: BlockerDetail) -> (Seq<char>, Seq<char>, Seq<char>, Seq<char>) {
    (b.widget_name@, b.title@, b.copy@, b.tooltip@)
}

pub open spec fn generated_blocker() -> (Seq<char>, Seq<char>, Seq<char>, Seq<char>) {
    (
        "hyprland-settings-connected-file-detail-generated"@,
        "Generated file detail"@,
        "This file may be generated. The app will not write it yet."@,
        "Generated connected-file blocker detail. This file may be generated. The app will not write it yet."@,
    )
}

pub open spec fn script_blocker() -> (Seq<char>, Seq<char>, Seq<char>, Seq<char>) {
    (
        "hyprland-settings-connected-file-detail-script-managed"@,
        "Script-managed file detail"@,
        "This file may be changed by a script. The app will not write it yet."@,
        "Script-managed connected-file blocker detail. This file may be changed by a script. The app will not write it yet."@,
    )
}

pub open spec fn symlink_blocker() -> (Seq<char>, Seq<char>, Seq<char>, Seq<char>) {
    (
        "hyprland-settings-connected-file-detail-symlink-current-profile"@,
        "Symlink/current-profile detail"@,
        "This file may be a symlink or current-profile file. The app will not write it yet."@,
        "Symlink current-profile connected-file blocker detail. This file may be a symlink or current-profile file. The app will not write it yet."@,
    )
}

/// The safety details of a file card: generated, script-managed, symlink or
/// current-profile, each where it applies, in that order.
pub open spec fn file_blockers(file: ConfigGraphFile) -> Seq<(Seq<char>, Seq<char>, Seq<char>, Seq<char>)> {
    (if has_hint(file.hints@, ConfigManagementHintKind::GeneratedFile) {
        seq![generated_blocker()]
    } else {
        seq![]
    }) + (if script_hinted(file.hints@) {
        seq![script_blocker()]
    } else {
        seq![]
    }) + (if symlink_like(file) {
        seq![symlink_blocker()]
    } else {
        seq![]
    })
}

fn push_blocker(out: &mut Vec<BlockerDetail>, b: BlockerDetail)
    ensures
        final(out)@.map_values(|x: BlockerDetail| blocker_view(x)) == old(out)@.map_values(
            |x: BlockerDetail| blocker_view(x),
        ).push(blocker_view(b)),
{
    let ghost before = out@;
    out.push(b);
    assert(out@.map_values(|x: BlockerDetail| blocker_view(x)) =~= before.map_values(
        |x: BlockerDetail| blocker_view(x),
    ).push(blocker_view(b)));
}

pub fn connected_file_blockers(file: &ConfigGraphFile) -> (r: Vec<BlockerDetail>)
    ensures
        r@.map_values(|x: BlockerDetail| blocker_view(x)) == file_blockers(*file),
{
    let mut out: Vec<BlockerDetail> = Vec::new();
    if connected_file_has_hint(file, ConfigManagementHintKind::GeneratedFile) {
        push_blocker(&mut out, BlockerDetail {
            widget_name: "hyprland-settings-connected-file-detail-generated",
            title: "Generated file detail",
            copy: "This file may be generated. The app will not write it yet.",
            tooltip: "Generated connected-file blocker detail. This file may be generated. The app will not write it yet.",
        });
    }
    if connected_file_has_script_hint(file) {
        push_blocker(&mut out, BlockerDetail {
            widget_name: "hyprland-settings-connected-file-detail-script-managed",
            title: "Script-managed file detail",
            copy: "This file may be changed by a script. The app will not write it yet.",
            tooltip: "Script-managed connected-file blocker detail. This file may be changed by a script. The app will not write it yet.",
        });
    }
    if file.is_symlink || connected_file_has_hint(file, ConfigManagementHintKind::SymlinkManaged) {
        push_blocker(&mut out, BlockerDetail {
            widget_name: "hyprland-settings-connected-file-detail-symlink-current-profile",
            title: "Symlink/current-profile detail",
            copy: "This file may be a symlink or current-profile file. The app will not write it yet.",
            tooltip: "Symlink current-profile connected-file blocker detail. This file may be a symlink or current-profile file. The app will not write it yet.",
        });
    }
    assert(out@.map_values(|x: BlockerDetail| blocker_view(x)) =~= file_blockers(*file));
    out
}

/// The head of a file card: its role, its path, the symlink target, a
/// note when it cannot be read, and its hint labels.
pub open spec fn card_head(file: ConfigGraphFile) -> Seq<DetailItemText> {
    seq![DetailItemText::Body(file_title(file)), DetailItemText::Small(file.path@)] + (match file.symlink_target {
        Some(t) => seq![DetailItemText::Small("Points to: "@ + t@)],
        None => seq![],
    }) + (if !file.readable {
        seq![DetailItemText::Small("Missing or unreadable"@)]
    } else {
        seq![]
    }) + file_hint_lines(file.hints@).map_values(|l: Seq<char>| DetailItemText::Small(l))
}

pub fn connected_file_card_items(file: &ConfigGraphFile) -> (r: Vec<DetailItem>)
    ensures
        items_text(r@) == card_head(*file),
{
    let mut items: Vec<DetailItem> = Vec::new();
    let title = connected_file_title(file);
    let ghost t = title@;
    items.push(DetailItem::Body(title));
    items.push(DetailItem::Small(file.path.clone()));
    assert(items_text(items@) =~= seq![DetailItemText::Body(t), DetailItemText::Small(file.path@)]);
    if let Some(target) = &file.symlink_target {
        let ghost before = items_text(items@);
        items.push(DetailItem::Small(concat2("Points to: ", target.as_str())));
        assert(items_text(items@) =~= before.push(DetailItemText::Small("Points to: "@ + target@)));
    }
    if !file.readable {
        let ghost before = items_text(items@);
        items.push(DetailItem::Small("Missing or unreadable".to_string()));
        assert(items_text(items@) =~= before.push(DetailItemText::Small("Missing or unreadable"@)));
    }
    let ghost head = items_text(items@);
    let lines = connected_file_hint_lines(file);
    let mut i: usize = 0;
    while i < lines.len()
        invariant
            i <= lines@.len(),
            items_text(items@) == head + strings_view(lines@).take(i as int).map_values(
                |l: Seq<char>| DetailItemText::Small(l),
            ),
        decreases lines@.len() - i,
    {
        let ghost before = items_text(items@);
        items.push(DetailItem::Small(lines[i].clone()));
        assert(strings_view(lines@).take(i + 1) =~= strings_view(lines@).take(i as int).push(
            lines@[i as int]@,
        ));
        assert(items_text(items@) =~= before.push(DetailItemText::Small(lines@[i as int]@)));
        assert(head + strings_view(lines@).take(i + 1).map_values(
            |l: Seq<char>| DetailItemText::Small(l),
        ) =~= before.push(DetailItemText::Small(lines@[i as int]@)));
        i = i + 1;
    }
    assert(strings_view(lines@).take(i as int) =~= strings_view(lines@));
    assert(items_text(items@) =~= card_head(*file));
    items
}

// ---------------------------------------------------------------------
// Where a file was connected from.
// ---------------------------------------------------------------------

/// Whether `std::path::Path`'s `==` finds the two paths, taken as text,
/// equal.
pub uninterp spec fn paths_equal(a: Seq<char>, b: Seq<char>) -> bool;

/// `Path::new(a) == Path::new(b)`. Paths compare by their components, so
/// equal text is an equal path; the rest of the comparison is named, not
/// described.
#[verifier::external_body]
pub(crate) fn path_eq(a: &str, b: &str) -> (r: bool)
    ensures
        r == paths_equal(a@, b@),
        a@ == b@ ==> r,
{
    std::path::Path::new(a) == std::path::Path::new(b)
}

/// A `source = ...` line of the graph and the file it names.
#[derive(Debug, Clone)]
pub struct ConfigSourceReference {
    pub source_file: String,
    pub line_number: usize,
    pub resolved_target: Option<String>,
}

/// The files connected to the reviewed config and what was found on the way.
#[derive(Debug, Clone)]
pub struct ConfigGraphSummary {
    pub files: Vec<ConfigGraphFile>,
    pub source_references: Vec<ConfigSourceReference>,
    pub multi_file: bool,
    pub connected_file_count: usize,
    pub unreadable_file_count: usize,
    /// The paths of the files that are missing or could not be read.
    pub unreadable_files: Vec<String>,
    /// How many `source` cycles the walk stopped at.
    pub cycle_count: usize,
    /// How many `source` lines use a pattern the walk does not follow.
    pub unsupported_source_count: usize,
    pub has_profile_hints: bool,
    pub has_mode_hints: bool,
    pub has_theme_hints: bool,
    pub has_script_managed_hints: bool,
    pub has_generated_hints: bool,
}

/// Whether `path` names the file: its path, its resolved path or the target
/// of its symlink.
pub open spec fn path_names_file(path: Seq<char>, file: ConfigGraphFile) -> bool {
    ||| paths_equal(path, file.path@)
    ||| file.resolved_path matches Some(p) && paths_equal(path, p@)
    ||| file.symlink_target matches Some(p) && paths_equal(path, p@)
}

pub fn paths_match_file(path: &str, file: &ConfigGraphFile) -> (r: bool)
    ensures
        r == path_names_file(path@, *file),
{
    if path_eq(path, file.path.as_str()) {
        return true;
    }
    if let Some(resolved) = &file.resolved_path {
        if path_eq(path, resolved.as_str()) {
            return true;
        }
    }
    if let Some(target) = &file.symlink_target {
        if path_eq(path, target.as_str()) {
            return true;
        }
    }
    false
}

/// Whether the `source` line resolves to the file.
pub open spec fn reference_names_file(r: ConfigSourceReference, file: ConfigGraphFile) -> bool {
    r.resolved_target matches Some(t) && path_names_file(t@, file)
}

/// The index of the first of `refs[i..]` that resolves to the file.
pub open spec fn first_reference(
    refs: Seq<ConfigSourceReference>,
    file: ConfigGraphFile,
    i: int,
) -> Option<int>
    decreases refs.len() - i,
{
    if i < 0 || i >= refs.len() {
        None
    } else if reference_names_file(refs[i], file) {
        Some(i)
    } else {
        first_reference(refs, file, i + 1)
    }
}

pub fn source_reference_for_file<'a>(
    file: &ConfigGraphFile,
    graph: &'a ConfigGraphSummary,
) -> (r: Option<&'a ConfigSourceReference>)
    ensures
        match first_reference(graph.source_references@, *file, 0) {
            Some(j) => r is Some && *r.unwrap() == graph.source_references@[j],
            None => r is None,
        },
{
    let refs = &graph.source_references;
    let mut i: usize = 0;
    while i < refs.len()
        invariant
            i <= refs@.len(),
            refs@ == graph.source_references@,
            first_reference(refs@, *file, 0) == first_reference(refs@, *file, i as int),
        decreases refs@.len() - i,
    {
        let reference = &refs[i];
        let found = match &reference.resolved_target {
            Some(target) => paths_match_file(target.as_str(), file),
            None => false,
        };
        assert(*reference == refs@[i as int]);
        assert(found == reference_names_file(refs@[i as int], *file));
        if found {
            assert(first_reference(refs@, *file, i as int) == Some(i as int));
            return Some(reference);
        }
        i = i + 1;
    }
    None
}

/// Where the file's card says it was connected from.
pub open spec fn source_summary(file: ConfigGraphFile, graph: ConfigGraphSummary) -> Seq<char> {
    if file.source_depth == 0 {
        "This is the selected config root."@
    } else {
        match first_reference(graph.source_references@, file, 0) {
            Some(j) => graph.source_references@[j].source_file@ + ", line "@ + decimal(
                graph.source_references@[j].line_number as nat,
            ),
            None => "The app found this file while reviewing connected configs."@,
        }
    }
}

pub fn connected_file_source_summary(file: &ConfigGraphFile, graph: &ConfigGraphSummary) -> (r:
    String)
    ensures
        r@ == source_summary(*file, *graph),
{
    if file.source_depth == 0 {
        return "This is the selected config root.".to_string();
    }
    match source_reference_for_file(file, graph) {
        None => "The app found this file while reviewing connected configs.".to_string(),
        Some(source) => {
            let mut text = String::new();
            append_str(&mut text, source.source_file.as_str());
            append_str(&mut text, ", line ");
            push_decimal(&mut text, source.line_number);
            text
        },
    }
}

// ---------------------------------------------------------------------
// The details of one file, and the lines about the whole graph.
// ---------------------------------------------------------------------

/// One labelled line of a file's details.
#[derive(Debug, Clone, PartialEq, Eq)]
pub struct DetailLine {
    pub label: String,
    pub value: String,
}

pub open spec fn detail_lines_view(lines: Seq<DetailLine>) -> Seq<(Seq<char>, Seq<char>)> {
    lines.map_values(|d: DetailLine| (d.label@, d.value@))
}

/// The details of a file card, in order.
pub open spec fn file_details(file: ConfigGraphFile, graph: ConfigGraphSummary) -> Seq<
    (Seq<char>, Seq<char>),
> {
    seq![
        ("Why this file is listed"@, file_reason(file)),
        ("Role"@, file_title(file)),
        ("Readable"@, if file.readable { "Yes"@ } else { "No"@ }),
        ("Symlink"@, if file.is_symlink { "Yes"@ } else { "No"@ }),
    ] + (match file.symlink_target {
        Some(t) => seq![("Points to"@, t@)],
        None => seq![],
    }) + seq![
        ("Connected from"@, source_summary(file, graph)),
        ("Notes"@, if file_notes(file.hints@).len() == 0 {
            "No extra notes were detected."@
        } else {
            joined(file_notes(file.hints@), "; "@)
        }),
    ]
}

fn push_detail(lines: &mut Vec<DetailLine>, label: &str, value: String)
    ensures
        detail_lines_view(final(lines)@) == detail_lines_view(old(lines)@).push((label@, value@)),
{
    let ghost before = lines@;
    let ghost v = value@;
    lines.push(DetailLine { label: label.to_string(), value });
    assert(detail_lines_view(lines@) =~= detail_lines_view(before).push((label@, v)));
}

pub fn connected_file_details(file: &ConfigGraphFile, graph: &ConfigGraphSummary) -> (r: Vec<
    DetailLine,
>)
    ensures
        detail_lines_view(r@) == file_details(*file, *graph),
{
    let mut lines: Vec<DetailLine> = Vec::new();
    push_detail(&mut lines, "Why this file is listed", connected_file_reason(file));
    push_detail(&mut lines, "Role", connected_file_title(file));
    push_detail(&mut lines, "Readable", connected_file_readable_label(file).to_string());
    push_detail(&mut lines, "Symlink", if file.is_symlink { "Yes".to_string() } else { "No".to_string() });
    if let Some(target) = &file.symlink_target {
        push_detail(&mut lines, "Points to", target.clone());
    }
    push_detail(&mut lines, "Connected from", connected_file_source_summary(file, graph));
    let notes = connected_file_notes(file);
    if notes.len() == 0 {
        push_detail(&mut lines, "Notes", "No extra notes were detected.".to_string());
    } else {
        push_detail(&mut lines, "Notes", join_lines(&notes, "; "));
    }
    assert(detail_lines_view(lines@) =~= file_details(*file, *graph));
    lines
}

/// Whether the graph holds profile, mode or theme files.
pub open spec fn profile_style(graph: ConfigGraphSummary) -> bool {
    graph.has_profile_hints || graph.has_mode_hints || graph.has_theme_hints
}

/// The summary lines of the connected-files review.
pub open spec fn graph_summary(graph: ConfigGraphSummary) -> Seq<Seq<char>> {
    (if graph.multi_file {
        seq![
            "This setup uses "@ + decimal(graph.connected_file_count as nat) + " config files."@,
            "Some files are connected through source/include lines."@,
        ]
    } else {
        seq!["No connected config files were detected."@]
    }) + (if graph.unreadable_file_count > 0 {
        seq![decimal(graph.unreadable_file_count as nat) + " connected file(s) could not be read."@]
    } else {
        seq![]
    }) + (if profile_style(graph) {
        seq!["Profile-style config files were detected."@]
    } else {
        seq![]
    }) + (if graph.has_script_managed_hints {
        seq!["Some files may be changed by scripts."@]
    } else {
        seq![]
    }) + (if graph.unsupported_source_count > 0 {
        seq!["Some connected files may not be shown yet."@]
    } else {
        seq![]
    }) + seq![
        "Connected-file review is read-only right now."@,
        "The app will review connected files before allowing changes."@,
    ]
}

/// `prefix`, the decimal text of `n`, then `suffix`.
fn number_line(prefix: &str, n: usize, suffix: &str) -> (r: String)
    ensures
        r@ == prefix@ + decimal(n as nat) + suffix@,
{
    let mut t = String::new();
    append_str(&mut t, prefix);
    push_decimal(&mut t, n);
    append_str(&mut t, suffix);
    t
}

pub fn friendly_config_graph_summary(graph: &ConfigGraphSummary) -> (r: Vec<String>)
    ensures
        strings_view(r@) == graph_summary(*graph),
{
    let mut lines: Vec<String> = Vec::new();
    if graph.multi_file {
        let first = number_line("This setup uses ", graph.connected_file_count, " config files.");
        let ghost f = first@;
        lines.push(first);
        assert(strings_view(lines@) =~= seq![f]);
        push_line(&mut lines, "Some files are connected through source/include lines.");
    } else {
        push_line(&mut lines, "No connected config files were detected.");
    }
    let ghost head = strings_view(lines@);
    if graph.unreadable_file_count > 0 {
        let mut line = String::new();
        push_decimal(&mut line, graph.unreadable_file_count);
        append_str(&mut line, " connected file(s) could not be read.");
        let ghost before = lines@;
        let ghost l = line@;
        lines.push(line);
        assert(strings_view(lines@) =~= strings_view(before).push(l));
    }
    if graph.has_profile_hints || graph.has_mode_hints || graph.has_theme_hints {
        push_line(&mut lines, "Profile-style config files were detected.");
    }
    if graph.has_script_managed_hints {
        push_line(&mut lines, "Some files may be changed by scripts.");
    }
    if graph.unsupported_source_count > 0 {
        push_line(&mut lines, "Some connected files may not be shown yet.");
    }
    push_line(&mut lines, "Connected-file review is read-only right now.");
    push_line(&mut lines, "The app will review connected files before allowing changes.");
    assert(strings_view(lines@) =~= graph_summary(*graph));
    lines
}

/// The warnings shown under the connected files: unreadable files, each by
/// path, cycles, patterns not followed, and files managed outside the app.
pub open spec fn issue_warnings(graph: ConfigGraphSummary) -> Seq<Seq<char>> {
    (if graph.unreadable_files@.len() > 0 {
        seq!["Some connected files could not be read."@, "Missing or unreadable:"@] + prefixed(
            "- "@,
            strings_view(graph.unreadable_files@),
        )
    } else {
        seq![]
    }) + (if graph.cycle_count > 0 {
        seq![
            "Some connected files refer back to each other."@,
            "The app stopped following them to avoid looping."@,
        ]
    } else {
        seq![]
    }) + (if graph.unsupported_source_count > 0 {
        seq!["Some connected file patterns are not shown yet."@]
    } else {
        seq![]
    }) + (if graph.has_generated_hints || graph.has_script_managed_hints {
        seq!["Review carefully before editing these files in a future version."@]
    } else {
        seq![]
    })
}

pub fn connected_file_issue_warnings(graph: &ConfigGraphSummary) -> (r: Vec<String>)
    ensures
        strings_view(r@) == issue_warnings(*graph),
{
    let mut lines: Vec<String> = Vec::new();
    if graph.unreadable_files.len() > 0 {
        push_line(&mut lines, "Some connected files could not be read.");
        push_line(&mut lines, "Missing or unreadable:");
        append_prefixed(&mut lines, "- ", &graph.unreadable_files);
    }
    if graph.cycle_count > 0 {
        push_line(&mut lines, "Some connected files refer back to each other.");
        push_line(&mut lines, "The app stopped following them to avoid looping.");
    }
    if graph.unsupported_source_count > 0 {
        push_line(&mut lines, "Some connected file patterns are not shown yet.");
    }
    if graph.has_generated_hints || graph.has_script_managed_hints {
        push_line(&mut lines, "Review carefully before editing these files in a future version.");
    }
    assert(strings_view(lines@) =~= issue_warnings(*graph));
    lines
}

// ---------------------------------------------------------------------
// Previewing another config file.
// ---------------------------------------------------------------------

/// What the user chose to review when picking another config file.
#[derive(Debug, Clone, Copy, PartialEq, Eq, Structural)]
pub enum SourceFollowChoice {
    ReviewAllConnectedFiles,
    OnlySelectedFile,
    Cancel,
}

/// Whether the graph walk follows `source` lines past the chosen file.
#[derive(Debug, Clone, Copy, PartialEq, Eq, Structural)]
pub enum SourceFollowPolicy {
    ReviewAll,
    OnlyRoot,
}

pub fn source_follow_policy_for_choice(choice: SourceFollowChoice) -> (r: SourceFollowPolicy)
    ensures
        r == if choice == SourceFollowChoice::ReviewAllConnectedFiles {
            SourceFollowPolicy::ReviewAll
        } else {
            SourceFollowPolicy::OnlyRoot
        },
{
    match choice {
        SourceFollowChoice::ReviewAllConnectedFiles => SourceFollowPolicy::ReviewAll,
        SourceFollowChoice::OnlySelectedFile | SourceFollowChoice::Cancel => {
            SourceFollowPolicy::OnlyRoot
        },
    }
}

pub open spec fn detected(b: bool) -> Seq<char> {
    if b {
        "detected"@
    } else {
        "not detected"@
    }
}

/// The preview lines for a chosen file, from the graph walked from it under
/// the policy of the choice.
pub open spec fn preview_summary(graph: ConfigGraphSummary, choice: SourceFollowChoice) -> Seq<
    Seq<char>,
> {
    if graph.files@.len() == 0 || !graph.files@[0].readable {
        seq!["This file could not be read for preview."@, "No changes were made."@]
    } else {
        seq![
            "Connected files found: "@ + decimal(graph.connected_file_count as nat),
            "Unreadable files: "@ + decimal(graph.unreadable_file_count as nat),
            "Profile-style files: "@ + detected(profile_style(graph)),
            "Script-managed hints: "@ + detected(graph.has_script_managed_hints),
            "Generated-file hints: "@ + detected(graph.has_generated_hints),
            "Cycles: "@ + detected(graph.cycle_count > 0),
            "Unsupported patterns: "@ + detected(graph.unsupported_source_count > 0),
        ] + if choice == SourceFollowChoice::OnlySelectedFile {
            seq!["Connected files are not included in this preview."@]
        } else {
            seq![]
        }
    }
}

fn detected_text(b: bool) -> (r: &'static str)
    ensures
        r@ == detected(b),
{
    if b {
        "detected"
    } else {
        "not detected"
    }
}

fn push_owned(lines: &mut Vec<String>, line: String)
    ensures
        strings_view(final(lines)@) == strings_view(old(lines)@).push(line@),
{
    let ghost before = lines@;
    let ghost l = line@;
    lines.push(line);
    assert(strings_view(lines@) =~= strings_view(before).push(l));
}

fn number_text(prefix: &str, n: usize) -> (r: String)
    ensures
        r@ == prefix@ + decimal(n as nat),
{
    let mut t = String::new();
    append_str(&mut t, prefix);
    push_decimal(&mut t, n);
    t
}

pub fn selected_file_preview_summary_lines(
    graph: &ConfigGraphSummary,
    source_follow_choice: SourceFollowChoice,
) -> (r: Vec<String>)
    ensures
        strings_view(r@) == preview_summary(*graph, source_follow_choice),
{
    let mut lines: Vec<String> = Vec::new();
    if graph.files.len() == 0 || !graph.files[0].readable {
        push_line(&mut lines, "This file could not be read for preview.");
        push_line(&mut lines, "No changes were made.");
        assert(strings_view(lines@) =~= preview_summary(*graph, source_follow_choice));
        return lines;
    }
    push_owned(&mut lines, number_text("Connected files found: ", graph.connected_file_count));
    push_owned(&mut lines, number_text("Unreadable files: ", graph.unreadable_file_count));
    let profile = graph.has_profile_hints || graph.has_mode_hints || graph.has_theme_hints;
    push_owned(&mut lines, concat2("Profile-style files: ", detected_text(profile)));
    push_owned(
        &mut lines,
        concat2("Script-managed hints: ", detected_text(graph.has_script_managed_hints)),
    );
    push_owned(
        &mut lines,
        concat2("Generated-file hints: ", detected_text(graph.has_generated_hints)),
    );
    push_owned(&mut lines, concat2("Cycles: ", detected_text(graph.cycle_count > 0)));
    push_owned(
        &mut lines,
        concat2("Unsupported patterns: ", detected_text(graph.unsupported_source_count > 0)),
    );
    if source_follow_choice == SourceFollowChoice::OnlySelectedFile {
        push_line(&mut lines, "Connected files are not included in this preview.");
    }
    assert(strings_view(lines@) =~= preview_summary(*graph, source_follow_choice));
    lines
}

// ---------------------------------------------------------------------
// The detected config.
// ---------------------------------------------------------------------

/// What config discovery found at the expected locations.
#[derive(Debug, Clone, PartialEq, Eq)]
pub enum ConfigDiscoveryStatus {
    Found { path: String },
    Missing,
    Unreadable { path: String },
    NotAFile { path: String },
}

/// The outcome of config discovery.
#[derive(Debug, Clone, PartialEq, Eq)]
pub struct ConfigDiscovery {
    pub status: ConfigDiscoveryStatus,
}

pub open spec fn path_summary(status: ConfigDiscoveryStatus) -> Seq<char> {
    match status {
        ConfigDiscoveryStatus::Found { path } => path@,
        ConfigDiscoveryStatus::Missing => "No Hyprland config file was detected."@,
        ConfigDiscoveryStatus::Unreadable { path } => path@ + " could not be read."@,
        ConfigDiscoveryStatus::NotAFile { path } => path@ + " is not a regular file."@,
    }
}

pub fn config_path_summary(discovery: &ConfigDiscovery) -> (r: String)
    ensures
        r@ == path_summary(discovery.status),
{
    match &discovery.status {
        ConfigDiscoveryStatus::Found { path } => path.clone(),
        ConfigDiscoveryStatus::Missing => "No Hyprland config file was detected.".to_string(),
        ConfigDiscoveryStatus::Unreadable { path } => concat2(path.as_str(), " could not be read."),
        ConfigDiscoveryStatus::NotAFile { path } => concat2(path.as_str(), " is not a regular file."),
    }
}

pub open spec fn scaffold_lines(status: ConfigDiscoveryStatus) -> Seq<Seq<char>> {
    seq![
        "Using:"@,
        path_summary(status),
        "Auto-detection is a starting point."@,
        "Choose another config file to review."@,
        "This has not changed what the app will write."@,
        "The selected file is preview-only until a future review step."@,
    ]
}

pub fn config_selection_scaffold_lines(discovery: &ConfigDiscovery) -> (r: Vec<String>)
    ensures
        strings_view(r@) == scaffold_lines(discovery.status),
{
    let mut lines: Vec<String> = Vec::new();
    push_line(&mut lines, "Using:");
    push_owned(&mut lines, config_path_summary(discovery));
    push_line(&mut lines, "Auto-detection is a starting point.");
    push_line(&mut lines, "Choose another config file to review.");
    push_line(&mut lines, "This has not changed what the app will write.");
    push_line(&mut lines, "The selected file is preview-only until a future review step.");
    assert(strings_view(lines@) =~= scaffold_lines(discovery.status));
    lines
}

/// The config file the next save would write: the detected one, if any.
pub fn pending_target_config_path(discovery: &ConfigDiscovery) -> (r: Option<String>)
    ensures
        match discovery.status {
            ConfigDiscoveryStatus::Found { path } => r is Some && r->0@ == path@,
            _ => r is None,
        },
{
    match &discovery.status {
        ConfigDiscoveryStatus::Found { path } => Some(path.clone()),
        _ => None,
    }
}

} // verus!
