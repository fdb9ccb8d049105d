//! The window's model of a validated bundle: tabs in order, one row per
//! setting with its current value and edit state, the active write
//! candidates, and the detail shown for a selected row.
use vstd::prelude::*;
use crate::config_parser::ParsedConfigLine;
use crate::current_config::{CurrentValueProjection, CurrentValueSourceStatus};
use crate::export::{ExportBundle, InventoryEntry, TabEntry, WriteCandidateEntry};
use crate::id_list::{ascending, contains_id, distinct_ids, ids_view, sort_ids, strings_view, to_strings};
use crate::lines::{copy_strings, push_line, push_prefixed};
use crate::stable_sort::{lemma_stable_order, stable_order, stable_sort_by_keys};
use crate::text::{contains_seq, str_contains, str_eq};
use crate::validation::{inventory_id_chars, inventory_ids, write_id_chars, write_ids, ValidationSummary};
use crate::write_flow::SettingEditProjection;
use crate::ui::advisory::{
    is_screen_shader_projection, is_widget_projection_for, screen_shader_advisory_gtk_widget_projection,
    screen_shader_advisory_projection, screen_shader_row,
};
pub use crate::ui::advisory::{
    AdvisoryStatus, ScreenShaderAdvisoryGtkWidgetProjection, ScreenShaderAdvisoryRequest,
    ScreenShaderAdvisoryResult, ScreenShaderAdvisorySelectedFileUiActionRequest,
    ScreenShaderAdvisoryUiActionRender, ScreenShaderAdvisoryUiActionRequest,
    ScreenShaderAdvisoryUiProjection, ScreenShaderAdvisoryUiResultState,
    initial_screen_shader_advisory_ui_action, run_screen_shader_advisory_selected_file_ui_action,
    run_screen_shader_advisory_ui_action, running_screen_shader_advisory_ui_action,
};

verus! {

// ---------------------------------------------------------------------
// Tabs and write candidates.
// ---------------------------------------------------------------------

#[derive(Debug, Clone)]
pub struct UiTab {
    pub id: String,
    pub label: String,
    pub order: usize,
    pub row_count: usize,
}

pub open spec fn ui_tab(t: TabEntry) -> UiTab {
    UiTab { id: t.tab_id, label: t.tab_label, order: t.tab_order, row_count: t.row_count }
}

impl<'a> From<&'a TabEntry> for UiTab {
    fn from(tab: &'a TabEntry) -> (r: UiTab) {
        UiTab {
            id: tab.tab_id.clone(),
            label: tab.tab_label.clone(),
            order: tab.tab_order,
            row_count: tab.row_count,
        }
    }
}

impl<'a> vstd::std_specs::convert::FromSpecImpl<&'a TabEntry> for UiTab {
    open spec fn obeys_from_spec() -> bool {
        true
    }

    open spec fn from_spec(tab: &'a TabEntry) -> UiTab {
        ui_tab(*tab)
    }
}

#[derive(Debug, Clone)]
pub struct UiWriteCandidate {
    pub row_id: String,
    pub target_mode: String,
    pub executable: bool,
    pub command_generation_allowed: bool,
}

pub open spec fn ui_write_candidate(e: WriteCandidateEntry) -> UiWriteCandidate {
    UiWriteCandidate {
        row_id: e.row_id,
        target_mode: e.target_mode,
        executable: e.executable,
        command_generation_allowed: e.command_generation_allowed,
    }
}

/// The order of the first tab with id `id`, or `usize::MAX` where there is
/// none.
pub open spec fn tab_order_in(tabs: Seq<UiTab>, id: Seq<char>) -> usize
    decreases tabs.len(),
{
    if tabs.len() == 0 {
        usize::MAX
    } else if tabs[0].id@ == id {
        tabs[0].order
    } else {
        tab_order_in(tabs.drop_first(), id)
    }
}

fn tab_order_of(tabs: &Vec<UiTab>, id: &str) -> (r: usize)
    ensures
        r == tab_order_in(tabs@, id@),
{
    let mut i: usize = 0;
    assert(tabs@.skip(0) =~= tabs@);
    while i < tabs.len()
        invariant
            i <= tabs@.len(),
            tab_order_in(tabs@, id@) == tab_order_in(tabs@.skip(i as int), id@),
        decreases tabs@.len() - i,
    {
        assert(tabs@.skip(i as int)[0] == tabs@[i as int]);
        assert(tabs@.skip(i as int).drop_first() =~= tabs@.skip(i + 1));
        if str_eq(tabs[i].id.as_str(), id) {
            return tabs[i].order;
        }
        i = i + 1;
    }
    usize::MAX
}

// ---------------------------------------------------------------------
// Comparison with the default.
// ---------------------------------------------------------------------

#[derive(Debug, Clone)]
pub struct ComparisonProjection {
    pub badge: String,
    pub detail: String,
}

/// How the default is described: the export's note, or a fixed sentence
/// where the default value is not exported.
pub open spec fn default_detail(default_config_presence: Seq<char>) -> Seq<char> {
    if default_config_presence == "not-exported"@ {
        "official default value is not exported"@
    } else {
        default_config_presence
    }
}

pub open spec fn comparison_badge(s: CurrentValueSourceStatus) -> Seq<char> {
    match s {
        CurrentValueSourceStatus::Configured => "User configured"@,
        CurrentValueSourceStatus::DuplicateConflict => "Conflict"@,
        CurrentValueSourceStatus::NotConfigured => "Default"@,
        CurrentValueSourceStatus::ReadUnavailable => "Read unavailable"@,
    }
}

pub open spec fn comparison_lead(s: CurrentValueSourceStatus) -> Seq<char> {
    match s {
        CurrentValueSourceStatus::Configured => "user override present; "@,
        CurrentValueSourceStatus::DuplicateConflict => "duplicate user config entries; "@,
        CurrentValueSourceStatus::NotConfigured => "no user override found; "@,
        CurrentValueSourceStatus::ReadUnavailable => "user config was not parsed; "@,
    }
}

/// `c` compares a current value in state `s` with the default described by
/// `default_config_presence`.
pub open spec fn compares(
    c: ComparisonProjection,
    default_config_presence: Seq<char>,
    s: CurrentValueSourceStatus,
) -> bool {
    &&& c.badge@ == comparison_badge(s)
    &&& c.detail@ == comparison_lead(s) + default_detail(default_config_presence)
}

impl ComparisonProjection {
    fn from_current_value(default_config_presence: &str, current_value: &CurrentValueProjection) -> (r:
        ComparisonProjection)
        ensures
            compares(r, default_config_presence@, current_value.status),
    {
        let default_detail: &str = if str_eq(default_config_presence, "not-exported") {
            "official default value is not exported"
        } else {
            default_config_presence
        };
        let (badge, lead): (&str, &str) = match current_value.status {
            CurrentValueSourceStatus::Configured => ("User configured", "user override present; "),
            CurrentValueSourceStatus::DuplicateConflict => (
                "Conflict",
                "duplicate user config entries; ",
            ),
            CurrentValueSourceStatus::NotConfigured => ("Default", "no user override found; "),
            CurrentValueSourceStatus::ReadUnavailable => (
                "Read unavailable",
                "user config was not parsed; ",
            ),
        };
        ComparisonProjection {
            badge: badge.to_owned(),
            detail: crate::text::concat2(lead, default_detail),
        }
    }

    /// An equal copy.
    pub fn duplicate(&self) -> (r: ComparisonProjection)
        ensures
            r == *self,
    {
        ComparisonProjection { badge: self.badge.clone(), detail: self.detail.clone() }
    }
}

// ---------------------------------------------------------------------
// Settings.
// ---------------------------------------------------------------------

/// What the configuration gives for one inventory row: the value under the
/// row's own id, the value under its official setting name, and whether it
/// can be edited.
#[derive(Debug, Clone)]
pub struct UiRowInputs {
    pub row_value: CurrentValueProjection,
    pub official_value: CurrentValueProjection,
    pub edit: SettingEditProjection,
}

/// The row's own value where the configuration says anything of it, else
/// the value under the official setting name.
pub open spec fn current_value_of(inputs: UiRowInputs) -> CurrentValueProjection {
    if inputs.row_value.status != CurrentValueSourceStatus::NotConfigured {
        inputs.row_value
    } else {
        inputs.official_value
    }
}

#[derive(Debug, Clone)]
pub struct UiSetting {
    pub row_id: String,
    pub official_setting: String,
    pub tab_id: String,
    pub tab_label: String,
    pub subsection: String,
    pub row_order: usize,
    pub label: String,
    pub description: String,
    pub default_config_presence: String,
    pub read_support: String,
    pub write_support: String,
    pub risk_class: String,
    pub preview_status: String,
    pub report_only: bool,
    pub is_write_candidate: bool,
    pub current_value: CurrentValueProjection,
    pub comparison: ComparisonProjection,
    pub edit: SettingEditProjection,
}

/// `s` is the setting row of inventory entry `e`, given the ids of the
/// active write candidates and what the configuration gives for the row.
pub open spec fn is_setting_for(
    s: UiSetting,
    e: InventoryEntry,
    write_ids: Seq<Seq<char>>,
    inputs: UiRowInputs,
) -> bool {
    &&& s.row_id == e.row_id
    &&& s.official_setting == e.official_setting
    &&& s.tab_id == e.tab_id
    &&& s.tab_label == e.tab_label
    &&& s.subsection == e.subsection
    &&& s.row_order == e.row_order
    &&& s.label == e.label
    &&& s.description == e.description
    &&& s.default_config_presence == e.default_config_presence
    &&& s.read_support == e.read_support
    &&& s.write_support == e.write_support
    &&& s.risk_class == e.risk_class
    &&& s.preview_status == e.preview_status
    &&& s.report_only == e.report_only
    &&& s.is_write_candidate == write_ids.contains(e.row_id@)
    &&& s.current_value == current_value_of(inputs)
    &&& compares(s.comparison, e.default_config_presence@, current_value_of(inputs).status)
    &&& s.edit == inputs.edit
}

impl UiSetting {
    fn from_entry(entry: &InventoryEntry, write_ids: &Vec<Vec<char>>, inputs: &UiRowInputs) -> (r:
        UiSetting)
        ensures
            is_setting_for(r, *entry, ids_view(write_ids@), *inputs),
    {
        let current_value = if !matches!(
            inputs.row_value.status,
            CurrentValueSourceStatus::NotConfigured
        ) {
            inputs.row_value.duplicate()
        } else {
            inputs.official_value.duplicate()
        };
        let id_chars = crate::id_list::string_chars(&entry.row_id);
        let is_write_candidate = contains_id(write_ids, 0, write_ids.len(), &id_chars);
        assert(ids_view(write_ids@).subrange(0, write_ids@.len() as int) =~= ids_view(write_ids@));
        let comparison = ComparisonProjection::from_current_value(
            entry.default_config_presence.as_str(),
            &current_value,
        );
        UiSetting {
            row_id: entry.row_id.clone(),
            official_setting: entry.official_setting.clone(),
            tab_id: entry.tab_id.clone(),
            tab_label: entry.tab_label.clone(),
            subsection: entry.subsection.clone(),
            row_order: entry.row_order,
            label: entry.label.clone(),
            description: entry.description.clone(),
            default_config_presence: entry.default_config_presence.clone(),
            read_support: entry.read_support.clone(),
            write_support: entry.write_support.clone(),
            risk_class: entry.risk_class.clone(),
            preview_status: entry.preview_status.clone(),
            report_only: entry.report_only,
            is_write_candidate,
            current_value,
            comparison,
            edit: inputs.edit.duplicate(),
        }
    }

    /// An equal copy.
    pub fn duplicate(&self) -> (r: UiSetting)
        ensures
            r == *self,
    {
        UiSetting {
            row_id: self.row_id.clone(),
            official_setting: self.official_setting.clone(),
            tab_id: self.tab_id.clone(),
            tab_label: self.tab_label.clone(),
            subsection: self.subsection.clone(),
            row_order: self.row_order,
            label: self.label.clone(),
            description: self.description.clone(),
            default_config_presence: self.default_config_presence.clone(),
            read_support: self.read_support.clone(),
            write_support: self.write_support.clone(),
            risk_class: self.risk_class.clone(),
            preview_status: self.preview_status.clone(),
            report_only: self.report_only,
            is_write_candidate: self.is_write_candidate,
            current_value: self.current_value.duplicate(),
            comparison: self.comparison.duplicate(),
            edit: self.edit.duplicate(),
        }
    }
}

// ---------------------------------------------------------------------
// Current value summary.
// ---------------------------------------------------------------------

#[derive(Debug, Clone, PartialEq, Eq)]
pub struct UiCurrentValueSummary {
    pub total_rows: usize,
    pub readable_rows: usize,
    pub unreadable_rows: usize,
    pub configured_rows: usize,
    pub unconfigured_rows: usize,
    pub duplicate_conflict_rows: usize,
    pub parser_warning_rows: usize,
}

/// How many of `s` have a current value in state `st`.
pub open spec fn count_status(s: Seq<UiSetting>, st: CurrentValueSourceStatus) -> nat
    decreases s.len(),
{
    if s.len() == 0 {
        0
    } else {
        count_status(s.drop_last(), st) + if s.last().current_value.status == st {
            1nat
        } else {
            0nat
        }
    }
}

/// How many of `s` have a parser warning on their current value.
pub open spec fn count_warned(s: Seq<UiSetting>) -> nat
    decreases s.len(),
{
    if s.len() == 0 {
        0
    } else {
        count_warned(s.drop_last()) + if s.last().current_value.warning is Some {
            1nat
        } else {
            0nat
        }
    }
}

/// `v` counts the current values of `s`.
pub open spec fn summarizes(v: UiCurrentValueSummary, s: Seq<UiSetting>) -> bool {
    &&& v.total_rows == s.len()
    &&& v.unreadable_rows == count_status(s, CurrentValueSourceStatus::ReadUnavailable)
    &&& v.readable_rows == s.len() - count_status(s, CurrentValueSourceStatus::ReadUnavailable)
    &&& v.configured_rows == count_status(s, CurrentValueSourceStatus::Configured)
    &&& v.unconfigured_rows == count_status(s, CurrentValueSourceStatus::NotConfigured)
    &&& v.duplicate_conflict_rows == count_status(s, CurrentValueSourceStatus::DuplicateConflict)
    &&& v.parser_warning_rows == count_warned(s)
}

/// The four states partition the rows.
pub proof fn lemma_status_partition(s: Seq<UiSetting>)
    ensures
        count_status(s, CurrentValueSourceStatus::Configured) + count_status(
            s,
            CurrentValueSourceStatus::DuplicateConflict,
        ) + count_status(s, CurrentValueSourceStatus::NotConfigured) + count_status(
            s,
            CurrentValueSourceStatus::ReadUnavailable,
        ) == s.len(),
        count_warned(s) <= s.len(),
    decreases s.len(),
{
    if s.len() > 0 {
        lemma_status_partition(s.drop_last());
    }
}

fn current_value_summary_from_settings(settings: &Vec<UiSetting>) -> (r: UiCurrentValueSummary)
    ensures
        summarizes(r, settings@),
{
    let mut configured: usize = 0;
    let mut unconfigured: usize = 0;
    let mut conflicts: usize = 0;
    let mut unreadable: usize = 0;
    let mut warned: usize = 0;
    let mut i: usize = 0;
    while i < settings.len()
        invariant
            i <= settings@.len(),
            configured == count_status(settings@.take(i as int), CurrentValueSourceStatus::Configured),
            unconfigured == count_status(
                settings@.take(i as int),
                CurrentValueSourceStatus::NotConfigured,
            ),
            conflicts == count_status(
                settings@.take(i as int),
                CurrentValueSourceStatus::DuplicateConflict,
            ),
            unreadable == count_status(
                settings@.take(i as int),
                CurrentValueSourceStatus::ReadUnavailable,
            ),
            warned == count_warned(settings@.take(i as int)),
        decreases settings@.len() - i,
    {
        proof {
            lemma_status_partition(settings@.take(i as int));
            assert(settings@.take(i + 1).drop_last() =~= settings@.take(i as int));
        }
        match settings[i].current_value.status {
            CurrentValueSourceStatus::Configured => configured = configured + 1,
            CurrentValueSourceStatus::NotConfigured => unconfigured = unconfigured + 1,
            CurrentValueSourceStatus::DuplicateConflict => conflicts = conflicts + 1,
            CurrentValueSourceStatus::ReadUnavailable => unreadable = unreadable + 1,
        }
        if settings[i].current_value.warning.is_some() {
            warned = warned + 1;
        }
        i = i + 1;
    }
    proof {
        assert(settings@.take(i as int) =~= settings@);
        lemma_status_partition(settings@);
    }
    UiCurrentValueSummary {
        total_rows: settings.len(),
        readable_rows: settings.len() - unreadable,
        unreadable_rows: unreadable,
        configured_rows: configured,
        unconfigured_rows: unconfigured,
        duplicate_conflict_rows: conflicts,
        parser_warning_rows: warned,
    }
}

// ---------------------------------------------------------------------
// Structured families.
// ---------------------------------------------------------------------

#[derive(Debug, Clone, PartialEq, Eq)]
pub struct UiStructuredEntry {
    pub source_path: String,
    pub line_number: usize,
    pub raw_line: String,
    pub parser_status: String,
    pub warning: Option<String>,
}

#[derive(Debug, Clone, PartialEq, Eq)]
pub struct UiStructuredFamily {
    pub family_id: String,
    pub label: String,
    pub entries: Vec<UiStructuredEntry>,
    pub warning_count: usize,
    pub edit_status: String,
    pub syntax_description: String,
    pub field_schema: Vec<String>,
    pub projection_status: String,
    pub fixture_parse_proof_status: String,
    pub fixture_render_proof_status: String,
    pub family_specific_validation_status: String,
    pub temp_write_plan_status: String,
    pub temp_fixture_render_reread_status: String,
    pub path_guard_status: String,
    pub real_config_target_status: String,
    pub runtime_mutation_status: String,
    pub reload_status: String,
    pub write_status: String,
    pub widget_name: String,
    pub review_button_label: String,
    pub unproven_record_count: usize,
}

/// A preserved configuration line shown as a structured entry.
pub fn structured_entry_from_record(record: &ParsedConfigLine) -> (r: UiStructuredEntry)
    ensures
        r.source_path == record.path,
        r.line_number == record.line_number,
        r.raw_line == record.raw_line,
        r.parser_status@ == "preserved raw structured entry"@,
        r.warning == record.warning,
{
    UiStructuredEntry {
        source_path: record.path.clone(),
        line_number: record.line_number,
        raw_line: record.raw_line.clone(),
        parser_status: "preserved raw structured entry".to_owned(),
        warning: record.warning.clone(),
    }
}

// ---------------------------------------------------------------------
// The projection.
// ---------------------------------------------------------------------

#[derive(Debug)]
pub struct UiProjection {
    pub export_dir: String,
    pub hyprland_version: String,
    pub schema_version: u32,
    pub summary: ValidationSummary,
    /// The inventory row ids, each once, in ascending order.
    pub known_setting_ids: Vec<String>,
    pub tabs: Vec<UiTab>,
    pub settings: Vec<UiSetting>,
    pub active_write_candidates: Vec<UiWriteCandidate>,
    pub structured_families: Vec<UiStructuredFamily>,
    pub current_value_summary: UiCurrentValueSummary,
}

/// Tabs are ordered by their order.
pub open spec fn tab_keys(tabs: Seq<TabEntry>) -> Seq<(usize, usize)> {
    tabs.map_values(|t: TabEntry| (t.tab_order, 0usize))
}

/// Settings are ordered by the order of their tab, then by their row order.
pub open spec fn setting_keys(entries: Seq<InventoryEntry>, tabs: Seq<UiTab>) -> Seq<(usize, usize)> {
    entries.map_values(|e: InventoryEntry| (tab_order_in(tabs, e.tab_id@), e.row_order))
}

/// The settings of one tab are ordered by their row order.
pub open spec fn row_keys(settings: Seq<UiSetting>) -> Seq<(usize, usize)> {
    settings.map_values(|s: UiSetting| (s.row_order, 0usize))
}

/// `v` carries the same counts and ids as `s`.
pub open spec fn same_summary(v: ValidationSummary, s: ValidationSummary) -> bool {
    &&& v.inventory_rows == s.inventory_rows
    &&& v.official_scalar_covered == s.official_scalar_covered
    &&& v.official_scalar_total == s.official_scalar_total
    &&& v.read_allowlist_rows == s.read_allowlist_rows
    &&& v.non_read_rows == s.non_read_rows
    &&& v.preview_parser_needed_rows == s.preview_parser_needed_rows
    &&& v.report_only_high_risk_rows == s.report_only_high_risk_rows
    &&& v.safe_parsed_preview_candidates == s.safe_parsed_preview_candidates
    &&& v.warning_preview_candidates == s.warning_preview_candidates
    &&& v.deferred_parser_rows == s.deferred_parser_rows
    &&& v.active_write_candidate_ids@ == s.active_write_candidate_ids@
    &&& v.structured_family_count == s.structured_family_count
}

/// The settings of tab `tab_id`, in their order within `s`.
pub open spec fn settings_of_tab(s: Seq<UiSetting>, tab_id: Seq<char>) -> Seq<UiSetting>
    decreases s.len(),
{
    if s.len() == 0 {
        seq![]
    } else if s.last().tab_id@ == tab_id {
        settings_of_tab(s.drop_last(), tab_id).push(s.last())
    } else {
        settings_of_tab(s.drop_last(), tab_id)
    }
}

/// The first setting with row id `row_id`.
pub open spec fn first_setting(s: Seq<UiSetting>, row_id: Seq<char>) -> Option<UiSetting>
    decreases s.len(),
{
    if s.len() == 0 {
        None
    } else if s[0].row_id@ == row_id {
        Some(s[0])
    } else {
        first_setting(s.drop_first(), row_id)
    }
}

/// The first write candidate with row id `row_id`.
pub open spec fn first_candidate(c: Seq<UiWriteCandidate>, row_id: Seq<char>) -> Option<UiWriteCandidate>
    decreases c.len(),
{
    if c.len() == 0 {
        None
    } else if c[0].row_id@ == row_id {
        Some(c[0])
    } else {
        first_candidate(c.drop_first(), row_id)
    }
}

fn copy_summary(s: &ValidationSummary) -> (r: ValidationSummary)
    ensures
        same_summary(r, *s),
{
    ValidationSummary {
        inventory_rows: s.inventory_rows,
        official_scalar_covered: s.official_scalar_covered,
        official_scalar_total: s.official_scalar_total,
        read_allowlist_rows: s.read_allowlist_rows,
        non_read_rows: s.non_read_rows,
        preview_parser_needed_rows: s.preview_parser_needed_rows,
        report_only_high_risk_rows: s.report_only_high_risk_rows,
        safe_parsed_preview_candidates: s.safe_parsed_preview_candidates,
        warning_preview_candidates: s.warning_preview_candidates,
        deferred_parser_rows: s.deferred_parser_rows,
        active_write_candidate_ids: copy_strings(&s.active_write_candidate_ids),
        structured_family_count: s.structured_family_count,
    }
}

/// The tabs of the inventory, in order.
fn ordered_tabs(tabs: &Vec<TabEntry>) -> (r: Vec<UiTab>)
    ensures
        r@ == stable_order(tab_keys(tabs@)).map_values(|j: int| ui_tab(tabs@[j])),
{
    let mut unsorted: Vec<UiTab> = Vec::new();
    let mut keys: Vec<(usize, usize)> = Vec::new();
    let mut i: usize = 0;
    while i < tabs.len()
        invariant
            i <= tabs@.len(),
            unsorted@ == tabs@.take(i as int).map_values(|t: TabEntry| ui_tab(t)),
            keys@ == tab_keys(tabs@.take(i as int)),
        decreases tabs@.len() - i,
    {
        unsorted.push(UiTab::from(&tabs[i]));
        keys.push((tabs[i].tab_order, 0));
        assert(unsorted@ =~= tabs@.take(i + 1).map_values(|t: TabEntry| ui_tab(t)));
        assert(keys@ =~= tab_keys(tabs@.take(i + 1)));
        i = i + 1;
    }
    assert(tabs@.take(i as int) =~= tabs@);
    let ghost u = unsorted@;
    let r = stable_sort_by_keys(unsorted, &keys);
    proof {
        lemma_stable_order(tab_keys(tabs@));
        let o = stable_order(tab_keys(tabs@));
        assert forall|k: int| 0 <= k < r@.len() implies r@[k] == ui_tab(tabs@[o[k]]) by {
            assert(0 <= o[k] < tabs@.len());
            assert(u[o[k]] == ui_tab(tabs@[o[k]]));
        }
        assert(r@ =~= o.map_values(|j: int| ui_tab(tabs@[j])));
    }
    r
}

/// The active write candidates of the bundle, in order.
fn write_candidates(entries: &Vec<WriteCandidateEntry>) -> (r: Vec<UiWriteCandidate>)
    ensures
        r@ == entries@.map_values(|e: WriteCandidateEntry| ui_write_candidate(e)),
{
    let mut r: Vec<UiWriteCandidate> = Vec::new();
    let mut i: usize = 0;
    while i < entries.len()
        invariant
            i <= entries@.len(),
            r@ == entries@.take(i as int).map_values(|e: WriteCandidateEntry| ui_write_candidate(e)),
        decreases entries@.len() - i,
    {
        let e = &entries[i];
        r.push(
            UiWriteCandidate {
                row_id: e.row_id.clone(),
                target_mode: e.target_mode.clone(),
                executable: e.executable,
                command_generation_allowed: e.command_generation_allowed,
            },
        );
        assert(r@ =~= entries@.take(i + 1).map_values(|e: WriteCandidateEntry| ui_write_candidate(e)));
        i = i + 1;
    }
    assert(entries@.take(i as int) =~= entries@);
    r
}

/// The setting rows of the inventory, ordered by tab and row order.
fn ordered_settings(
    entries: &Vec<InventoryEntry>,
    write_ids: &Vec<Vec<char>>,
    rows: &Vec<UiRowInputs>,
    tabs: &Vec<UiTab>,
) -> (r: Vec<UiSetting>)
    requires
        rows.len() == entries.len(),
    ensures
        r@.len() == entries@.len(),
        forall|k: int|
            0 <= k < r@.len() ==> {
                let j = #[trigger] stable_order(setting_keys(entries@, tabs@))[k];
                is_setting_for(r@[k], entries@[j], ids_view(write_ids@), rows@[j])
            },
{
    let mut unsorted: Vec<UiSetting> = Vec::new();
    let mut keys: Vec<(usize, usize)> = Vec::new();
    let mut i: usize = 0;
    while i < entries.len()
        invariant
            i <= entries@.len(),
            rows@.len() == entries@.len(),
            unsorted@.len() == i,
            forall|j: int|
                0 <= j < i ==> is_setting_for(
                    #[trigger] unsorted@[j],
                    entries@[j],
                    ids_view(write_ids@),
                    rows@[j],
                ),
            keys@ == setting_keys(entries@.take(i as int), tabs@),
        decreases entries@.len() - i,
    {
        let e = &entries[i];
        unsorted.push(UiSetting::from_entry(e, write_ids, &rows[i]));
        keys.push((tab_order_of(tabs, e.tab_id.as_str()), e.row_order));
        assert(keys@ =~= setting_keys(entries@.take(i + 1), tabs@));
        i = i + 1;
    }
    assert(entries@.take(i as int) =~= entries@);
    let ghost u = unsorted@;
    let r = stable_sort_by_keys(unsorted, &keys);
    proof {
        lemma_stable_order(setting_keys(entries@, tabs@));
        let o = stable_order(setting_keys(entries@, tabs@));
        assert forall|k: int| 0 <= k < r@.len() implies {
            let j = #[trigger] o[k];
            is_setting_for(r@[k], entries@[j], ids_view(write_ids@), rows@[j])
        } by {
            assert(0 <= o[k] < entries@.len());
            assert(r@[k] == u[o[k]]);
        }
    }
    r
}

impl UiProjection {
    /// The model of a validated bundle. `rows` gives, for each inventory
    /// setting in order, what the configuration says of it; the structured
    /// families come already projected.
    pub fn from_bundle(
        bundle: &ExportBundle,
        summary: &ValidationSummary,
        rows: &Vec<UiRowInputs>,
        structured_families: Vec<UiStructuredFamily>,
    ) -> (r: UiProjection)
        requires
            rows.len() == bundle.inventory.settings.len(),
        ensures
            r.export_dir == bundle.export_dir,
            r.hyprland_version == bundle.manifest.hyprland_version,
            r.schema_version == bundle.manifest.schema_version,
            same_summary(r.summary, *summary),
            strings_view(r.known_setting_ids@).to_set() == inventory_ids(*bundle).to_set(),
            strings_view(r.known_setting_ids@).no_duplicates(),
            ascending(strings_view(r.known_setting_ids@)),
            r.tabs@ == stable_order(tab_keys(bundle.inventory.tabs@)).map_values(
                |j: int| ui_tab(bundle.inventory.tabs@[j]),
            ),
            r.settings@.len() == bundle.inventory.settings@.len(),
            forall|k: int|
                0 <= k < r.settings@.len() ==> {
                    let j = #[trigger] stable_order(
                        setting_keys(bundle.inventory.settings@, r.tabs@),
                    )[k];
                    is_setting_for(
                        r.settings@[k],
                        bundle.inventory.settings@[j],
                        write_ids(*bundle),
                        rows@[j],
                    )
                },
            r.active_write_candidates@ == bundle.write_safety.active_candidates@.map_values(
                |e: WriteCandidateEntry| ui_write_candidate(e),
            ),
            r.structured_families == structured_families,
            summarizes(r.current_value_summary, r.settings@),
    {
        let tabs = ordered_tabs(&bundle.inventory.tabs);
        let active_write_candidates = write_candidates(&bundle.write_safety.active_candidates);
        let write_id_list = write_id_chars(bundle);
        let settings = ordered_settings(&bundle.inventory.settings, &write_id_list, rows, &tabs);
        let ids = inventory_id_chars(bundle);
        let distinct = distinct_ids(&ids);
        let sorted = sort_ids(distinct);
        let known_setting_ids = to_strings(&sorted);
        let current_value_summary = current_value_summary_from_settings(&settings);
        UiProjection {
            export_dir: bundle.export_dir.clone(),
            hyprland_version: bundle.manifest.hyprland_version.clone(),
            schema_version: bundle.manifest.schema_version,
            summary: copy_summary(summary),
            known_setting_ids,
            tabs,
            settings,
            active_write_candidates,
            structured_families,
            current_value_summary,
        }
    }

    /// The settings of tab `tab_id`, ordered by row order.
    pub fn settings_for_tab(&self, tab_id: &str) -> (r: Vec<UiSetting>)
        ensures
            r@ == stable_order(row_keys(settings_of_tab(self.settings@, tab_id@))).map_values(
                |j: int| settings_of_tab(self.settings@, tab_id@)[j],
            ),
    {
        let mut rows: Vec<UiSetting> = Vec::new();
        let mut keys: Vec<(usize, usize)> = Vec::new();
        let mut i: usize = 0;
        while i < self.settings.len()
            invariant
                i <= self.settings@.len(),
                rows@ == settings_of_tab(self.settings@.take(i as int), tab_id@),
                keys@ == row_keys(rows@),
            decreases self.settings@.len() - i,
        {
            assert(self.settings@.take(i + 1).drop_last() =~= self.settings@.take(i as int));
            if str_eq(self.settings[i].tab_id.as_str(), tab_id) {
                rows.push(self.settings[i].duplicate());
                keys.push((self.settings[i].row_order, 0));
            }
            assert(keys@ =~= row_keys(rows@));
            i = i + 1;
        }
        assert(self.settings@.take(i as int) =~= self.settings@);
        stable_sort_by_keys(rows, &keys)
    }

    /// The order of tab `tab_id`, or `usize::MAX` when there is no such tab.
    pub fn tab_order_for(&self, tab_id: &str) -> (r: usize)
        ensures
            r == tab_order_in(self.tabs@, tab_id@),
    {
        tab_order_of(&self.tabs, tab_id)
    }

    /// The detail of the first setting with row id `row_id`, if any.
    pub fn detail_for_row(&self, row_id: &str) -> (r: Option<RowDetailProjection>)
        ensures
            match first_setting(self.settings@, row_id@) {
                None => r is None,
                Some(s) => r matches Some(d) && is_detail_for(d, s, self.active_write_candidates@),
            },
    {
        let mut i: usize = 0;
        assert(self.settings@.skip(0) =~= self.settings@);
        while i < self.settings.len()
            invariant
                i <= self.settings@.len(),
                first_setting(self.settings@, row_id@) == first_setting(
                    self.settings@.skip(i as int),
                    row_id@,
                ),
            decreases self.settings@.len() - i,
        {
            assert(self.settings@.skip(i as int)[0] == self.settings@[i as int]);
            assert(self.settings@.skip(i as int).drop_first() =~= self.settings@.skip(i + 1));
            if str_eq(self.settings[i].row_id.as_str(), row_id) {
                return Some(RowDetailProjection::from_setting(&self.settings[i], &self.active_write_candidates));
            }
            i = i + 1;
        }
        None
    }
}

// ---------------------------------------------------------------------
// Row detail.
// ---------------------------------------------------------------------

#[derive(Debug, Clone)]
pub struct RowDetailProjection {
    pub label: String,
    pub row_id: String,
    pub official_setting: String,
    pub tab_label: String,
    pub subsection: String,
    pub description: String,
    pub default_config_presence: String,
    pub read_support: String,
    pub non_read_status: Option<String>,
    pub preview_status: String,
    pub risk_class: String,
    pub report_only_status: String,
    pub write_support: String,
    pub write_candidate_status: String,
    pub write_candidate_target_mode: Option<String>,
    pub write_candidate_executable: Option<bool>,
    pub write_candidate_command_generation_allowed: Option<bool>,
    pub current_value: CurrentValueProjection,
    pub comparison: ComparisonProjection,
    pub edit: SettingEditProjection,
    pub safety_notes: Vec<String>,
    pub screen_shader_advisory: Option<ScreenShaderAdvisoryUiProjection>,
    pub screen_shader_advisory_widget: Option<ScreenShaderAdvisoryGtkWidgetProjection>,
}

/// The safety notes of a row with edit state `edit`.
pub open spec fn safety_notes_for(edit: SettingEditProjection) -> Seq<Seq<char>> {
    seq!["Current values are parsed from hyprland.conf as read-only text when available."@] + (
    if edit.editable {
        seq![
            "This row can use guarded safe-batch writing when review, backup, write, and reread verification checks pass."@,
        ] + match edit.review_block_reason {
            Some(reason) => seq!["Apply currently blocked: "@ + reason@ + "."@],
            None => seq![],
        }
    } else {
        seq![
            match edit.disabled_reason {
                Some(reason) => reason@,
                None => "not write-allowlisted"@,
            },
        ]
    }) + seq!["No Hyprland reload command is run."@]
}

/// `d` is the detail of setting `s`, given the active write candidates.
pub open spec fn is_detail_for(
    d: RowDetailProjection,
    s: UiSetting,
    candidates: Seq<UiWriteCandidate>,
) -> bool {
    let c = first_candidate(candidates, s.row_id@);
    let read_supported = contains_seq(s.read_support@, "current-value-read-allowlisted"@);
    &&& d.label == s.label
    &&& d.row_id == s.row_id
    &&& d.official_setting == s.official_setting
    &&& d.tab_label == s.tab_label
    &&& d.subsection == s.subsection
    &&& d.description == s.description
    &&& d.default_config_presence == s.default_config_presence
    &&& d.read_support == s.read_support
    &&& (if read_supported {
        d.non_read_status is None
    } else {
        d.non_read_status matches Some(t) && t@ == "Current-value reads blocked"@
    })
    &&& d.preview_status == s.preview_status
    &&& d.risk_class == s.risk_class
    &&& d.report_only_status@ == (if s.report_only {
        "report-only"@
    } else {
        "not report-only"@
    })
    &&& d.write_support == s.write_support
    &&& d.write_candidate_status@ == (if c is Some {
        "active write candidate gated by backup and review"@
    } else {
        "not an active write candidate"@
    })
    &&& d.write_candidate_target_mode == (match c {
        Some(x) => Some(x.target_mode),
        None => None,
    })
    &&& d.write_candidate_executable == (match c {
        Some(x) => Some(x.executable),
        None => None,
    })
    &&& d.write_candidate_command_generation_allowed == (match c {
        Some(x) => Some(x.command_generation_allowed),
        None => None,
    })
    &&& d.current_value == s.current_value
    &&& d.comparison == s.comparison
    &&& d.edit == s.edit
    &&& strings_view(d.safety_notes@) == safety_notes_for(s.edit)
    &&& (d.screen_shader_advisory is Some <==> s.row_id@ == screen_shader_row())
    &&& (d.screen_shader_advisory matches Some(p) ==> is_screen_shader_projection(p))
    &&& (d.screen_shader_advisory_widget is Some <==> s.row_id@ == screen_shader_row())
    &&& (d.screen_shader_advisory_widget matches Some(w) ==> is_widget_projection_for(w, s.row_id@))
}

fn find_candidate(candidates: &Vec<UiWriteCandidate>, row_id: &str) -> (r: Option<usize>)
    ensures
        match r {
            None => first_candidate(candidates@, row_id@) is None,
            Some(i) => i < candidates@.len() && first_candidate(candidates@, row_id@) == Some(
                candidates@[i as int],
            ),
        },
{
    let mut i: usize = 0;
    assert(candidates@.skip(0) =~= candidates@);
    while i < candidates.len()
        invariant
            i <= candidates@.len(),
            first_candidate(candidates@, row_id@) == first_candidate(
                candidates@.skip(i as int),
                row_id@,
            ),
        decreases candidates@.len() - i,
    {
        assert(candidates@.skip(i as int)[0] == candidates@[i as int]);
        assert(candidates@.skip(i as int).drop_first() =~= candidates@.skip(i + 1));
        if str_eq(candidates[i].row_id.as_str(), row_id) {
            return Some(i);
        }
        i = i + 1;
    }
    None
}

impl RowDetailProjection {
    fn from_setting(setting: &UiSetting, candidates: &Vec<UiWriteCandidate>) -> (r: RowDetailProjection)
        ensures
            is_detail_for(r, *setting, candidates@),
    {
        let found = find_candidate(candidates, setting.row_id.as_str());
        let is_read_supported = str_contains(
            setting.read_support.as_str(),
            "current-value-read-allowlisted",
        );
        let mut safety_notes: Vec<String> = Vec::new();
        push_line(
            &mut safety_notes,
            "Current values are parsed from hyprland.conf as read-only text when available.",
        );
        if setting.edit.editable {
            push_line(
                &mut safety_notes,
                "This row can use guarded safe-batch writing when review, backup, write, and reread verification checks pass.",
            );
            match &setting.edit.review_block_reason {
                Some(reason) => {
                    let ghost before = strings_view(safety_notes@);
                    let mut line = crate::text::concat2("Apply currently blocked: ", reason.as_str());
                    crate::text::append_str(&mut line, ".");
                    safety_notes.push(line);
                    assert(strings_view(safety_notes@) =~= before.push(
                        "Apply currently blocked: "@ + reason@ + "."@,
                    ));
                },
                None => {},
            }
        } else {
            match &setting.edit.disabled_reason {
                Some(reason) => push_line(&mut safety_notes, reason.as_str()),
                None => push_line(&mut safety_notes, "not write-allowlisted"),
            }
        }
        push_line(&mut safety_notes, "No Hyprland reload command is run.");
        assert(strings_view(safety_notes@) =~= safety_notes_for(setting.edit));
        RowDetailProjection {
            label: setting.label.clone(),
            row_id: setting.row_id.clone(),
            official_setting: setting.official_setting.clone(),
            tab_label: setting.tab_label.clone(),
            subsection: setting.subsection.clone(),
            description: setting.description.clone(),
            default_config_presence: setting.default_config_presence.clone(),
            read_support: setting.read_support.clone(),
            non_read_status: if is_read_supported {
                None
            } else {
                Some("Current-value reads blocked".to_owned())
            },
            preview_status: setting.preview_status.clone(),
            risk_class: setting.risk_class.clone(),
            report_only_status: if setting.report_only {
                "report-only".to_owned()
            } else {
                "not report-only".to_owned()
            },
            write_support: setting.write_support.clone(),
            write_candidate_status: match found {
                Some(_) => "active write candidate gated by backup and review".to_owned(),
                None => "not an active write candidate".to_owned(),
            },
            write_candidate_target_mode: match found {
                Some(i) => Some(candidates[i].target_mode.clone()),
                None => None,
            },
            write_candidate_executable: match found {
                Some(i) => Some(candidates[i].executable),
                None => None,
            },
            write_candidate_command_generation_allowed: match found {
                Some(i) => Some(candidates[i].command_generation_allowed),
                None => None,
            },
            current_value: setting.current_value.duplicate(),
            comparison: setting.comparison.duplicate(),
            edit: setting.edit.duplicate(),
            safety_notes,
            screen_shader_advisory: screen_shader_advisory_projection(setting.row_id.as_str()),
            screen_shader_advisory_widget: screen_shader_advisory_gtk_widget_projection(
                setting.row_id.as_str(),
            ),
        }
    }
}

// ---------------------------------------------------------------------
// Laws.
// ---------------------------------------------------------------------

proof fn lemma_settings_of_tab(s: Seq<UiSetting>, tab_id: Seq<char>)
    ensures
        forall|k: int|
            0 <= k < settings_of_tab(s, tab_id).len() ==> (#[trigger] settings_of_tab(s, tab_id)[k]).tab_id@
                == tab_id && s.contains(settings_of_tab(s, tab_id)[k]),
        forall|k: int|
            0 <= k < s.len() && (#[trigger] s[k]).tab_id@ == tab_id ==> settings_of_tab(
                s,
                tab_id,
            ).contains(s[k]),
    decreases s.len(),
{
    if s.len() > 0 {
        let prev = s.drop_last();
        lemma_settings_of_tab(prev, tab_id);
        let f = settings_of_tab(s, tab_id);
        let g = settings_of_tab(prev, tab_id);
        assert forall|k: int| 0 <= k < f.len() implies (#[trigger] f[k]).tab_id@ == tab_id && s.contains(
            f[k],
        ) by {
            if k < g.len() {
                assert(f[k] == g[k]);
                let m = choose|m: int| 0 <= m < prev.len() && prev[m] == g[k];
                assert(s[m] == prev[m]);
            } else {
                assert(f[k] == s.last());
                assert(s[s.len() - 1] == s.last());
            }
        }
        assert forall|k: int| 0 <= k < s.len() && (#[trigger] s[k]).tab_id@ == tab_id implies f.contains(
            s[k],
        ) by {
            if k < s.len() - 1 {
                assert(prev[k] == s[k]);
                let m = choose|m: int| 0 <= m < g.len() && g[m] == prev[k];
                assert(f[m] == g[m]);
            } else {
                assert(f[f.len() - 1] == s.last());
            }
        }
    }
}

/// Law: the settings listed for a tab are exactly the settings of that tab,
/// each as often as it occurs in the model, in ascending row order, and
/// settings with the same row order keep the model's order.
pub proof fn law_settings_for_tab(settings: Seq<UiSetting>, tab_id: Seq<char>)
    ensures
        ({
            let f = settings_of_tab(settings, tab_id);
            let o = stable_order(row_keys(f));
            let listed = o.map_values(|j: int| f[j]);
            &&& listed.len() == f.len()
            &&& forall|k: int|
                0 <= k < listed.len() ==> (#[trigger] listed[k]).tab_id@ == tab_id && settings.contains(
                    listed[k],
                )
            &&& forall|k: int|
                0 <= k < settings.len() && (#[trigger] settings[k]).tab_id@ == tab_id ==> listed.contains(
                    settings[k],
                )
            &&& forall|a: int, b: int|
                0 <= a < b < listed.len() ==> listed[a].row_order <= listed[b].row_order
            &&& forall|a: int, b: int|
                0 <= a < b < listed.len() && listed[a].row_order == listed[b].row_order ==> o[a]
                    < o[b]
        }),
{
    let f = settings_of_tab(settings, tab_id);
    let o = stable_order(row_keys(f));
    let listed = o.map_values(|j: int| f[j]);
    lemma_settings_of_tab(settings, tab_id);
    lemma_stable_order(row_keys(f));
    assert forall|k: int| 0 <= k < listed.len() implies (#[trigger] listed[k]).tab_id@ == tab_id
        && settings.contains(listed[k]) by {
        assert(0 <= o[k] < f.len());
        assert(listed[k] == f[o[k]]);
    }
    assert forall|k: int| 0 <= k < settings.len() && (#[trigger] settings[k]).tab_id@ == tab_id implies listed.contains(
        settings[k],
    ) by {
        let m = choose|m: int| 0 <= m < f.len() && f[m] == settings[k];
        // Some position of the stable order is m.
        assert(exists|p: int| 0 <= p < o.len() && o[p] == m) by {
            lemma_permutation_covers(o, f.len() as int, m);
        }
        let p = choose|p: int| 0 <= p < o.len() && o[p] == m;
        assert(listed[p] == f[m]);
    }
    assert forall|a: int, b: int| 0 <= a < b < listed.len() implies listed[a].row_order
        <= listed[b].row_order && (listed[a].row_order == listed[b].row_order ==> o[a] < o[b]) by {
        assert(0 <= o[a] < f.len() && 0 <= o[b] < f.len());
        assert(listed[a] == f[o[a]] && listed[b] == f[o[b]]);
        assert(row_keys(f)[o[a]] == (f[o[a]].row_order, 0usize));
        assert(row_keys(f)[o[b]] == (f[o[b]].row_order, 0usize));
        assert(crate::stable_sort::key_le(row_keys(f)[o[a]], row_keys(f)[o[b]]));
    }
}

/// A permutation of the positions below `n` lists each of them.
pub proof fn lemma_permutation_covers(o: Seq<int>, n: int, m: int)
    requires
        crate::stable_sort::is_permutation(o, n),
        0 <= m < n,
    ensures
        exists|p: int| 0 <= p < o.len() && o[p] == m,
{
    // Pigeonhole: the n distinct entries of o all lie below n.
    if !(exists|p: int| 0 <= p < o.len() && o[p] == m) {
        vstd::set_lib::lemma_int_range(0, n);
        let s = vstd::set_lib::set_int_range(0, n).remove(m);
        assert forall|a: int| 0 <= a < o.len() implies s.contains(#[trigger] o[a]) by {
            assert(o[a] != m);
        }
        lemma_distinct_in_set(o, s);
    }
}

proof fn lemma_distinct_in_set(o: Seq<int>, s: Set<int>)
    requires
        s.finite(),
        forall|a: int| 0 <= a < o.len() ==> s.contains(#[trigger] o[a]),
        forall|a: int, b: int| 0 <= a < b < o.len() ==> o[a] != o[b],
    ensures
        o.len() <= s.len(),
    decreases o.len(),
{
    if o.len() > 0 {
        let x = o.last();
        let rest = o.drop_last();
        assert forall|a: int| 0 <= a < rest.len() implies s.remove(x).contains(#[trigger] rest[a]) by {
            assert(rest[a] == o[a]);
            assert(o[a] != o[o.len() - 1]);
        }
        lemma_distinct_in_set(rest, s.remove(x));
        assert(s.contains(o[o.len() - 1]));
    }
}

/// Law: the current value summary splits the rows by the state of their
/// current value, and counts the readable ones as all but the unreadable.
pub proof fn law_current_value_summary_partitions(v: UiCurrentValueSummary, s: Seq<UiSetting>)
    requires
        summarizes(v, s),
    ensures
        v.configured_rows + v.duplicate_conflict_rows + v.unconfigured_rows + v.unreadable_rows
            == v.total_rows,
        v.readable_rows + v.unreadable_rows == v.total_rows,
        v.parser_warning_rows <= v.total_rows,
{
    lemma_status_partition(s);
}


/// Law: the projection lists every inventory setting exactly once, in
/// ascending order of tab order and then row order, settings with equal
/// orders in inventory order.
pub proof fn law_projection_lists_each_setting_once(entries: Seq<InventoryEntry>, tabs: Seq<UiTab>)
    ensures
        crate::stable_sort::is_permutation(
            stable_order(setting_keys(entries, tabs)),
            entries.len() as int,
        ),
        crate::stable_sort::sorted_stably(
            setting_keys(entries, tabs),
            stable_order(setting_keys(entries, tabs)),
        ),
{
    lemma_stable_order(setting_keys(entries, tabs));
}

} // verus!
