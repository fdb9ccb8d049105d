//! Consistency checks an export bundle must pass before the editor uses it:
//! artifact headers, pinned row counts, unique row ids, links between the
//! artifacts, official-setting agreement, the single active write candidate
//! and the required value and structured families.
use vstd::prelude::*;
use crate::export::{
    ExportBundle, InventoryEntry, NonReadEntry, PreviewCandidateEntry, ReadAllowlistEntry,
    StructuredFamilyEntry, ValueFamilyEntry, WriteCandidateEntry,
};
use crate::id_list::{
    ascending, contains_id, copy_chars, ids_view, repeated_ids, repeats, sort_ids, string_chars,
    strings_view, to_strings,
};
use crate::text::{append_str, chars_of, decimal, push_decimal, seq_eq, string_from};

verus! {

pub const EXPECTED_INVENTORY_ROWS: usize = 341;

pub const EXPECTED_OFFICIAL_SCALAR_COVERED: usize = 341;

pub const EXPECTED_OFFICIAL_SCALAR_TOTAL: usize = 341;

pub const EXPECTED_READ_ALLOWLIST_ROWS: usize = 232;

pub const EXPECTED_NON_READ_ROWS: usize = 109;

pub const EXPECTED_PREVIEW_PARSER_NEEDED_ROWS: usize = 37;

pub const EXPECTED_REPORT_ONLY_HIGH_RISK_ROWS: usize = 72;

pub const EXPECTED_SAFE_PARSED_PREVIEW_CANDIDATES: usize = 16;

pub const EXPECTED_WARNING_PREVIEW_CANDIDATES: usize = 16;

pub const EXPECTED_DEFERRED_PARSER_ROWS: usize = 5;

pub const EXPECTED_ACTIVE_WRITE_CANDIDATES: usize = 1;

pub const REQUIRED_STRUCTURED_FAMILY_COUNT: usize = 7;

pub const REQUIRED_VALUE_FAMILY_COUNT: usize = 9;

/// The rows whose presence or absence the inventory must keep.
#[derive(Debug, Clone, Copy, PartialEq, Eq, Structural)]
pub enum RequiredRowRule {
    GlobalSpeedAbsent,
    StyleAbsent,
    EnabledPresent,
    WraparoundPresent,
}

/// Why a bundle was refused. Lists of ids from set operations are in
/// ascending order, as `BTreeSet` iteration gives them.
#[derive(Debug, Clone)]
pub enum ValidationError {
    HyprlandVersion { label: &'static str, expected: String, got: String },
    SchemaVersion { label: &'static str, expected: u32, got: u32 },
    ArtifactKind { label: &'static str, expected: &'static str, got: String },
    BlankRowId { label: &'static str },
    DuplicateRowIds { label: &'static str, ids: Vec<String> },
    CountMismatch { label: &'static str, actual: usize, expected: usize },
    RequiredRow { rule: RequiredRowRule },
    OrphanRowIds { label: &'static str, ids: Vec<String> },
    ReadNonReadOverlap { ids: Vec<String> },
    MissingReadStatus { ids: Vec<String> },
    MissingFromInventory { label: &'static str, row_id: String },
    MissingOfficialSetting { label: &'static str, row_id: String },
    OfficialSettingMismatch {
        label: &'static str,
        row_id: String,
        actual: String,
        expected: String,
    },
    ActiveWriteCandidates { ids: Vec<String> },
    ManifestActiveWriteCandidates { ids: Vec<String> },
    ExecutableCandidate { row_id: String },
    CommandGenerationAllowed { row_id: String },
    StructuredFamilyMissing { family: &'static str },
    ValueFamilyMissing { family: &'static str },
}

/// The meaning of a `ValidationError`, with text as characters and the
/// set-operation lists as sets.
pub enum ValidationIssue {
    HyprlandVersion { label: Seq<char>, expected: Seq<char>, got: Seq<char> },
    SchemaVersion { label: Seq<char>, expected: u32, got: u32 },
    ArtifactKind { label: Seq<char>, expected: Seq<char>, got: Seq<char> },
    BlankRowId { label: Seq<char> },
    DuplicateRowIds { label: Seq<char>, ids: Seq<Seq<char>> },
    CountMismatch { label: Seq<char>, actual: nat, expected: nat },
    RequiredRow { rule: RequiredRowRule },
    OrphanRowIds { label: Seq<char>, ids: Set<Seq<char>> },
    ReadNonReadOverlap { ids: Set<Seq<char>> },
    MissingReadStatus { ids: Set<Seq<char>> },
    MissingFromInventory { label: Seq<char>, row_id: Seq<char> },
    MissingOfficialSetting { label: Seq<char>, row_id: Seq<char> },
    OfficialSettingMismatch {
        label: Seq<char>,
        row_id: Seq<char>,
        actual: Seq<char>,
        expected: Seq<char>,
    },
    ActiveWriteCandidates { ids: Seq<Seq<char>> },
    ManifestActiveWriteCandidates { ids: Seq<Seq<char>> },
    ExecutableCandidate { row_id: Seq<char> },
    CommandGenerationAllowed { row_id: Seq<char> },
    StructuredFamilyMissing { family: Seq<char> },
    ValueFamilyMissing { family: Seq<char> },
}

impl View for ValidationError {
    type V = ValidationIssue;

    open spec fn view(&self) -> ValidationIssue {
        match self {
            ValidationError::HyprlandVersion { label, expected, got } => {
                ValidationIssue::HyprlandVersion { label: label@, expected: expected@, got: got@ }
            },
            ValidationError::SchemaVersion { label, expected, got } => {
                ValidationIssue::SchemaVersion { label: label@, expected: *expected, got: *got }
            },
            ValidationError::ArtifactKind { label, expected, got } => {
                ValidationIssue::ArtifactKind { label: label@, expected: expected@, got: got@ }
            },
            ValidationError::BlankRowId { label } => ValidationIssue::BlankRowId { label: label@ },
            ValidationError::DuplicateRowIds { label, ids } => {
                ValidationIssue::DuplicateRowIds { label: label@, ids: strings_view(ids@) }
            },
            ValidationError::CountMismatch { label, actual, expected } => {
                ValidationIssue::CountMismatch {
                    label: label@,
                    actual: *actual as nat,
                    expected: *expected as nat,
                }
            },
            ValidationError::RequiredRow { rule } => ValidationIssue::RequiredRow { rule: *rule },
            ValidationError::OrphanRowIds { label, ids } => {
                ValidationIssue::OrphanRowIds { label: label@, ids: strings_view(ids@).to_set() }
            },
            ValidationError::ReadNonReadOverlap { ids } => {
                ValidationIssue::ReadNonReadOverlap { ids: strings_view(ids@).to_set() }
            },
            ValidationError::MissingReadStatus { ids } => {
                ValidationIssue::MissingReadStatus { ids: strings_view(ids@).to_set() }
            },
            ValidationError::MissingFromInventory { label, row_id } => {
                ValidationIssue::MissingFromInventory { label: label@, row_id: row_id@ }
            },
            ValidationError::MissingOfficialSetting { label, row_id } => {
                ValidationIssue::MissingOfficialSetting { label: label@, row_id: row_id@ }
            },
            ValidationError::OfficialSettingMismatch { label, row_id, actual, expected } => {
                ValidationIssue::OfficialSettingMismatch {
                    label: label@,
                    row_id: row_id@,
                    actual: actual@,
                    expected: expected@,
                }
            },
            ValidationError::ActiveWriteCandidates { ids } => {
                ValidationIssue::ActiveWriteCandidates { ids: strings_view(ids@) }
            },
            ValidationError::ManifestActiveWriteCandidates { ids } => {
                ValidationIssue::ManifestActiveWriteCandidates { ids: strings_view(ids@) }
            },
            ValidationError::ExecutableCandidate { row_id } => {
                ValidationIssue::ExecutableCandidate { row_id: row_id@ }
            },
            ValidationError::CommandGenerationAllowed { row_id } => {
                ValidationIssue::CommandGenerationAllowed { row_id: row_id@ }
            },
            ValidationError::StructuredFamilyMissing { family } => {
                ValidationIssue::StructuredFamilyMissing { family: family@ }
            },
            ValidationError::ValueFamilyMissing { family } => {
                ValidationIssue::ValueFamilyMissing { family: family@ }
            },
        }
    }
}

/// The id lists of a set-operation error are ascending and repeat nothing.
pub open spec fn sorted_payload(e: ValidationError) -> bool {
    match e {
        ValidationError::OrphanRowIds { ids, .. } | ValidationError::ReadNonReadOverlap { ids }
        | ValidationError::MissingReadStatus { ids } => {
            ascending(strings_view(ids@)) && strings_view(ids@).no_duplicates()
        },
        _ => true,
    }
}

/// Counts reported for a bundle that passed validation.
#[derive(Debug)]
pub struct ValidationSummary {
    pub inventory_rows: usize,
    pub official_scalar_covered: usize,
    pub official_scalar_total: usize,
    pub read_allowlist_rows: usize,
    pub non_read_rows: usize,
    pub preview_parser_needed_rows: usize,
    pub report_only_high_risk_rows: usize,
    pub safe_parsed_preview_candidates: usize,
    pub warning_preview_candidates: usize,
    pub deferred_parser_rows: usize,
    pub active_write_candidate_ids: Vec<String>,
    pub structured_family_count: usize,
}

// ---------------------------------------------------------------------
// Views of the bundle.
// ---------------------------------------------------------------------

pub open spec fn inventory_ids(b: ExportBundle) -> Seq<Seq<char>> {
    b.inventory.settings@.map_values(|e: InventoryEntry| e.row_id@)
}

pub open spec fn read_ids(b: ExportBundle) -> Seq<Seq<char>> {
    b.read_allowlist.items@.map_values(|e: ReadAllowlistEntry| e.row_id@)
}

pub open spec fn non_read_ids(b: ExportBundle) -> Seq<Seq<char>> {
    b.non_read.items@.map_values(|e: NonReadEntry| e.row_id@)
}

pub open spec fn non_read_categories(b: ExportBundle) -> Seq<Seq<char>> {
    b.non_read.items@.map_values(|e: NonReadEntry| e.unresolved_category@)
}

pub open spec fn preview_ids(b: ExportBundle) -> Seq<Seq<char>> {
    b.preview_candidates.items@.map_values(|e: PreviewCandidateEntry| e.row_id@)
}

pub open spec fn preview_statuses(b: ExportBundle) -> Seq<Seq<char>> {
    b.preview_candidates.items@.map_values(|e: PreviewCandidateEntry| e.status@)
}

pub open spec fn write_ids(b: ExportBundle) -> Seq<Seq<char>> {
    b.write_safety.active_candidates@.map_values(|e: WriteCandidateEntry| e.row_id@)
}

pub open spec fn manifest_write_ids(b: ExportBundle) -> Seq<Seq<char>> {
    strings_view(b.manifest.counts.active_write_candidate_ids@)
}

pub open spec fn structured_ids(b: ExportBundle) -> Seq<Seq<char>> {
    b.structured_families.families@.map_values(|e: StructuredFamilyEntry| e.family_id@)
}

pub open spec fn value_family_ids(b: ExportBundle) -> Seq<Seq<char>> {
    b.value_families.items@.map_values(|e: ValueFamilyEntry| e.value_family@)
}

/// How many entries of `s` equal `x`.
pub open spec fn count_of(s: Seq<Seq<char>>, x: Seq<char>) -> nat
    decreases s.len(),
{
    if s.len() == 0 {
        0
    } else {
        count_of(s.drop_last(), x) + if s.last() == x {
            1nat
        } else {
            0nat
        }
    }
}

pub open spec fn preview_parser_needed(b: ExportBundle) -> nat {
    count_of(non_read_categories(b), "preview-parser-needed"@)
}

pub open spec fn report_only_high_risk(b: ExportBundle) -> nat {
    count_of(non_read_categories(b), "report-only-high-risk"@)
}

pub open spec fn safe_parsed_previews(b: ExportBundle) -> nat {
    count_of(preview_statuses(b), "safe-parsed-preview"@)
}

pub open spec fn warning_previews(b: ExportBundle) -> nat {
    count_of(preview_statuses(b), "warning-preview"@)
}

pub open spec fn deferred_parser_previews(b: ExportBundle) -> nat {
    count_of(preview_statuses(b), "deferred-parser-preview"@)
}

pub open spec fn required_structured_families() -> Seq<Seq<char>> {
    seq![
        "hl.curve"@,
        "hl.animation"@,
        "hl.monitor"@,
        "hl.bind"@,
        "hl.device"@,
        "hl.gesture"@,
        "hl.permission"@,
    ]
}

pub open spec fn required_value_families() -> Seq<Seq<char>> {
    seq![
        "color"@,
        "vector_tuple"@,
        "gradient"@,
        "path_shader_path"@,
        "regex_rule_like_string"@,
        "mixed_freeform_string"@,
        "bezierish_numeric_list"@,
        "none"@,
        "structured_curve_animation"@,
    ]
}

// ---------------------------------------------------------------------
// The checks, in the order they run.
// ---------------------------------------------------------------------

pub open spec fn or_else(a: Option<ValidationIssue>, b: Option<ValidationIssue>) -> Option<
    ValidationIssue,
> {
    if a is Some {
        a
    } else {
        b
    }
}

pub open spec fn header_issue(
    label: Seq<char>,
    version: Seq<char>,
    schema: u32,
    kind: Seq<char>,
    expected_kind: Seq<char>,
    pinned_version: Seq<char>,
    pinned_schema: u32,
) -> Option<ValidationIssue> {
    if version != pinned_version {
        Some(ValidationIssue::HyprlandVersion { label, expected: pinned_version, got: version })
    } else if schema != pinned_schema {
        Some(ValidationIssue::SchemaVersion { label, expected: pinned_schema, got: schema })
    } else if kind != expected_kind {
        Some(ValidationIssue::ArtifactKind { label, expected: expected_kind, got: kind })
    } else {
        None
    }
}

pub open spec fn headers_issue(b: ExportBundle, v: Seq<char>, s: u32) -> Option<ValidationIssue> {
    or_else(
        header_issue(
            "manifest"@,
            b.manifest.hyprland_version@,
            b.manifest.schema_version,
            b.manifest.artifact_kind@,
            "export-manifest"@,
            v,
            s,
        ),
        or_else(
            header_issue(
                "inventory"@,
                b.inventory.hyprland_version@,
                b.inventory.schema_version,
                b.inventory.artifact_kind@,
                "inventory"@,
                v,
                s,
            ),
            or_else(
                header_issue(
                    "read allowlist"@,
                    b.read_allowlist.hyprland_version@,
                    b.read_allowlist.schema_version,
                    b.read_allowlist.artifact_kind@,
                    "read-allowlist"@,
                    v,
                    s,
                ),
                or_else(
                    header_issue(
                        "non-read classifications"@,
                        b.non_read.hyprland_version@,
                        b.non_read.schema_version,
                        b.non_read.artifact_kind@,
                        "non-read-classifications"@,
                        v,
                        s,
                    ),
                    or_else(
                        header_issue(
                            "value families"@,
                            b.value_families.hyprland_version@,
                            b.value_families.schema_version,
                            b.value_families.artifact_kind@,
                            "value-families"@,
                            v,
                            s,
                        ),
                        or_else(
                            header_issue(
                                "preview candidates"@,
                                b.preview_candidates.hyprland_version@,
                                b.preview_candidates.schema_version,
                                b.preview_candidates.artifact_kind@,
                                "preview-candidates"@,
                                v,
                                s,
                            ),
                            or_else(
                                header_issue(
                                    "write safety"@,
                                    b.write_safety.hyprland_version@,
                                    b.write_safety.schema_version,
                                    b.write_safety.artifact_kind@,
                                    "write-safety"@,
                                    v,
                                    s,
                                ),
                                or_else(
                                    header_issue(
                                        "structured families"@,
                                        b.structured_families.hyprland_version@,
                                        b.structured_families.schema_version,
                                        b.structured_families.artifact_kind@,
                                        "structured-families-design-index"@,
                                        v,
                                        s,
                                    ),
                                    header_issue(
                                        "source provenance"@,
                                        b.source_provenance.hyprland_version@,
                                        b.source_provenance.schema_version,
                                        b.source_provenance.artifact_kind@,
                                        "source-provenance-index"@,
                                        v,
                                        s,
                                    ),
                                ),
                            ),
                        ),
                    ),
                ),
            ),
        ),
    )
}

/// The problem with one list of row ids: a blank id first, then repeated ids.
pub open spec fn id_list_issue(label: Seq<char>, ids: Seq<Seq<char>>) -> Option<ValidationIssue> {
    if exists|i: int| 0 <= i < ids.len() && (#[trigger] ids[i]).len() == 0 {
        Some(ValidationIssue::BlankRowId { label })
    } else if repeats(ids).len() > 0 {
        Some(ValidationIssue::DuplicateRowIds { label, ids: repeats(ids) })
    } else {
        None
    }
}

pub open spec fn ids_issue(b: ExportBundle) -> Option<ValidationIssue> {
    or_else(
        id_list_issue("inventory"@, inventory_ids(b)),
        or_else(
            id_list_issue("read allowlist"@, read_ids(b)),
            or_else(
                id_list_issue("non-read classifications"@, non_read_ids(b)),
                or_else(
                    id_list_issue("preview candidates"@, preview_ids(b)),
                    id_list_issue("write safety active candidates"@, write_ids(b)),
                ),
            ),
        ),
    )
}

pub open spec fn count_issue(label: Seq<char>, actual: nat, expected: nat) -> Option<
    ValidationIssue,
> {
    if actual != expected {
        Some(ValidationIssue::CountMismatch { label, actual, expected })
    } else {
        None
    }
}

/// The first count of the bundle that differs from the pinned one, checked in
/// a fixed order.
pub open spec fn counts_issue(b: ExportBundle) -> Option<ValidationIssue> {
    let m = b.manifest.counts;
    or_else(count_issue("manifest inventory rows"@, m.inventory_rows as nat, 341),
    or_else(count_issue("inventory rows"@, b.inventory.settings.len() as nat, 341),
    or_else(count_issue("inventory counts.rows"@, b.inventory.counts.rows as nat, 341),
    or_else(count_issue("official scalar coverage covered"@, b.inventory.counts.official_scalar_coverage.covered as nat, 341),
    or_else(count_issue("official scalar coverage total"@, b.inventory.counts.official_scalar_coverage.total as nat, 341),
    or_else(count_issue("manifest official scalar coverage covered"@, m.official_scalar_coverage.covered as nat, 341),
    or_else(count_issue("manifest official scalar coverage total"@, m.official_scalar_coverage.total as nat, 341),
    or_else(count_issue("read allowlist rows"@, b.read_allowlist.items.len() as nat, 232),
    or_else(count_issue("manifest readAllowlistRows"@, m.read_allowlist_rows as nat, 232),
    or_else(count_issue("read allowlist counts.rows"@, b.read_allowlist.counts.rows as nat, 232),
    or_else(count_issue("non-read rows"@, b.non_read.items.len() as nat, 109),
    or_else(count_issue("manifest nonReadClassificationRows"@, m.non_read_classification_rows as nat, 109),
    or_else(count_issue("non-read counts.rows"@, b.non_read.counts.rows as nat, 109),
    or_else(count_issue("preview/parser-needed rows"@, preview_parser_needed(b), 37),
    or_else(count_issue("manifest previewParserNeededRows"@, m.preview_parser_needed_rows as nat, 37),
    or_else(count_issue("non-read counts.previewParserNeededRows"@, b.non_read.counts.preview_parser_needed_rows as nat, 37),
    or_else(count_issue("report-only/high-risk rows"@, report_only_high_risk(b), 72),
    or_else(count_issue("manifest reportOnlyHighRiskRows"@, m.report_only_high_risk_rows as nat, 72),
    or_else(count_issue("non-read counts.reportOnlyHighRiskRows"@, b.non_read.counts.report_only_high_risk_rows as nat, 72),
    or_else(count_issue("safe parsed-preview candidates"@, safe_parsed_previews(b), 16),
    or_else(count_issue("manifest safeParsedPreviewCandidates"@, m.safe_parsed_preview_candidates as nat, 16),
    or_else(count_issue("preview counts.safeParsedPreviewCandidates"@, b.preview_candidates.counts.safe_parsed_preview_candidates as nat, 16),
    or_else(count_issue("warning-preview candidates"@, warning_previews(b), 16),
    or_else(count_issue("manifest warningPreviewCandidates"@, m.warning_preview_candidates as nat, 16),
    or_else(count_issue("preview counts.warningPreviewCandidates"@, b.preview_candidates.counts.warning_preview_candidates as nat, 16),
    or_else(count_issue("deferred parser rows"@, deferred_parser_previews(b), 5),
    or_else(count_issue("manifest deferredParserRows"@, m.deferred_parser_rows as nat, 5),
    or_else(count_issue("preview counts.deferredParserRows"@, b.preview_candidates.counts.deferred_parser_rows as nat, 5),
    or_else(count_issue("preview counts.rows"@, b.preview_candidates.counts.rows as nat, 37),
    or_else(count_issue("active write candidates"@, b.write_safety.active_candidates.len() as nat, 1),
    or_else(count_issue("manifest activeWriteCandidates"@, m.active_write_candidates as nat, 1),
    or_else(count_issue("write counts.activeCandidates"@, b.write_safety.counts.active_candidates as nat, 1),
    or_else(count_issue("structured family count"@, b.structured_families.families.len() as nat, 7),
    or_else(count_issue("structured counts.families"@, b.structured_families.counts.families as nat, 7),
    count_issue("value family count"@, b.value_families.items.len() as nat, b.value_families.counts.families as nat),
    ))))))))))))))))))))))))))))))))))
}

pub open spec fn required_rows_issue(b: ExportBundle) -> Option<ValidationIssue> {
    let ids = inventory_ids(b);
    if ids.contains("animations.global_speed"@) {
        Some(ValidationIssue::RequiredRow { rule: RequiredRowRule::GlobalSpeedAbsent })
    } else if ids.contains("animations.style"@) {
        Some(ValidationIssue::RequiredRow { rule: RequiredRowRule::StyleAbsent })
    } else if !ids.contains("animations.enabled"@) {
        Some(ValidationIssue::RequiredRow { rule: RequiredRowRule::EnabledPresent })
    } else if !ids.contains("animations.workspace_wraparound"@) {
        Some(ValidationIssue::RequiredRow { rule: RequiredRowRule::WraparoundPresent })
    } else {
        None
    }
}

pub open spec fn orphan_issue(label: Seq<char>, child: Seq<Seq<char>>, parent: Seq<Seq<char>>) -> Option<
    ValidationIssue,
> {
    let orphans = child.to_set().difference(parent.to_set());
    if orphans != Set::<Seq<char>>::empty() {
        Some(ValidationIssue::OrphanRowIds { label, ids: orphans })
    } else {
        None
    }
}

/// The first row id an artifact names that is not an inventory row, or a row
/// both read-allowlisted and classified as non-read.
pub open spec fn row_links_issue(b: ExportBundle) -> Option<ValidationIssue> {
    let inv = inventory_ids(b);
    let rd = read_ids(b);
    let nr = non_read_ids(b);
    let overlap = rd.to_set().intersect(nr.to_set());
    let missing = inv.to_set().difference(rd.to_set().union(nr.to_set()));
    or_else(
        orphan_issue("read allowlist"@, rd, inv),
        or_else(
            orphan_issue("non-read classifications"@, nr, inv),
            or_else(
                orphan_issue("preview candidates"@, preview_ids(b), inv),
                or_else(
                    orphan_issue("write safety active candidates"@, write_ids(b), inv),
                    if overlap != Set::<Seq<char>>::empty() {
                        Some(ValidationIssue::ReadNonReadOverlap { ids: overlap })
                    } else if missing != Set::<Seq<char>>::empty() {
                        Some(ValidationIssue::MissingReadStatus { ids: missing })
                    } else {
                        None
                    },
                ),
            ),
        ),
    )
}

/// The official setting of the last inventory row with id `row`.
pub open spec fn inventory_official(entries: Seq<InventoryEntry>, row: Seq<char>) -> Option<
    Seq<char>,
>
    decreases entries.len(),
{
    if entries.len() == 0 {
        None
    } else if entries.last().row_id@ == row {
        Some(entries.last().official_setting@)
    } else {
        inventory_official(entries.drop_last(), row)
    }
}

pub open spec fn opt_view(o: Option<String>) -> Option<Seq<char>> {
    match o {
        Some(s) => Some(s@),
        None => None,
    }
}

/// Whether the official setting an artifact gives for a row matches the
/// inventory's.
pub open spec fn official_issue_for(
    label: Seq<char>,
    b: ExportBundle,
    row: Seq<char>,
    actual: Option<Seq<char>>,
) -> Option<ValidationIssue> {
    match inventory_official(b.inventory.settings@, row) {
        None => Some(ValidationIssue::MissingFromInventory { label, row_id: row }),
        Some(expected) => match actual {
            None => Some(ValidationIssue::MissingOfficialSetting { label, row_id: row }),
            Some(a) => if a != expected {
                Some(
                    ValidationIssue::OfficialSettingMismatch {
                        label,
                        row_id: row,
                        actual: a,
                        expected,
                    },
                )
            } else {
                None
            },
        },
    }
}

/// The first official-setting problem among `rows[i..]`.
pub open spec fn official_issue_from(
    label: Seq<char>,
    b: ExportBundle,
    rows: Seq<(Seq<char>, Option<Seq<char>>)>,
    i: int,
) -> Option<ValidationIssue>
    decreases rows.len() - i,
{
    if i < 0 || i >= rows.len() {
        None
    } else {
        or_else(
            official_issue_for(label, b, rows[i].0, rows[i].1),
            official_issue_from(label, b, rows, i + 1),
        )
    }
}

pub open spec fn read_official_rows(b: ExportBundle) -> Seq<(Seq<char>, Option<Seq<char>>)> {
    b.read_allowlist.items@.map_values(
        |e: ReadAllowlistEntry| (e.row_id@, opt_view(e.official_setting)),
    )
}

pub open spec fn non_read_official_rows(b: ExportBundle) -> Seq<(Seq<char>, Option<Seq<char>>)> {
    b.non_read.items@.map_values(|e: NonReadEntry| (e.row_id@, opt_view(e.official_setting)))
}

pub open spec fn write_official_rows(b: ExportBundle) -> Seq<(Seq<char>, Option<Seq<char>>)> {
    b.write_safety.active_candidates@.map_values(
        |e: WriteCandidateEntry| (e.row_id@, Some(e.official_setting@)),
    )
}

/// The first artifact row whose official setting differs from the inventory's.
pub open spec fn official_issue(b: ExportBundle) -> Option<ValidationIssue> {
    or_else(
        official_issue_from("read allowlist"@, b, read_official_rows(b), 0),
        or_else(
            official_issue_from("non-read classifications"@, b, non_read_official_rows(b), 0),
            official_issue_from("write safety"@, b, write_official_rows(b), 0),
        ),
    )
}

/// The first active candidate that is executable or allows command generation.
pub open spec fn candidate_flags_from(c: Seq<WriteCandidateEntry>, i: int) -> Option<ValidationIssue>
    decreases c.len() - i,
{
    if i < 0 || i >= c.len() {
        None
    } else if c[i].executable {
        Some(ValidationIssue::ExecutableCandidate { row_id: c[i].row_id@ })
    } else if c[i].command_generation_allowed {
        Some(ValidationIssue::CommandGenerationAllowed { row_id: c[i].row_id@ })
    } else {
        candidate_flags_from(c, i + 1)
    }
}

/// The problem with the write-safety artifact: anything but the single inert
/// `windows.snap.enabled` candidate.
pub open spec fn write_safety_issue(b: ExportBundle) -> Option<ValidationIssue> {
    let only = seq!["windows.snap.enabled"@];
    if write_ids(b) != only {
        Some(ValidationIssue::ActiveWriteCandidates { ids: write_ids(b) })
    } else if manifest_write_ids(b) != only {
        Some(ValidationIssue::ManifestActiveWriteCandidates { ids: manifest_write_ids(b) })
    } else {
        candidate_flags_from(b.write_safety.active_candidates@, 0)
    }
}

/// The first entry of `required[i..]` missing from `ids`.
pub open spec fn first_missing(required: Seq<Seq<char>>, ids: Seq<Seq<char>>, i: int) -> Option<
    Seq<char>,
>
    decreases required.len() - i,
{
    if i < 0 || i >= required.len() {
        None
    } else if !ids.contains(required[i]) {
        Some(required[i])
    } else {
        first_missing(required, ids, i + 1)
    }
}

/// The problem with the structured families: repeated ids, then a required
/// family missing.
pub open spec fn structured_issue(b: ExportBundle) -> Option<ValidationIssue> {
    or_else(
        id_list_issue("structured families"@, structured_ids(b)),
        match first_missing(required_structured_families(), structured_ids(b), 0) {
            Some(f) => Some(ValidationIssue::StructuredFamilyMissing { family: f }),
            None => None,
        },
    )
}

/// The problem with the value families: repeated ids, then a count other
/// than nine, then a required family missing.
pub open spec fn value_families_issue(b: ExportBundle) -> Option<ValidationIssue> {
    or_else(
        id_list_issue("value families"@, value_family_ids(b)),
        or_else(
            count_issue("value family required count"@, value_family_ids(b).len(), 9),
            match first_missing(required_value_families(), value_family_ids(b), 0) {
                Some(f) => Some(ValidationIssue::ValueFamilyMissing { family: f }),
                None => None,
            },
        ),
    )
}

/// The first problem `validate_bundle` reports, or `None` when the bundle
/// passes, for the pinned Hyprland version and schema version.
pub open spec fn bundle_issue(b: ExportBundle, version: Seq<char>, schema: u32) -> Option<
    ValidationIssue,
> {
    or_else(
        headers_issue(b, version, schema),
        or_else(
            ids_issue(b),
            or_else(
                counts_issue(b),
                or_else(
                    required_rows_issue(b),
                    or_else(
                        row_links_issue(b),
                        or_else(
                            official_issue(b),
                            or_else(
                                write_safety_issue(b),
                                or_else(structured_issue(b), value_families_issue(b)),
                            ),
                        ),
                    ),
                ),
            ),
        ),
    )
}

/// The summary reports the bundle's own counts.
pub open spec fn summary_of(s: ValidationSummary, b: ExportBundle) -> bool {
    &&& s.inventory_rows == b.inventory.settings.len()
    &&& s.official_scalar_covered == b.inventory.counts.official_scalar_coverage.covered
    &&& s.official_scalar_total == b.inventory.counts.official_scalar_coverage.total
    &&& s.read_allowlist_rows == b.read_allowlist.items.len()
    &&& s.non_read_rows == b.non_read.items.len()
    &&& s.preview_parser_needed_rows == preview_parser_needed(b)
    &&& s.report_only_high_risk_rows == report_only_high_risk(b)
    &&& s.safe_parsed_preview_candidates == safe_parsed_previews(b)
    &&& s.warning_preview_candidates == warning_previews(b)
    &&& s.deferred_parser_rows == deferred_parser_previews(b)
    &&& strings_view(s.active_write_candidate_ids@) == write_ids(b)
    &&& s.structured_family_count == b.structured_families.families.len()
}


// ---------------------------------------------------------------------
// Executable checks.
// ---------------------------------------------------------------------

/// `r` reports `i`: both absent, or the error's meaning is `i`.
pub open spec fn reports(r: Option<ValidationError>, i: Option<ValidationIssue>) -> bool {
    match r {
        None => i is None,
        Some(e) => i == Some(e@) && sorted_payload(e),
    }
}

pub proof fn lemma_no_repeats(s: Seq<Seq<char>>)
    requires
        repeats(s).len() == 0,
    ensures
        s.no_duplicates(),
    decreases s.len(),
{
    if s.len() > 0 {
        let d = s.drop_last();
        if d.contains(s.last()) {
            assert(repeats(s).len() == repeats(d).len() + 1);
        }
        lemma_no_repeats(d);
        assert forall|i: int, j: int| 0 <= i < j < s.len() implies s[i] != s[j] by {
            if j == s.len() - 1 {
                assert(d[i] == s[i]);
                if s[i] == s[j] {
                    assert(d.contains(s.last()));
                }
            } else {
                assert(d[i] == s[i] && d[j] == s[j]);
            }
        }
    }
}

fn check_header(
    label: &'static str,
    version: &String,
    schema: u32,
    kind: &String,
    expected_kind: &'static str,
    pinned_version: &str,
    pinned_schema: u32,
) -> (r: Option<ValidationError>)
    ensures
        reports(
            r,
            header_issue(
                label@,
                version@,
                schema,
                kind@,
                expected_kind@,
                pinned_version@,
                pinned_schema,
            ),
        ),
{
    if !crate::text::str_eq(version.as_str(), pinned_version) {
        return Some(
            ValidationError::HyprlandVersion {
                label,
                expected: pinned_version.to_owned(),
                got: version.clone(),
            },
        );
    }
    if schema != pinned_schema {
        return Some(ValidationError::SchemaVersion { label, expected: pinned_schema, got: schema });
    }
    if !crate::text::str_eq(kind.as_str(), expected_kind) {
        return Some(ValidationError::ArtifactKind { label, expected: expected_kind, got: kind.clone() });
    }
    None
}

fn check_headers(b: &ExportBundle, version: &str, schema: u32) -> (r: Option<ValidationError>)
    ensures
        reports(r, headers_issue(*b, version@, schema)),
{
    let r = check_header("manifest", &b.manifest.hyprland_version, b.manifest.schema_version, &b.manifest.artifact_kind, "export-manifest", version, schema);
    if r.is_some() {
        return r;
    }
    let r = check_header("inventory", &b.inventory.hyprland_version, b.inventory.schema_version, &b.inventory.artifact_kind, "inventory", version, schema);
    if r.is_some() {
        return r;
    }
    let r = check_header("read allowlist", &b.read_allowlist.hyprland_version, b.read_allowlist.schema_version, &b.read_allowlist.artifact_kind, "read-allowlist", version, schema);
    if r.is_some() {
        return r;
    }
    let r = check_header("non-read classifications", &b.non_read.hyprland_version, b.non_read.schema_version, &b.non_read.artifact_kind, "non-read-classifications", version, schema);
    if r.is_some() {
        return r;
    }
    let r = check_header("value families", &b.value_families.hyprland_version, b.value_families.schema_version, &b.value_families.artifact_kind, "value-families", version, schema);
    if r.is_some() {
        return r;
    }
    let r = check_header("preview candidates", &b.preview_candidates.hyprland_version, b.preview_candidates.schema_version, &b.preview_candidates.artifact_kind, "preview-candidates", version, schema);
    if r.is_some() {
        return r;
    }
    let r = check_header("write safety", &b.write_safety.hyprland_version, b.write_safety.schema_version, &b.write_safety.artifact_kind, "write-safety", version, schema);
    if r.is_some() {
        return r;
    }
    let r = check_header("structured families", &b.structured_families.hyprland_version, b.structured_families.schema_version, &b.structured_families.artifact_kind, "structured-families-design-index", version, schema);
    if r.is_some() {
        return r;
    }
    check_header("source provenance", &b.source_provenance.hyprland_version, b.source_provenance.schema_version, &b.source_provenance.artifact_kind, "source-provenance-index", version, schema)
}

/// Refuses a blank id, then repeated ids.
fn check_ids(label: &'static str, ids: &Vec<Vec<char>>) -> (r: Option<ValidationError>)
    ensures
        reports(r, id_list_issue(label@, ids_view(ids@))),
        r is None ==> ids_view(ids@).no_duplicates(),
{
    let ghost s = ids_view(ids@);
    let mut i: usize = 0;
    while i < ids.len()
        invariant
            i <= ids.len(),
            s == ids_view(ids@),
            forall|j: int| 0 <= j < i ==> (#[trigger] s[j]).len() > 0,
        decreases ids.len() - i,
    {
        if ids[i].len() == 0 {
            assert(s[i as int].len() == 0);
            return Some(ValidationError::BlankRowId { label });
        }
        i = i + 1;
    }
    let reps = repeated_ids(ids);
    if reps.len() > 0 {
        return Some(ValidationError::DuplicateRowIds { label, ids: to_strings(&reps) });
    }
    proof {
        lemma_no_repeats(s);
    }
    None
}

fn check_count(label: &'static str, actual: usize, expected: usize) -> (r: Option<ValidationError>)
    ensures
        reports(r, count_issue(label@, actual as nat, expected as nat)),
{
    if actual != expected {
        Some(ValidationError::CountMismatch { label, actual, expected })
    } else {
        None
    }
}

/// How many entries of `list` equal `x`.
fn count_matching(list: &Vec<Vec<char>>, x: &str) -> (r: usize)
    ensures
        r == count_of(ids_view(list@), x@),
{
    let w = chars_of(x);
    let mut n: usize = 0;
    let mut i: usize = 0;
    while i < list.len()
        invariant
            i <= list.len(),
            w@ == x@,
            n == count_of(ids_view(list@).subrange(0, i as int), x@),
            n <= i,
        decreases list.len() - i,
    {
        let item = &list[i];
        assert(item@.subrange(0, item@.len() as int) =~= item@);
        assert(ids_view(list@).subrange(0, i + 1).drop_last() =~= ids_view(list@).subrange(0, i as int));
        if seq_eq(item, 0, item.len(), &w) {
            n = n + 1;
        }
        i = i + 1;
    }
    assert(ids_view(list@).subrange(0, i as int) =~= ids_view(list@));
    n
}

/// The entries of `child` that are (`keep`) or are not in `other`, in order.
fn filter_ids(child: &Vec<Vec<char>>, other: &Vec<Vec<char>>, keep: bool) -> (r: Vec<Vec<char>>)
    requires
        ids_view(child@).no_duplicates(),
    ensures
        ids_view(r@).no_duplicates(),
        keep ==> ids_view(r@).to_set() == ids_view(child@).to_set().intersect(
            ids_view(other@).to_set(),
        ),
        !keep ==> ids_view(r@).to_set() == ids_view(child@).to_set().difference(
            ids_view(other@).to_set(),
        ),
{
    let ghost c = ids_view(child@);
    let ghost o = ids_view(other@);
    let mut r: Vec<Vec<char>> = Vec::new();
    let mut i: usize = 0;
    while i < child.len()
        invariant
            i <= child.len(),
            c == ids_view(child@),
            o == ids_view(other@),
            c.no_duplicates(),
            ids_view(r@).no_duplicates(),
            forall|x: Seq<char>|
                #![trigger ids_view(r@).contains(x)]
                ids_view(r@).contains(x) <==> (c.subrange(0, i as int).contains(x) && (o.contains(
                    x,
                ) == keep)),
        decreases child.len() - i,
    {
        let item = &child[i];
        let inside = contains_id(other, 0, other.len(), item);
        assert(o.subrange(0, o.len() as int) =~= o);
        assert(inside == o.contains(c[i as int]));
        let ghost rv = ids_view(r@);
        let ghost ci = c.subrange(0, i + 1);
        let ghost c0 = c.subrange(0, i as int);
        assert(ci =~= c0.push(c[i as int]));
        assert(!c0.contains(c[i as int])) by {
            if c0.contains(c[i as int]) {
                let k = choose|k: int| 0 <= k < c0.len() && c0[k] == c[i as int];
                assert(c[k] == c[i as int]);
            }
        }
        assert forall|x: Seq<char>| ci.contains(x) <==> (c0.contains(x) || x == c[i as int]) by {
            if ci.contains(x) {
                let k = choose|k: int| 0 <= k < ci.len() && ci[k] == x;
                if k < c0.len() {
                    assert(c0[k] == x);
                }
            }
            if c0.contains(x) {
                let k = choose|k: int| 0 <= k < c0.len() && c0[k] == x;
                assert(ci[k] == x);
            }
            if x == c[i as int] {
                assert(ci[i as int] == x);
            }
        }
        if inside == keep {
            r.push(copy_chars(item));
            proof {
                let nv = ids_view(r@);
                assert(nv =~= rv.push(c[i as int]));
                assert forall|x: Seq<char>| #[trigger] nv.contains(x) <==> (rv.contains(x) || x
                    == c[i as int]) by {
                    if nv.contains(x) {
                        let k = choose|k: int| 0 <= k < nv.len() && nv[k] == x;
                        if k < rv.len() {
                            assert(rv[k] == x);
                        }
                    }
                    if rv.contains(x) {
                        let k = choose|k: int| 0 <= k < rv.len() && rv[k] == x;
                        assert(nv[k] == x);
                    }
                    if x == c[i as int] {
                        assert(nv[rv.len() as int] == x);
                    }
                }
                assert forall|a: int, b2: int| 0 <= a < b2 < nv.len() implies nv[a] != nv[b2] by {
                    if b2 == rv.len() {
                        assert(nv[a] == rv[a]);
                        assert(rv.contains(rv[a]));
                        assert(c0.contains(rv[a]));
                    } else {
                        assert(nv[a] == rv[a]);
                        assert(nv[b2] == rv[b2]);
                    }
                }
            }
        }
        i = i + 1;
    }
    assert(c.subrange(0, i as int) =~= c);
    if keep {
        assert(ids_view(r@).to_set() =~= c.to_set().intersect(o.to_set()));
    } else {
        assert(ids_view(r@).to_set() =~= c.to_set().difference(o.to_set()));
    }
    r
}

pub(crate) fn inventory_id_chars(b: &ExportBundle) -> (r: Vec<Vec<char>>)
    ensures
        ids_view(r@) == inventory_ids(*b),
{
    let mut r: Vec<Vec<char>> = Vec::new();
    let mut i: usize = 0;
    while i < b.inventory.settings.len()
        invariant
            i <= b.inventory.settings.len(),
            ids_view(r@) == b.inventory.settings@.subrange(0, i as int).map_values(|e: InventoryEntry| e.row_id@),
        decreases b.inventory.settings.len() - i,
    {
        let ghost old_r = r@;
        r.push(string_chars(&b.inventory.settings[i].row_id));
        assert(ids_view(r@) =~= ids_view(old_r).push(b.inventory.settings@[i as int].row_id@));
        assert(b.inventory.settings@.subrange(0, i + 1).map_values(|e: InventoryEntry| e.row_id@) =~= b.inventory.settings@.subrange(0, i as int).map_values(|e: InventoryEntry| e.row_id@).push(b.inventory.settings@[i as int].row_id@));
        i = i + 1;
    }
    assert(b.inventory.settings@.subrange(0, i as int) =~= b.inventory.settings@);
    r
}

fn inventory_official_chars(b: &ExportBundle) -> (r: Vec<Vec<char>>)
    ensures
        ids_view(r@) == b.inventory.settings@.map_values(|e: InventoryEntry| e.official_setting@),
{
    let mut r: Vec<Vec<char>> = Vec::new();
    let mut i: usize = 0;
    while i < b.inventory.settings.len()
        invariant
            i <= b.inventory.settings.len(),
            ids_view(r@) == b.inventory.settings@.subrange(0, i as int).map_values(|e: InventoryEntry| e.official_setting@),
        decreases b.inventory.settings.len() - i,
    {
        let ghost old_r = r@;
        r.push(string_chars(&b.inventory.settings[i].official_setting));
        assert(ids_view(r@) =~= ids_view(old_r).push(b.inventory.settings@[i as int].official_setting@));
        assert(b.inventory.settings@.subrange(0, i + 1).map_values(|e: InventoryEntry| e.official_setting@) =~= b.inventory.settings@.subrange(0, i as int).map_values(|e: InventoryEntry| e.official_setting@).push(b.inventory.settings@[i as int].official_setting@));
        i = i + 1;
    }
    assert(b.inventory.settings@.subrange(0, i as int) =~= b.inventory.settings@);
    r
}

fn read_id_chars(b: &ExportBundle) -> (r: Vec<Vec<char>>)
    ensures
        ids_view(r@) == read_ids(*b),
{
    let mut r: Vec<Vec<char>> = Vec::new();
    let mut i: usize = 0;
    while i < b.read_allowlist.items.len()
        invariant
            i <= b.read_allowlist.items.len(),
            ids_view(r@) == b.read_allowlist.items@.subrange(0, i as int).map_values(|e: ReadAllowlistEntry| e.row_id@),
        decreases b.read_allowlist.items.len() - i,
    {
        let ghost old_r = r@;
        r.push(string_chars(&b.read_allowlist.items[i].row_id));
        assert(ids_view(r@) =~= ids_view(old_r).push(b.read_allowlist.items@[i as int].row_id@));
        assert(b.read_allowlist.items@.subrange(0, i + 1).map_values(|e: ReadAllowlistEntry| e.row_id@) =~= b.read_allowlist.items@.subrange(0, i as int).map_values(|e: ReadAllowlistEntry| e.row_id@).push(b.read_allowlist.items@[i as int].row_id@));
        i = i + 1;
    }
    assert(b.read_allowlist.items@.subrange(0, i as int) =~= b.read_allowlist.items@);
    r
}

fn non_read_id_chars(b: &ExportBundle) -> (r: Vec<Vec<char>>)
    ensures
        ids_view(r@) == non_read_ids(*b),
{
    let mut r: Vec<Vec<char>> = Vec::new();
    let mut i: usize = 0;
    while i < b.non_read.items.len()
        invariant
            i <= b.non_read.items.len(),
            ids_view(r@) == b.non_read.items@.subrange(0, i as int).map_values(|e: NonReadEntry| e.row_id@),
        decreases b.non_read.items.len() - i,
    {
        let ghost old_r = r@;
        r.push(string_chars(&b.non_read.items[i].row_id));
        assert(ids_view(r@) =~= ids_view(old_r).push(b.non_read.items@[i as int].row_id@));
        assert(b.non_read.items@.subrange(0, i + 1).map_values(|e: NonReadEntry| e.row_id@) =~= b.non_read.items@.subrange(0, i as int).map_values(|e: NonReadEntry| e.row_id@).push(b.non_read.items@[i as int].row_id@));
        i = i + 1;
    }
    assert(b.non_read.items@.subrange(0, i as int) =~= b.non_read.items@);
    r
}

fn non_read_category_chars(b: &ExportBundle) -> (r: Vec<Vec<char>>)
    ensures
        ids_view(r@) == non_read_categories(*b),
{
    let mut r: Vec<Vec<char>> = Vec::new();
    let mut i: usize = 0;
    while i < b.non_read.items.len()
        invariant
            i <= b.non_read.items.len(),
            ids_view(r@) == b.non_read.items@.subrange(0, i as int).map_values(|e: NonReadEntry| e.unresolved_category@),
        decreases b.non_read.items.len() - i,
    {
        let ghost old_r = r@;
        r.push(string_chars(&b.non_read.items[i].unresolved_category));
        assert(ids_view(r@) =~= ids_view(old_r).push(b.non_read.items@[i as int].unresolved_category@));
        assert(b.non_read.items@.subrange(0, i + 1).map_values(|e: NonReadEntry| e.unresolved_category@) =~= b.non_read.items@.subrange(0, i as int).map_values(|e: NonReadEntry| e.unresolved_category@).push(b.non_read.items@[i as int].unresolved_category@));
        i = i + 1;
    }
    assert(b.non_read.items@.subrange(0, i as int) =~= b.non_read.items@);
    r
}

fn preview_id_chars(b: &ExportBundle) -> (r: Vec<Vec<char>>)
    ensures
        ids_view(r@) == preview_ids(*b),
{
    let mut r: Vec<Vec<char>> = Vec::new();
    let mut i: usize = 0;
    while i < b.preview_candidates.items.len()
        invariant
            i <= b.preview_candidates.items.len(),
            ids_view(r@) == b.preview_candidates.items@.subrange(0, i as int).map_values(|e: PreviewCandidateEntry| e.row_id@),
        decreases b.preview_candidates.items.len() - i,
    {
        let ghost old_r = r@;
        r.push(string_chars(&b.preview_candidates.items[i].row_id));
        assert(ids_view(r@) =~= ids_view(old_r).push(b.preview_candidates.items@[i as int].row_id@));
        assert(b.preview_candidates.items@.subrange(0, i + 1).map_values(|e: PreviewCandidateEntry| e.row_id@) =~= b.preview_candidates.items@.subrange(0, i as int).map_values(|e: PreviewCandidateEntry| e.row_id@).push(b.preview_candidates.items@[i as int].row_id@));
        i = i + 1;
    }
    assert(b.preview_candidates.items@.subrange(0, i as int) =~= b.preview_candidates.items@);
    r
}

fn preview_status_chars(b: &ExportBundle) -> (r: Vec<Vec<char>>)
    ensures
        ids_view(r@) == preview_statuses(*b),
{
    let mut r: Vec<Vec<char>> = Vec::new();
    let mut i: usize = 0;
    while i < b.preview_candidates.items.len()
        invariant
            i <= b.preview_candidates.items.len(),
            ids_view(r@) == b.preview_candidates.items@.subrange(0, i as int).map_values(|e: PreviewCandidateEntry| e.status@),
        decreases b.preview_candidates.items.len() - i,
    {
        let ghost old_r = r@;
        r.push(string_chars(&b.preview_candidates.items[i].status));
        assert(ids_view(r@) =~= ids_view(old_r).push(b.preview_candidates.items@[i as int].status@));
        assert(b.preview_candidates.items@.subrange(0, i + 1).map_values(|e: PreviewCandidateEntry| e.status@) =~= b.preview_candidates.items@.subrange(0, i as int).map_values(|e: PreviewCandidateEntry| e.status@).push(b.preview_candidates.items@[i as int].status@));
        i = i + 1;
    }
    assert(b.preview_candidates.items@.subrange(0, i as int) =~= b.preview_candidates.items@);
    r
}

pub(crate) fn write_id_chars(b: &ExportBundle) -> (r: Vec<Vec<char>>)
    ensures
        ids_view(r@) == write_ids(*b),
{
    let mut r: Vec<Vec<char>> = Vec::new();
    let mut i: usize = 0;
    while i < b.write_safety.active_candidates.len()
        invariant
            i <= b.write_safety.active_candidates.len(),
            ids_view(r@) == b.write_safety.active_candidates@.subrange(0, i as int).map_values(|e: WriteCandidateEntry| e.row_id@),
        decreases b.write_safety.active_candidates.len() - i,
    {
        let ghost old_r = r@;
        r.push(string_chars(&b.write_safety.active_candidates[i].row_id));
        assert(ids_view(r@) =~= ids_view(old_r).push(b.write_safety.active_candidates@[i as int].row_id@));
        assert(b.write_safety.active_candidates@.subrange(0, i + 1).map_values(|e: WriteCandidateEntry| e.row_id@) =~= b.write_safety.active_candidates@.subrange(0, i as int).map_values(|e: WriteCandidateEntry| e.row_id@).push(b.write_safety.active_candidates@[i as int].row_id@));
        i = i + 1;
    }
    assert(b.write_safety.active_candidates@.subrange(0, i as int) =~= b.write_safety.active_candidates@);
    r
}

fn structured_id_chars(b: &ExportBundle) -> (r: Vec<Vec<char>>)
    ensures
        ids_view(r@) == structured_ids(*b),
{
    let mut r: Vec<Vec<char>> = Vec::new();
    let mut i: usize = 0;
    while i < b.structured_families.families.len()
        invariant
            i <= b.structured_families.families.len(),
            ids_view(r@) == b.structured_families.families@.subrange(0, i as int).map_values(|e: StructuredFamilyEntry| e.family_id@),
        decreases b.structured_families.families.len() - i,
    {
        let ghost old_r = r@;
        r.push(string_chars(&b.structured_families.families[i].family_id));
        assert(ids_view(r@) =~= ids_view(old_r).push(b.structured_families.families@[i as int].family_id@));
        assert(b.structured_families.families@.subrange(0, i + 1).map_values(|e: StructuredFamilyEntry| e.family_id@) =~= b.structured_families.families@.subrange(0, i as int).map_values(|e: StructuredFamilyEntry| e.family_id@).push(b.structured_families.families@[i as int].family_id@));
        i = i + 1;
    }
    assert(b.structured_families.families@.subrange(0, i as int) =~= b.structured_families.families@);
    r
}

fn value_family_chars(b: &ExportBundle) -> (r: Vec<Vec<char>>)
    ensures
        ids_view(r@) == value_family_ids(*b),
{
    let mut r: Vec<Vec<char>> = Vec::new();
    let mut i: usize = 0;
    while i < b.value_families.items.len()
        invariant
            i <= b.value_families.items.len(),
            ids_view(r@) == b.value_families.items@.subrange(0, i as int).map_values(|e: ValueFamilyEntry| e.value_family@),
        decreases b.value_families.items.len() - i,
    {
        let ghost old_r = r@;
        r.push(string_chars(&b.value_families.items[i].value_family));
        assert(ids_view(r@) =~= ids_view(old_r).push(b.value_families.items@[i as int].value_family@));
        assert(b.value_families.items@.subrange(0, i + 1).map_values(|e: ValueFamilyEntry| e.value_family@) =~= b.value_families.items@.subrange(0, i as int).map_values(|e: ValueFamilyEntry| e.value_family@).push(b.value_families.items@[i as int].value_family@));
        i = i + 1;
    }
    assert(b.value_families.items@.subrange(0, i as int) =~= b.value_families.items@);
    r
}

fn manifest_write_id_chars(b: &ExportBundle) -> (r: Vec<Vec<char>>)
    ensures
        ids_view(r@) == manifest_write_ids(*b),
{
    let list = &b.manifest.counts.active_write_candidate_ids;
    let mut r: Vec<Vec<char>> = Vec::new();
    let mut i: usize = 0;
    while i < list.len()
        invariant
            i <= list.len(),
            list == &b.manifest.counts.active_write_candidate_ids,
            ids_view(r@) == strings_view(list@.subrange(0, i as int)),
        decreases list.len() - i,
    {
        let ghost old_r = r@;
        r.push(string_chars(&list[i]));
        assert(ids_view(r@) =~= ids_view(old_r).push(list@[i as int]@));
        assert(strings_view(list@.subrange(0, i + 1)) =~= strings_view(list@.subrange(0, i as int)).push(list@[i as int]@));
        i = i + 1;
    }
    assert(list@.subrange(0, i as int) =~= list@);
    r
}

pub proof fn lemma_empty_iff_no_set(s: Seq<Seq<char>>)
    ensures
        (s.len() == 0) == (s.to_set() == Set::<Seq<char>>::empty()),
{
    if s.len() == 0 {
        assert(s.to_set() =~= Set::<Seq<char>>::empty());
    } else {
        assert(s.to_set().contains(s[0]));
    }
}

/// A sorted owned listing of a duplicate-free id list.
fn sorted_strings(items: Vec<Vec<char>>) -> (r: Vec<String>)
    requires
        ids_view(items@).no_duplicates(),
    ensures
        strings_view(r@).to_set() == ids_view(items@).to_set(),
        strings_view(r@).no_duplicates(),
        ascending(strings_view(r@)),
{
    let sorted = sort_ids(items);
    to_strings(&sorted)
}

fn check_id_lists(
    inv: &Vec<Vec<char>>,
    rd: &Vec<Vec<char>>,
    nr: &Vec<Vec<char>>,
    pv: &Vec<Vec<char>>,
    wr: &Vec<Vec<char>>,
    b: &ExportBundle,
) -> (r: Option<ValidationError>)
    requires
        ids_view(inv@) == inventory_ids(*b),
        ids_view(rd@) == read_ids(*b),
        ids_view(nr@) == non_read_ids(*b),
        ids_view(pv@) == preview_ids(*b),
        ids_view(wr@) == write_ids(*b),
    ensures
        reports(r, ids_issue(*b)),
        r is None ==> {
            &&& ids_view(inv@).no_duplicates()
            &&& ids_view(rd@).no_duplicates()
            &&& ids_view(nr@).no_duplicates()
            &&& ids_view(pv@).no_duplicates()
            &&& ids_view(wr@).no_duplicates()
        },
{
    let r = check_ids("inventory", inv);
    if r.is_some() {
        return r;
    }
    let r = check_ids("read allowlist", rd);
    if r.is_some() {
        return r;
    }
    let r = check_ids("non-read classifications", nr);
    if r.is_some() {
        return r;
    }
    let r = check_ids("preview candidates", pv);
    if r.is_some() {
        return r;
    }
    check_ids("write safety active candidates", wr)
}

fn check_counts(b: &ExportBundle, categories: &Vec<Vec<char>>, statuses: &Vec<Vec<char>>) -> (r:
    Option<ValidationError>)
    requires
        ids_view(categories@) == non_read_categories(*b),
        ids_view(statuses@) == preview_statuses(*b),
    ensures
        reports(r, counts_issue(*b)),
{
    let m = &b.manifest.counts;
    let r = check_count("manifest inventory rows", m.inventory_rows, EXPECTED_INVENTORY_ROWS);
    if r.is_some() { return r; }
    let r = check_count("inventory rows", b.inventory.settings.len(), EXPECTED_INVENTORY_ROWS);
    if r.is_some() { return r; }
    let r = check_count("inventory counts.rows", b.inventory.counts.rows, EXPECTED_INVENTORY_ROWS);
    if r.is_some() { return r; }
    let r = check_count("official scalar coverage covered", b.inventory.counts.official_scalar_coverage.covered, EXPECTED_OFFICIAL_SCALAR_COVERED);
    if r.is_some() { return r; }
    let r = check_count("official scalar coverage total", b.inventory.counts.official_scalar_coverage.total, EXPECTED_OFFICIAL_SCALAR_TOTAL);
    if r.is_some() { return r; }
    let r = check_count("manifest official scalar coverage covered", m.official_scalar_coverage.covered, EXPECTED_OFFICIAL_SCALAR_COVERED);
    if r.is_some() { return r; }
    let r = check_count("manifest official scalar coverage total", m.official_scalar_coverage.total, EXPECTED_OFFICIAL_SCALAR_TOTAL);
    if r.is_some() { return r; }
    let r = check_count("read allowlist rows", b.read_allowlist.items.len(), EXPECTED_READ_ALLOWLIST_ROWS);
    if r.is_some() { return r; }
    let r = check_count("manifest readAllowlistRows", m.read_allowlist_rows, EXPECTED_READ_ALLOWLIST_ROWS);
    if r.is_some() { return r; }
    let r = check_count("read allowlist counts.rows", b.read_allowlist.counts.rows, EXPECTED_READ_ALLOWLIST_ROWS);
    if r.is_some() { return r; }
    let r = check_count("non-read rows", b.non_read.items.len(), EXPECTED_NON_READ_ROWS);
    if r.is_some() { return r; }
    let r = check_count("manifest nonReadClassificationRows", m.non_read_classification_rows, EXPECTED_NON_READ_ROWS);
    if r.is_some() { return r; }
    let r = check_count("non-read counts.rows", b.non_read.counts.rows, EXPECTED_NON_READ_ROWS);
    if r.is_some() { return r; }
    let r = check_count("preview/parser-needed rows", count_matching(categories, "preview-parser-needed"), EXPECTED_PREVIEW_PARSER_NEEDED_ROWS);
    if r.is_some() { return r; }
    let r = check_count("manifest previewParserNeededRows", m.preview_parser_needed_rows, EXPECTED_PREVIEW_PARSER_NEEDED_ROWS);
    if r.is_some() { return r; }
    let r = check_count("non-read counts.previewParserNeededRows", b.non_read.counts.preview_parser_needed_rows, EXPECTED_PREVIEW_PARSER_NEEDED_ROWS);
    if r.is_some() { return r; }
    let r = check_count("report-only/high-risk rows", count_matching(categories, "report-only-high-risk"), EXPECTED_REPORT_ONLY_HIGH_RISK_ROWS);
    if r.is_some() { return r; }
    let r = check_count("manifest reportOnlyHighRiskRows", m.report_only_high_risk_rows, EXPECTED_REPORT_ONLY_HIGH_RISK_ROWS);
    if r.is_some() { return r; }
    let r = check_count("non-read counts.reportOnlyHighRiskRows", b.non_read.counts.report_only_high_risk_rows, EXPECTED_REPORT_ONLY_HIGH_RISK_ROWS);
    if r.is_some() { return r; }
    let r = check_count("safe parsed-preview candidates", count_matching(statuses, "safe-parsed-preview"), EXPECTED_SAFE_PARSED_PREVIEW_CANDIDATES);
    if r.is_some() { return r; }
    let r = check_count("manifest safeParsedPreviewCandidates", m.safe_parsed_preview_candidates, EXPECTED_SAFE_PARSED_PREVIEW_CANDIDATES);
    if r.is_some() { return r; }
    let r = check_count("preview counts.safeParsedPreviewCandidates", b.preview_candidates.counts.safe_parsed_preview_candidates, EXPECTED_SAFE_PARSED_PREVIEW_CANDIDATES);
    if r.is_some() { return r; }
    let r = check_count("warning-preview candidates", count_matching(statuses, "warning-preview"), EXPECTED_WARNING_PREVIEW_CANDIDATES);
    if r.is_some() { return r; }
    let r = check_count("manifest warningPreviewCandidates", m.warning_preview_candidates, EXPECTED_WARNING_PREVIEW_CANDIDATES);
    if r.is_some() { return r; }
    let r = check_count("preview counts.warningPreviewCandidates", b.preview_candidates.counts.warning_preview_candidates, EXPECTED_WARNING_PREVIEW_CANDIDATES);
    if r.is_some() { return r; }
    let r = check_count("deferred parser rows", count_matching(statuses, "deferred-parser-preview"), EXPECTED_DEFERRED_PARSER_ROWS);
    if r.is_some() { return r; }
    let r = check_count("manifest deferredParserRows", m.deferred_parser_rows, EXPECTED_DEFERRED_PARSER_ROWS);
    if r.is_some() { return r; }
    let r = check_count("preview counts.deferredParserRows", b.preview_candidates.counts.deferred_parser_rows, EXPECTED_DEFERRED_PARSER_ROWS);
    if r.is_some() { return r; }
    let r = check_count("preview counts.rows", b.preview_candidates.counts.rows, EXPECTED_PREVIEW_PARSER_NEEDED_ROWS);
    if r.is_some() { return r; }
    let r = check_count("active write candidates", b.write_safety.active_candidates.len(), EXPECTED_ACTIVE_WRITE_CANDIDATES);
    if r.is_some() { return r; }
    let r = check_count("manifest activeWriteCandidates", m.active_write_candidates, EXPECTED_ACTIVE_WRITE_CANDIDATES);
    if r.is_some() { return r; }
    let r = check_count("write counts.activeCandidates", b.write_safety.counts.active_candidates, EXPECTED_ACTIVE_WRITE_CANDIDATES);
    if r.is_some() { return r; }
    let r = check_count("structured family count", b.structured_families.families.len(), REQUIRED_STRUCTURED_FAMILY_COUNT);
    if r.is_some() { return r; }
    let r = check_count("structured counts.families", b.structured_families.counts.families, REQUIRED_STRUCTURED_FAMILY_COUNT);
    if r.is_some() { return r; }
    check_count("value family count", b.value_families.items.len(), b.value_families.counts.families)
}

fn has_id(list: &Vec<Vec<char>>, x: &str) -> (r: bool)
    ensures
        r == ids_view(list@).contains(x@),
{
    let w = chars_of(x);
    let r = contains_id(list, 0, list.len(), &w);
    assert(ids_view(list@).subrange(0, list@.len() as int) =~= ids_view(list@));
    r
}

fn check_required_rows(inv: &Vec<Vec<char>>, b: &ExportBundle) -> (r: Option<ValidationError>)
    requires
        ids_view(inv@) == inventory_ids(*b),
    ensures
        reports(r, required_rows_issue(*b)),
{
    if has_id(inv, "animations.global_speed") {
        return Some(ValidationError::RequiredRow { rule: RequiredRowRule::GlobalSpeedAbsent });
    }
    if has_id(inv, "animations.style") {
        return Some(ValidationError::RequiredRow { rule: RequiredRowRule::StyleAbsent });
    }
    if !has_id(inv, "animations.enabled") {
        return Some(ValidationError::RequiredRow { rule: RequiredRowRule::EnabledPresent });
    }
    if !has_id(inv, "animations.workspace_wraparound") {
        return Some(ValidationError::RequiredRow { rule: RequiredRowRule::WraparoundPresent });
    }
    None
}

fn check_orphans(label: &'static str, child: &Vec<Vec<char>>, parent: &Vec<Vec<char>>) -> (r: Option<
    ValidationError,
>)
    requires
        ids_view(child@).no_duplicates(),
    ensures
        reports(r, orphan_issue(label@, ids_view(child@), ids_view(parent@))),
{
    let orphans = filter_ids(child, parent, false);
    proof {
        lemma_empty_iff_no_set(ids_view(orphans@));
    }
    if orphans.len() == 0 {
        return None;
    }
    let ids = sorted_strings(orphans);
    Some(ValidationError::OrphanRowIds { label, ids })
}

fn check_row_links(
    inv: &Vec<Vec<char>>,
    rd: &Vec<Vec<char>>,
    nr: &Vec<Vec<char>>,
    pv: &Vec<Vec<char>>,
    wr: &Vec<Vec<char>>,
    b: &ExportBundle,
) -> (r: Option<ValidationError>)
    requires
        ids_view(inv@) == inventory_ids(*b),
        ids_view(rd@) == read_ids(*b),
        ids_view(nr@) == non_read_ids(*b),
        ids_view(pv@) == preview_ids(*b),
        ids_view(wr@) == write_ids(*b),
        ids_view(inv@).no_duplicates(),
        ids_view(rd@).no_duplicates(),
        ids_view(nr@).no_duplicates(),
        ids_view(pv@).no_duplicates(),
        ids_view(wr@).no_duplicates(),
    ensures
        reports(r, row_links_issue(*b)),
{
    let r = check_orphans("read allowlist", rd, inv);
    if r.is_some() {
        return r;
    }
    let r = check_orphans("non-read classifications", nr, inv);
    if r.is_some() {
        return r;
    }
    let r = check_orphans("preview candidates", pv, inv);
    if r.is_some() {
        return r;
    }
    let r = check_orphans("write safety active candidates", wr, inv);
    if r.is_some() {
        return r;
    }
    let overlap = filter_ids(rd, nr, true);
    proof {
        lemma_empty_iff_no_set(ids_view(overlap@));
    }
    if overlap.len() > 0 {
        let ids = sorted_strings(overlap);
        return Some(ValidationError::ReadNonReadOverlap { ids });
    }
    let not_read = filter_ids(inv, rd, false);
    let missing = filter_ids(&not_read, nr, false);
    proof {
        lemma_empty_iff_no_set(ids_view(missing@));
        let i = ids_view(inv@).to_set();
        let a = ids_view(rd@).to_set();
        let n = ids_view(nr@).to_set();
        assert(ids_view(missing@).to_set() =~= i.difference(a.union(n)));
    }
    if missing.len() > 0 {
        let ids = sorted_strings(missing);
        return Some(ValidationError::MissingReadStatus { ids });
    }
    None
}

/// Index of the last inventory row with id `row`.
fn find_official(inv: &Vec<Vec<char>>, b: &ExportBundle, row: &Vec<char>) -> (r: Option<usize>)
    requires
        ids_view(inv@) == inventory_ids(*b),
    ensures
        match r {
            Some(k) => k < b.inventory.settings@.len() && inventory_official(
                b.inventory.settings@,
                row@,
            ) == Some(b.inventory.settings@[k as int].official_setting@),
            None => inventory_official(b.inventory.settings@, row@) is None,
        },
{
    let ghost s = b.inventory.settings@;
    assert(ids_view(inv@).len() == inv@.len());
    assert(inventory_ids(*b).len() == s.len());
    assert(s.subrange(0, s.len() as int) =~= s);
    let mut i = inv.len();
    while i > 0
        invariant
            i <= inv.len(),
            inv.len() == s.len(),
            s == b.inventory.settings@,
            ids_view(inv@) == inventory_ids(*b),
            inventory_official(s, row@) == inventory_official(s.subrange(0, i as int), row@),
        decreases i,
    {
        let item = &inv[i - 1];
        assert(item@.subrange(0, item@.len() as int) =~= item@);
        assert(s.subrange(0, i as int).drop_last() =~= s.subrange(0, i - 1));
        assert(ids_view(inv@)[i - 1] == inv@[i - 1]@);
        assert(inventory_ids(*b)[i - 1] == s[i - 1].row_id@);
        assert(item@ == s[i - 1].row_id@);
        if seq_eq(item, 0, item.len(), row) {
            return Some(i - 1);
        }
        i = i - 1;
    }
    None
}

fn check_official_row(
    label: &'static str,
    inv: &Vec<Vec<char>>,
    b: &ExportBundle,
    row: &Vec<char>,
    actual: &Option<Vec<char>>,
) -> (r: Option<ValidationError>)
    requires
        ids_view(inv@) == inventory_ids(*b),
    ensures
        reports(
            r,
            official_issue_for(
                label@,
                *b,
                row@,
                match actual {
                    Some(a) => Some(a@),
                    None => None,
                },
            ),
        ),
{
    assert(row@.subrange(0, row@.len() as int) =~= row@);
    match find_official(inv, b, row) {
        None => Some(
            ValidationError::MissingFromInventory { label, row_id: string_from(row, 0, row.len()) },
        ),
        Some(k) => match actual {
            None => Some(
                ValidationError::MissingOfficialSetting {
                    label,
                    row_id: string_from(row, 0, row.len()),
                },
            ),
            Some(a) => {
                let expected = &b.inventory.settings[k].official_setting;
                let e = string_chars(expected);
                assert(a@.subrange(0, a@.len() as int) =~= a@);
                if seq_eq(a, 0, a.len(), &e) {
                    None
                } else {
                    Some(
                        ValidationError::OfficialSettingMismatch {
                            label,
                            row_id: string_from(row, 0, row.len()),
                            actual: string_from(a, 0, a.len()),
                            expected: expected.clone(),
                        },
                    )
                }
            },
        },
    }
}

fn optional_chars(o: &Option<String>) -> (r: Option<Vec<char>>)
    ensures
        match r {
            Some(a) => opt_view(*o) == Some(a@),
            None => opt_view(*o) is None,
        },
{
    match o {
        Some(s) => Some(string_chars(s)),
        None => None,
    }
}

fn check_read_official(inv: &Vec<Vec<char>>, b: &ExportBundle) -> (r: Option<ValidationError>)
    requires
        ids_view(inv@) == inventory_ids(*b),
    ensures
        reports(r, official_issue_from("read allowlist"@, *b, read_official_rows(*b), 0)),
{
    let items = &b.read_allowlist.items;
    let ghost rows = read_official_rows(*b);
    let mut i: usize = 0;
    while i < items.len()
        invariant
            i <= items.len(),
            items == &b.read_allowlist.items,
            rows == read_official_rows(*b),
            rows.len() == items.len(),
            ids_view(inv@) == inventory_ids(*b),
            official_issue_from("read allowlist"@, *b, rows, 0) == official_issue_from(
                "read allowlist"@,
                *b,
                rows,
                i as int,
            ),
        decreases items.len() - i,
    {
        let row = string_chars(&items[i].row_id);
        let actual = optional_chars(&items[i].official_setting);
        let r = check_official_row("read allowlist", inv, b, &row, &actual);
        assert(rows[i as int] == (items@[i as int].row_id@, opt_view(items@[i as int].official_setting)));
        if r.is_some() {
            return r;
        }
        i = i + 1;
    }
    None
}

fn check_non_read_official(inv: &Vec<Vec<char>>, b: &ExportBundle) -> (r: Option<ValidationError>)
    requires
        ids_view(inv@) == inventory_ids(*b),
    ensures
        reports(
            r,
            official_issue_from("non-read classifications"@, *b, non_read_official_rows(*b), 0),
        ),
{
    let items = &b.non_read.items;
    let ghost rows = non_read_official_rows(*b);
    let mut i: usize = 0;
    while i < items.len()
        invariant
            i <= items.len(),
            items == &b.non_read.items,
            rows == non_read_official_rows(*b),
            rows.len() == items.len(),
            ids_view(inv@) == inventory_ids(*b),
            official_issue_from("non-read classifications"@, *b, rows, 0) == official_issue_from(
                "non-read classifications"@,
                *b,
                rows,
                i as int,
            ),
        decreases items.len() - i,
    {
        let row = string_chars(&items[i].row_id);
        let actual = optional_chars(&items[i].official_setting);
        let r = check_official_row("non-read classifications", inv, b, &row, &actual);
        assert(rows[i as int] == (items@[i as int].row_id@, opt_view(items@[i as int].official_setting)));
        if r.is_some() {
            return r;
        }
        i = i + 1;
    }
    None
}

fn check_write_official(inv: &Vec<Vec<char>>, b: &ExportBundle) -> (r: Option<ValidationError>)
    requires
        ids_view(inv@) == inventory_ids(*b),
    ensures
        reports(r, official_issue_from("write safety"@, *b, write_official_rows(*b), 0)),
{
    let items = &b.write_safety.active_candidates;
    let ghost rows = write_official_rows(*b);
    let mut i: usize = 0;
    while i < items.len()
        invariant
            i <= items.len(),
            items == &b.write_safety.active_candidates,
            rows == write_official_rows(*b),
            rows.len() == items.len(),
            ids_view(inv@) == inventory_ids(*b),
            official_issue_from("write safety"@, *b, rows, 0) == official_issue_from(
                "write safety"@,
                *b,
                rows,
                i as int,
            ),
        decreases items.len() - i,
    {
        let row = string_chars(&items[i].row_id);
        let actual = Some(string_chars(&items[i].official_setting));
        let r = check_official_row("write safety", inv, b, &row, &actual);
        assert(rows[i as int] == (items@[i as int].row_id@, Some(items@[i as int].official_setting@)));
        if r.is_some() {
            return r;
        }
        i = i + 1;
    }
    None
}

fn check_official(inv: &Vec<Vec<char>>, b: &ExportBundle) -> (r: Option<ValidationError>)
    requires
        ids_view(inv@) == inventory_ids(*b),
    ensures
        reports(r, official_issue(*b)),
{
    let r = check_read_official(inv, b);
    if r.is_some() {
        return r;
    }
    let r = check_non_read_official(inv, b);
    if r.is_some() {
        return r;
    }
    check_write_official(inv, b)
}

/// Whether `list` is exactly `["windows.snap.enabled"]`.
fn is_only_snap_candidate(list: &Vec<Vec<char>>) -> (r: bool)
    ensures
        r == (ids_view(list@) == seq!["windows.snap.enabled"@]),
{
    let w = chars_of("windows.snap.enabled");
    if list.len() != 1 {
        assert(ids_view(list@).len() != 1);
        return false;
    }
    let first = &list[0];
    assert(first@.subrange(0, first@.len() as int) =~= first@);
    let same = seq_eq(first, 0, first.len(), &w);
    if same {
        assert(ids_view(list@) =~= seq!["windows.snap.enabled"@]);
    } else {
        assert(ids_view(list@)[0] != seq!["windows.snap.enabled"@][0]);
    }
    same
}

fn check_write_safety(wr: &Vec<Vec<char>>, mw: &Vec<Vec<char>>, b: &ExportBundle) -> (r: Option<
    ValidationError,
>)
    requires
        ids_view(wr@) == write_ids(*b),
        ids_view(mw@) == manifest_write_ids(*b),
    ensures
        reports(r, write_safety_issue(*b)),
{
    if !is_only_snap_candidate(wr) {
        return Some(ValidationError::ActiveWriteCandidates { ids: to_strings(wr) });
    }
    if !is_only_snap_candidate(mw) {
        return Some(ValidationError::ManifestActiveWriteCandidates { ids: to_strings(mw) });
    }
    let c = &b.write_safety.active_candidates;
    let mut i: usize = 0;
    while i < c.len()
        invariant
            i <= c.len(),
            c == &b.write_safety.active_candidates,
            write_safety_issue(*b) == candidate_flags_from(c@, i as int),
        decreases c.len() - i,
    {
        if c[i].executable {
            return Some(ValidationError::ExecutableCandidate { row_id: c[i].row_id.clone() });
        }
        if c[i].command_generation_allowed {
            return Some(ValidationError::CommandGenerationAllowed { row_id: c[i].row_id.clone() });
        }
        i = i + 1;
    }
    None
}

fn structured_family_names() -> (r: Vec<&'static str>)
    ensures
        r@.map_values(|s: &str| s@) == required_structured_families(),
{
    let r = vec!["hl.curve", "hl.animation", "hl.monitor", "hl.bind", "hl.device", "hl.gesture", "hl.permission"];
    assert(r@.map_values(|s: &str| s@) =~= required_structured_families());
    r
}

fn value_family_names() -> (r: Vec<&'static str>)
    ensures
        r@.map_values(|s: &str| s@) == required_value_families(),
{
    let r = vec![
        "color",
        "vector_tuple",
        "gradient",
        "path_shader_path",
        "regex_rule_like_string",
        "mixed_freeform_string",
        "bezierish_numeric_list",
        "none",
        "structured_curve_animation",
    ];
    assert(r@.map_values(|s: &str| s@) =~= required_value_families());
    r
}

/// The first of `required` not in `ids`.
fn find_missing(required: &Vec<&'static str>, ids: &Vec<Vec<char>>) -> (r: Option<&'static str>)
    ensures
        match r {
            Some(f) => first_missing(required@.map_values(|s: &str| s@), ids_view(ids@), 0) == Some(f@),
            None => first_missing(required@.map_values(|s: &str| s@), ids_view(ids@), 0) is None,
        },
{
    let ghost req = required@.map_values(|s: &str| s@);
    let mut i: usize = 0;
    while i < required.len()
        invariant
            i <= required.len(),
            req == required@.map_values(|s: &str| s@),
            first_missing(req, ids_view(ids@), 0) == first_missing(req, ids_view(ids@), i as int),
        decreases required.len() - i,
    {
        let name = required[i];
        assert(req[i as int] == name@);
        if !has_id(ids, name) {
            return Some(name);
        }
        i = i + 1;
    }
    None
}

fn check_structured(st: &Vec<Vec<char>>, b: &ExportBundle) -> (r: Option<ValidationError>)
    requires
        ids_view(st@) == structured_ids(*b),
    ensures
        reports(r, structured_issue(*b)),
{
    let r = check_ids("structured families", st);
    if r.is_some() {
        return r;
    }
    match find_missing(&structured_family_names(), st) {
        Some(family) => Some(ValidationError::StructuredFamilyMissing { family }),
        None => None,
    }
}

fn check_value_families(vf: &Vec<Vec<char>>, b: &ExportBundle) -> (r: Option<ValidationError>)
    requires
        ids_view(vf@) == value_family_ids(*b),
    ensures
        reports(r, value_families_issue(*b)),
{
    let r = check_ids("value families", vf);
    if r.is_some() {
        return r;
    }
    let r = check_count("value family required count", vf.len(), REQUIRED_VALUE_FAMILY_COUNT);
    if r.is_some() {
        return r;
    }
    match find_missing(&value_family_names(), vf) {
        Some(family) => Some(ValidationError::ValueFamilyMissing { family }),
        None => None,
    }
}

/// Validates an export bundle against the pinned Hyprland version and
/// schema version, returning its counts when every check passes and the
/// first failed check otherwise.
pub fn validate_bundle(bundle: &ExportBundle, hyprland_version: &str, schema_version: u32) -> (r:
    Result<ValidationSummary, ValidationError>)
    ensures
        match r {
            Ok(summary) => bundle_issue(*bundle, hyprland_version@, schema_version) is None
                && summary_of(summary, *bundle),
            Err(e) => bundle_issue(*bundle, hyprland_version@, schema_version) == Some(e@)
                && sorted_payload(e),
        },
{
    let b = bundle;
    if let Some(e) = check_headers(b, hyprland_version, schema_version) {
        return Err(e);
    }
    let inv = inventory_id_chars(b);
    let rd = read_id_chars(b);
    let nr = non_read_id_chars(b);
    let pv = preview_id_chars(b);
    let wr = write_id_chars(b);
    if let Some(e) = check_id_lists(&inv, &rd, &nr, &pv, &wr, b) {
        return Err(e);
    }
    let categories = non_read_category_chars(b);
    let statuses = preview_status_chars(b);
    if let Some(e) = check_counts(b, &categories, &statuses) {
        return Err(e);
    }
    if let Some(e) = check_required_rows(&inv, b) {
        return Err(e);
    }
    if let Some(e) = check_row_links(&inv, &rd, &nr, &pv, &wr, b) {
        return Err(e);
    }
    if let Some(e) = check_official(&inv, b) {
        return Err(e);
    }
    let mw = manifest_write_id_chars(b);
    if let Some(e) = check_write_safety(&wr, &mw, b) {
        return Err(e);
    }
    let st = structured_id_chars(b);
    if let Some(e) = check_structured(&st, b) {
        return Err(e);
    }
    let vf = value_family_chars(b);
    if let Some(e) = check_value_families(&vf, b) {
        return Err(e);
    }
    Ok(ValidationSummary {
        inventory_rows: b.inventory.settings.len(),
        official_scalar_covered: b.inventory.counts.official_scalar_coverage.covered,
        official_scalar_total: b.inventory.counts.official_scalar_coverage.total,
        read_allowlist_rows: b.read_allowlist.items.len(),
        non_read_rows: b.non_read.items.len(),
        preview_parser_needed_rows: count_matching(&categories, "preview-parser-needed"),
        report_only_high_risk_rows: count_matching(&categories, "report-only-high-risk"),
        safe_parsed_preview_candidates: count_matching(&statuses, "safe-parsed-preview"),
        warning_preview_candidates: count_matching(&statuses, "warning-preview"),
        deferred_parser_rows: count_matching(&statuses, "deferred-parser-preview"),
        active_write_candidate_ids: to_strings(&wr),
        structured_family_count: b.structured_families.families.len(),
    })
}

/// Law: a bundle that passes validation carries exactly the pinned row
/// counts and the single active write candidate `windows.snap.enabled`,
/// and none of its active candidates is executable or generates commands.
pub proof fn law_valid_bundle_is_pinned(b: ExportBundle, version: Seq<char>, schema: u32)
    requires
        bundle_issue(b, version, schema) is None,
    ensures
        b.inventory.settings.len() == EXPECTED_INVENTORY_ROWS,
        b.read_allowlist.items.len() == EXPECTED_READ_ALLOWLIST_ROWS,
        b.non_read.items.len() == EXPECTED_NON_READ_ROWS,
        preview_parser_needed(b) == EXPECTED_PREVIEW_PARSER_NEEDED_ROWS,
        report_only_high_risk(b) == EXPECTED_REPORT_ONLY_HIGH_RISK_ROWS,
        safe_parsed_previews(b) == EXPECTED_SAFE_PARSED_PREVIEW_CANDIDATES,
        warning_previews(b) == EXPECTED_WARNING_PREVIEW_CANDIDATES,
        deferred_parser_previews(b) == EXPECTED_DEFERRED_PARSER_ROWS,
        write_ids(b) == seq!["windows.snap.enabled"@],
        manifest_write_ids(b) == seq!["windows.snap.enabled"@],
        forall|i: int|
            0 <= i < b.write_safety.active_candidates.len() ==> {
                &&& !(#[trigger] b.write_safety.active_candidates@[i]).executable
                &&& !b.write_safety.active_candidates@[i].command_generation_allowed
            },
{
    assert forall|i: int| 0 <= i < b.write_safety.active_candidates.len() implies {
        &&& !(#[trigger] b.write_safety.active_candidates@[i]).executable
        &&& !b.write_safety.active_candidates@[i].command_generation_allowed
    } by {
        lemma_candidate_flags(b.write_safety.active_candidates@, 0, i);
    }
}

proof fn lemma_candidate_flags(c: Seq<WriteCandidateEntry>, k: int, i: int)
    requires
        0 <= k <= i < c.len(),
        candidate_flags_from(c, k) is None,
    ensures
        !c[i].executable && !c[i].command_generation_allowed,
    decreases i - k,
{
    if k < i {
        lemma_candidate_flags(c, k + 1, i);
    }
}

/// Law: in a bundle that passes validation, every inventory row is either
/// read-allowlisted or classified as non-read, never both, and every row id
/// the other artifacts name is an inventory row.
pub proof fn law_valid_bundle_partitions_rows(b: ExportBundle, version: Seq<char>, schema: u32)
    requires
        bundle_issue(b, version, schema) is None,
    ensures
        inventory_ids(b).to_set() == read_ids(b).to_set().union(non_read_ids(b).to_set()),
        read_ids(b).to_set().disjoint(non_read_ids(b).to_set()),
        preview_ids(b).to_set().subset_of(inventory_ids(b).to_set()),
        write_ids(b).to_set().subset_of(inventory_ids(b).to_set()),
{
    let inv = inventory_ids(b).to_set();
    let rd = read_ids(b).to_set();
    let nr = non_read_ids(b).to_set();
    assert(rd.difference(inv) =~= Set::<Seq<char>>::empty() ==> rd.subset_of(inv)) by {
        if rd.difference(inv) =~= Set::<Seq<char>>::empty() {
            assert forall|x: Seq<char>| rd.contains(x) implies inv.contains(x) by {
                assert(!rd.difference(inv).contains(x));
            }
        }
    }
    assert(rd.difference(inv) == Set::<Seq<char>>::empty());
    assert(nr.difference(inv) == Set::<Seq<char>>::empty());
    assert forall|x: Seq<char>| rd.contains(x) implies inv.contains(x) by {
        assert(!rd.difference(inv).contains(x));
    }
    assert forall|x: Seq<char>| nr.contains(x) implies inv.contains(x) by {
        assert(!nr.difference(inv).contains(x));
    }
    let missing = inv.difference(rd.union(nr));
    assert(missing == Set::<Seq<char>>::empty());
    assert forall|x: Seq<char>| inv.contains(x) implies rd.union(nr).contains(x) by {
        assert(!missing.contains(x));
    }
    assert(inv =~= rd.union(nr));
    let overlap = rd.intersect(nr);
    assert(overlap == Set::<Seq<char>>::empty());
    assert forall|x: Seq<char>| rd.contains(x) implies !nr.contains(x) by {
        assert(!overlap.contains(x));
    }
    let pv = preview_ids(b).to_set();
    let wr = write_ids(b).to_set();
    assert(pv.difference(inv) == Set::<Seq<char>>::empty());
    assert(wr.difference(inv) == Set::<Seq<char>>::empty());
    assert forall|x: Seq<char>| pv.contains(x) implies inv.contains(x) by {
        assert(!pv.difference(inv).contains(x));
    }
    assert forall|x: Seq<char>| wr.contains(x) implies inv.contains(x) by {
        assert(!wr.difference(inv).contains(x));
    }
}

// ---------------------------------------------------------------------
// The message of a refusal.
// ---------------------------------------------------------------------

/// What `{:?}` writes for a list of strings.
pub uninterp spec fn debug_string_list(items: Seq<Seq<char>>) -> Seq<char>;

/// `format!("{:?}", items)`: the strings quoted and escaped as `Debug`
/// writes them, between brackets, separated by `, `. The text is named, not
/// described: it depends on the strings alone.
#[verifier::external_body]
fn debug_list(items: &Vec<String>) -> (r: String)
    ensures
        r@ == debug_string_list(strings_view(items@)),
{
    format!("{:?}", items)
}

pub open spec fn rule_message(rule: RequiredRowRule) -> Seq<char> {
    match rule {
        RequiredRowRule::GlobalSpeedAbsent => "animations.global_speed must remain absent"@,
        RequiredRowRule::StyleAbsent => "animations.style must remain absent"@,
        RequiredRowRule::EnabledPresent => "animations.enabled must remain present"@,
        RequiredRowRule::WraparoundPresent => "animations.workspace_wraparound must remain present"@,
    }
}

/// The message shown for a refusal.
pub open spec fn error_message(e: ValidationError) -> Seq<char> {
    match e {
        ValidationError::HyprlandVersion { label, expected, got } => label@
            + ": expected Hyprland version "@ + expected@ + ", got "@ + got@,
        ValidationError::SchemaVersion { label, expected, got } => label@
            + ": expected schema version "@ + decimal(expected as nat) + ", got "@ + decimal(
            got as nat,
        ),
        ValidationError::ArtifactKind { label, expected, got } => label@
            + ": expected artifact kind "@ + expected@ + ", got "@ + got@,
        ValidationError::BlankRowId { label } => label@ + ": blank row id"@,
        ValidationError::DuplicateRowIds { label, ids } => label@ + ": duplicate row IDs "@
            + debug_string_list(strings_view(ids@)),
        ValidationError::CountMismatch { label, actual, expected } => label@ + ": got "@
            + decimal(actual as nat) + ", expected "@ + decimal(expected as nat),
        ValidationError::RequiredRow { rule } => rule_message(rule),
        ValidationError::OrphanRowIds { label, ids } => label@ + ": orphan row IDs "@
            + debug_string_list(strings_view(ids@)),
        ValidationError::ReadNonReadOverlap { ids } => "read/non-read overlap: "@
            + debug_string_list(strings_view(ids@)),
        ValidationError::MissingReadStatus { ids } =>
            "inventory rows without read or non-read status: "@ + debug_string_list(
            strings_view(ids@),
        ),
        ValidationError::MissingFromInventory { label, row_id } => label@ + ": "@ + row_id@
            + " missing from inventory"@,
        ValidationError::MissingOfficialSetting { label, row_id } => label@ + ": "@ + row_id@
            + " missing official setting"@,
        ValidationError::OfficialSettingMismatch { label, row_id, actual, expected } => label@
            + ": "@ + row_id@ + " official setting mismatch: "@ + actual@ + " != "@ + expected@,
        ValidationError::ActiveWriteCandidates { ids } =>
            "active write candidates must be [windows.snap.enabled], got "@ + debug_string_list(
            strings_view(ids@),
        ),
        ValidationError::ManifestActiveWriteCandidates { ids } =>
            "manifest active write candidates must be [windows.snap.enabled], got "@
            + debug_string_list(strings_view(ids@)),
        ValidationError::ExecutableCandidate { row_id } => row_id@ + " must be non-executable"@,
        ValidationError::CommandGenerationAllowed { row_id } => row_id@
            + " must not allow command generation"@,
        ValidationError::StructuredFamilyMissing { family } => "structured family "@ + family@
            + " missing"@,
        ValidationError::ValueFamilyMissing { family } => "value family "@ + family@
            + " missing"@,
    }
}

/// `a`, `b` and `c` one after the other.
fn join3(a: &str, b: &str, c: &str) -> (r: String)
    ensures
        r@ == a@ + b@ + c@,
{
    let mut r = String::new();
    append_str(&mut r, a);
    append_str(&mut r, b);
    append_str(&mut r, c);
    r
}

impl ValidationError {
    /// The message shown for the refusal.
    pub fn message(&self) -> (r: String)
        ensures
            r@ == error_message(*self),
    {
        proof {
            reveal_strlit("");
        }
        match self {
            ValidationError::HyprlandVersion { label, expected, got } => {
                let mut r = join3(label, ": expected Hyprland version ", expected.as_str());
                append_str(&mut r, ", got ");
                append_str(&mut r, got.as_str());
                r
            },
            ValidationError::SchemaVersion { label, expected, got } => {
                let mut r = join3(label, ": expected schema version ", "");
                push_decimal(&mut r, *expected as usize);
                append_str(&mut r, ", got ");
                push_decimal(&mut r, *got as usize);
                r
            },
            ValidationError::ArtifactKind { label, expected, got } => {
                let mut r = join3(label, ": expected artifact kind ", expected);
                append_str(&mut r, ", got ");
                append_str(&mut r, got.as_str());
                r
            },
            ValidationError::BlankRowId { label } => join3(label, ": blank row id", ""),
            ValidationError::DuplicateRowIds { label, ids } => {
                let list = debug_list(ids);
                join3(label, ": duplicate row IDs ", list.as_str())
            },
            ValidationError::CountMismatch { label, actual, expected } => {
                let mut r = join3(label, ": got ", "");
                push_decimal(&mut r, *actual);
                append_str(&mut r, ", expected ");
                push_decimal(&mut r, *expected);
                r
            },
            ValidationError::RequiredRow { rule } => match rule {
                RequiredRowRule::GlobalSpeedAbsent => "animations.global_speed must remain absent".to_string(),
                RequiredRowRule::StyleAbsent => "animations.style must remain absent".to_string(),
                RequiredRowRule::EnabledPresent => "animations.enabled must remain present".to_string(),
                RequiredRowRule::WraparoundPresent => "animations.workspace_wraparound must remain present".to_string(),
            },
            ValidationError::OrphanRowIds { label, ids } => {
                let list = debug_list(ids);
                join3(label, ": orphan row IDs ", list.as_str())
            },
            ValidationError::ReadNonReadOverlap { ids } => {
                let list = debug_list(ids);
                join3("read/non-read overlap: ", list.as_str(), "")
            },
            ValidationError::MissingReadStatus { ids } => {
                let list = debug_list(ids);
                join3("inventory rows without read or non-read status: ", list.as_str(), "")
            },
            ValidationError::MissingFromInventory { label, row_id } => {
                let mut r = join3(label, ": ", row_id.as_str());
                append_str(&mut r, " missing from inventory");
                r
            },
            ValidationError::MissingOfficialSetting { label, row_id } => {
                let mut r = join3(label, ": ", row_id.as_str());
                append_str(&mut r, " missing official setting");
                r
            },
            ValidationError::OfficialSettingMismatch { label, row_id, actual, expected } => {
                let mut r = join3(label, ": ", row_id.as_str());
                append_str(&mut r, " official setting mismatch: ");
                append_str(&mut r, actual.as_str());
                append_str(&mut r, " != ");
                append_str(&mut r, expected.as_str());
                r
            },
            ValidationError::ActiveWriteCandidates { ids } => {
                let list = debug_list(ids);
                join3(
                    "active write candidates must be [windows.snap.enabled], got ",
                    list.as_str(),
                    "",
                )
            },
            ValidationError::ManifestActiveWriteCandidates { ids } => {
                let list = debug_list(ids);
                join3(
                    "manifest active write candidates must be [windows.snap.enabled], got ",
                    list.as_str(),
                    "",
                )
            },
            ValidationError::ExecutableCandidate { row_id } => join3(
                row_id.as_str(),
                " must be non-executable",
                "",
            ),
            ValidationError::CommandGenerationAllowed { row_id } => join3(
                row_id.as_str(),
                " must not allow command generation",
                "",
            ),
            ValidationError::StructuredFamilyMissing { family } => join3(
                "structured family ",
                family,
                " missing",
            ),
            ValidationError::ValueFamilyMissing { family } => join3(
                "value family ",
                family,
                " missing",
            ),
        }
    }
}

} // verus!
