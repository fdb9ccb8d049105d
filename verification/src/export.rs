//! The exported settings metadata bundle: the artifacts the editor loads
//! (manifest, inventory, read allowlist, non-read classifications, value
//! families, preview candidates, write safety, structured families and
//! source provenance) as plain data.
use vstd::prelude::*;

verus! {

#[derive(Debug, Clone)]
pub struct CoverageCounts {
    pub covered: usize,
    pub total: usize,
}

#[derive(Debug, Clone)]
pub struct ManifestCounts {
    pub inventory_rows: usize,
    pub official_scalar_coverage: CoverageCounts,
    pub read_allowlist_rows: usize,
    pub non_read_classification_rows: usize,
    pub preview_parser_needed_rows: usize,
    pub report_only_high_risk_rows: usize,
    pub safe_parsed_preview_candidates: usize,
    pub warning_preview_candidates: usize,
    pub deferred_parser_rows: usize,
    pub active_write_candidates: usize,
    pub active_write_candidate_ids: Vec<String>,
}

#[derive(Debug, Clone)]
pub struct ExportManifest {
    pub hyprland_version: String,
    pub schema_version: u32,
    pub artifact_kind: String,
    pub counts: ManifestCounts,
}

#[derive(Debug, Clone)]
pub struct InventoryCounts {
    pub rows: usize,
    pub official_scalar_coverage: CoverageCounts,
}

/// One settings tab of the inventory.
#[derive(Debug, Clone)]
pub struct TabEntry {
    pub tab_id: String,
    pub tab_label: String,
    pub tab_order: usize,
    pub row_count: usize,
}

/// One scalar setting row of the inventory.
#[derive(Debug, Clone)]
pub struct InventoryEntry {
    pub row_id: String,
    pub official_setting: String,
    pub tab_id: String,
    pub tab_label: String,
    pub subsection: String,
    pub row_order: usize,
    pub label: String,
    pub description: String,
    pub default_config_presence: String,
    pub read_support: String,
    pub write_support: String,
    pub risk_class: String,
    pub preview_status: String,
    pub report_only: bool,
    pub control_kind: String,
    pub value_family: String,
    pub parser_status: String,
    pub structured_family: Option<bool>,
}

#[derive(Debug, Clone)]
pub struct InventoryArtifact {
    pub hyprland_version: String,
    pub schema_version: u32,
    pub artifact_kind: String,
    pub counts: InventoryCounts,
    pub tabs: Vec<TabEntry>,
    pub settings: Vec<InventoryEntry>,
}

#[derive(Debug, Clone)]
pub struct RowCounts {
    pub rows: usize,
}

#[derive(Debug, Clone)]
pub struct ReadAllowlistEntry {
    pub row_id: String,
    pub official_setting: Option<String>,
}

#[derive(Debug, Clone)]
pub struct ReadAllowlistArtifact {
    pub hyprland_version: String,
    pub schema_version: u32,
    pub artifact_kind: String,
    pub counts: RowCounts,
    pub items: Vec<ReadAllowlistEntry>,
}

#[derive(Debug, Clone)]
pub struct NonReadCounts {
    pub rows: usize,
    pub preview_parser_needed_rows: usize,
    pub report_only_high_risk_rows: usize,
}

#[derive(Debug, Clone)]
pub struct NonReadEntry {
    pub row_id: String,
    pub official_setting: Option<String>,
    pub unresolved_category: String,
}

#[derive(Debug, Clone)]
pub struct NonReadArtifact {
    pub hyprland_version: String,
    pub schema_version: u32,
    pub artifact_kind: String,
    pub counts: NonReadCounts,
    pub items: Vec<NonReadEntry>,
}

#[derive(Debug, Clone)]
pub struct FamilyCounts {
    pub families: usize,
}

#[derive(Debug, Clone)]
pub struct ValueFamilyEntry {
    pub value_family: String,
}

#[derive(Debug, Clone)]
pub struct ValueFamiliesArtifact {
    pub hyprland_version: String,
    pub schema_version: u32,
    pub artifact_kind: String,
    pub counts: FamilyCounts,
    pub items: Vec<ValueFamilyEntry>,
}

#[derive(Debug, Clone)]
pub struct PreviewCounts {
    pub rows: usize,
    pub safe_parsed_preview_candidates: usize,
    pub warning_preview_candidates: usize,
    pub deferred_parser_rows: usize,
}

#[derive(Debug, Clone)]
pub struct PreviewCandidateEntry {
    pub row_id: String,
    pub status: String,
}

#[derive(Debug, Clone)]
pub struct PreviewCandidatesArtifact {
    pub hyprland_version: String,
    pub schema_version: u32,
    pub artifact_kind: String,
    pub counts: PreviewCounts,
    pub items: Vec<PreviewCandidateEntry>,
}

#[derive(Debug, Clone)]
pub struct WriteSafetyCounts {
    pub active_candidates: usize,
}

#[derive(Debug, Clone)]
pub struct WriteCandidateEntry {
    pub row_id: String,
    pub official_setting: String,
    pub target_mode: String,
    pub executable: bool,
    pub command_generation_allowed: bool,
}

#[derive(Debug, Clone)]
pub struct WriteSafetyArtifact {
    pub hyprland_version: String,
    pub schema_version: u32,
    pub artifact_kind: String,
    pub counts: WriteSafetyCounts,
    pub active_candidates: Vec<WriteCandidateEntry>,
}

#[derive(Debug, Clone)]
pub struct StructuredFamilyEntry {
    pub family_id: String,
}

#[derive(Debug, Clone)]
pub struct StructuredFamiliesArtifact {
    pub hyprland_version: String,
    pub schema_version: u32,
    pub artifact_kind: String,
    pub counts: FamilyCounts,
    pub families: Vec<StructuredFamilyEntry>,
}

#[derive(Debug, Clone)]
pub struct SourceProvenanceArtifact {
    pub hyprland_version: String,
    pub schema_version: u32,
    pub artifact_kind: String,
}

/// Every artifact of one export directory.
#[derive(Debug, Clone)]
pub struct ExportBundle {
    pub export_dir: String,
    pub manifest: ExportManifest,
    pub inventory: InventoryArtifact,
    pub read_allowlist: ReadAllowlistArtifact,
    pub non_read: NonReadArtifact,
    pub value_families: ValueFamiliesArtifact,
    pub preview_candidates: PreviewCandidatesArtifact,
    pub write_safety: WriteSafetyArtifact,
    pub structured_families: StructuredFamiliesArtifact,
    pub source_provenance: SourceProvenanceArtifact,
}

} // verus!
