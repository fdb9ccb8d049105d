use hyprland_settings::export::{
    CoverageCounts, ExportBundle, ExportManifest, FamilyCounts, InventoryArtifact, InventoryCounts,
    InventoryEntry, ManifestCounts, NonReadArtifact, NonReadCounts, NonReadEntry,
    PreviewCandidateEntry, PreviewCandidatesArtifact, PreviewCounts, ReadAllowlistArtifact,
    ReadAllowlistEntry, RowCounts, SourceProvenanceArtifact, StructuredFamiliesArtifact,
    StructuredFamilyEntry, TabEntry, ValueFamiliesArtifact, ValueFamilyEntry, WriteCandidateEntry,
    WriteSafetyArtifact, WriteSafetyCounts,
};
use hyprland_settings::validation::{validate_bundle, RequiredRowRule, ValidationError};

const VERSION: &str = "0.53.0";
const SCHEMA: u32 = 1;

fn s(x: &str) -> String {
    x.to_string()
}

fn ids() -> Vec<String> {
    let mut ids = vec![
        s("animations.enabled"),
        s("animations.workspace_wraparound"),
        s("windows.snap.enabled"),
    ];
    for i in 0..338 {
        ids.push(format!("row.{i}"));
    }
    ids
}

fn official(id: &str) -> String {
    format!("official.{id}")
}

fn inventory_entry(id: &str, order: usize) -> InventoryEntry {
    InventoryEntry {
        row_id: s(id),
        official_setting: official(id),
        tab_id: s("appearance"),
        tab_label: s("Appearance"),
        subsection: s("General"),
        row_order: order,
        label: s(id),
        description: s("A setting."),
        default_config_presence: s("not-exported"),
        read_support: s("current-value-read-allowlisted"),
        write_support: s("none"),
        risk_class: s("safe"),
        preview_status: s("none"),
        report_only: false,
        control_kind: s("toggle"),
        value_family: s("none"),
        parser_status: s("scalar-current-value-parser"),
        structured_family: None,
    }
}

fn valid_bundle() -> ExportBundle {
    let ids = ids();
    let settings: Vec<InventoryEntry> =
        ids.iter().enumerate().map(|(i, id)| inventory_entry(id, i)).collect();
    let read_items: Vec<ReadAllowlistEntry> = ids[..232]
        .iter()
        .map(|id| ReadAllowlistEntry { row_id: id.clone(), official_setting: Some(official(id)) })
        .collect();
    let non_read_items: Vec<NonReadEntry> = ids[232..]
        .iter()
        .enumerate()
        .map(|(i, id)| NonReadEntry {
            row_id: id.clone(),
            official_setting: Some(official(id)),
            unresolved_category: if i < 37 {
                s("preview-parser-needed")
            } else {
                s("report-only-high-risk")
            },
        })
        .collect();
    let preview_items: Vec<PreviewCandidateEntry> = ids[232..269]
        .iter()
        .enumerate()
        .map(|(i, id)| PreviewCandidateEntry {
            row_id: id.clone(),
            status: if i < 16 {
                s("safe-parsed-preview")
            } else if i < 32 {
                s("warning-preview")
            } else {
                s("deferred-parser-preview")
            },
        })
        .collect();
    let coverage = CoverageCounts { covered: 341, total: 341 };
    ExportBundle {
        export_dir: s("/usr/share/hyprland-settings/export"),
        manifest: ExportManifest {
            hyprland_version: s(VERSION),
            schema_version: SCHEMA,
            artifact_kind: s("export-manifest"),
            counts: ManifestCounts {
                inventory_rows: 341,
                official_scalar_coverage: coverage.clone(),
                read_allowlist_rows: 232,
                non_read_classification_rows: 109,
                preview_parser_needed_rows: 37,
                report_only_high_risk_rows: 72,
                safe_parsed_preview_candidates: 16,
                warning_preview_candidates: 16,
                deferred_parser_rows: 5,
                active_write_candidates: 1,
                active_write_candidate_ids: vec![s("windows.snap.enabled")],
            },
        },
        inventory: InventoryArtifact {
            hyprland_version: s(VERSION),
            schema_version: SCHEMA,
            artifact_kind: s("inventory"),
            counts: InventoryCounts { rows: 341, official_scalar_coverage: coverage },
            tabs: vec![TabEntry {
                tab_id: s("appearance"),
                tab_label: s("Appearance"),
                tab_order: 0,
                row_count: 341,
            }],
            settings,
        },
        read_allowlist: ReadAllowlistArtifact {
            hyprland_version: s(VERSION),
            schema_version: SCHEMA,
            artifact_kind: s("read-allowlist"),
            counts: RowCounts { rows: 232 },
            items: read_items,
        },
        non_read: NonReadArtifact {
            hyprland_version: s(VERSION),
            schema_version: SCHEMA,
            artifact_kind: s("non-read-classifications"),
            counts: NonReadCounts {
                rows: 109,
                preview_parser_needed_rows: 37,
                report_only_high_risk_rows: 72,
            },
            items: non_read_items,
        },
        value_families: ValueFamiliesArtifact {
            hyprland_version: s(VERSION),
            schema_version: SCHEMA,
            artifact_kind: s("value-families"),
            counts: FamilyCounts { families: 9 },
            items: [
                "color",
                "vector_tuple",
                "gradient",
                "path_shader_path",
                "regex_rule_like_string",
                "mixed_freeform_string",
                "bezierish_numeric_list",
                "none",
                "structured_curve_animation",
            ]
            .iter()
            .map(|f| ValueFamilyEntry { value_family: s(f) })
            .collect(),
        },
        preview_candidates: PreviewCandidatesArtifact {
            hyprland_version: s(VERSION),
            schema_version: SCHEMA,
            artifact_kind: s("preview-candidates"),
            counts: PreviewCounts {
                rows: 37,
                safe_parsed_preview_candidates: 16,
                warning_preview_candidates: 16,
                deferred_parser_rows: 5,
            },
            items: preview_items,
        },
        write_safety: WriteSafetyArtifact {
            hyprland_version: s(VERSION),
            schema_version: SCHEMA,
            artifact_kind: s("write-safety"),
            counts: WriteSafetyCounts { active_candidates: 1 },
            active_candidates: vec![WriteCandidateEntry {
                row_id: s("windows.snap.enabled"),
                official_setting: official("windows.snap.enabled"),
                target_mode: s("review-only"),
                executable: false,
                command_generation_allowed: false,
            }],
        },
        structured_families: StructuredFamiliesArtifact {
            hyprland_version: s(VERSION),
            schema_version: SCHEMA,
            artifact_kind: s("structured-families-design-index"),
            counts: FamilyCounts { families: 7 },
            families: [
                "hl.curve",
                "hl.animation",
                "hl.monitor",
                "hl.bind",
                "hl.device",
                "hl.gesture",
                "hl.permission",
            ]
            .iter()
            .map(|f| StructuredFamilyEntry { family_id: s(f) })
            .collect(),
        },
        source_provenance: SourceProvenanceArtifact {
            hyprland_version: s(VERSION),
            schema_version: SCHEMA,
            artifact_kind: s("source-provenance-index"),
        },
    }
}

fn check(b: &ExportBundle) -> Result<hyprland_settings::validation::ValidationSummary, ValidationError> {
    validate_bundle(b, VERSION, SCHEMA)
}

#[test]
fn a_consistent_bundle_passes_with_its_counts() {
    let summary = check(&valid_bundle()).expect("valid bundle");
    assert_eq!(summary.inventory_rows, 341);
    assert_eq!(summary.official_scalar_covered, 341);
    assert_eq!(summary.official_scalar_total, 341);
    assert_eq!(summary.read_allowlist_rows, 232);
    assert_eq!(summary.non_read_rows, 109);
    assert_eq!(summary.preview_parser_needed_rows, 37);
    assert_eq!(summary.report_only_high_risk_rows, 72);
    assert_eq!(summary.safe_parsed_preview_candidates, 16);
    assert_eq!(summary.warning_preview_candidates, 16);
    assert_eq!(summary.deferred_parser_rows, 5);
    assert_eq!(summary.active_write_candidate_ids, vec![s("windows.snap.enabled")]);
    assert_eq!(summary.structured_family_count, 7);
}

#[test]
fn the_pinned_versions_are_required() {
    let b = valid_bundle();
    match validate_bundle(&b, "0.54.0", SCHEMA) {
        Err(ValidationError::HyprlandVersion { label, expected, got }) => {
            assert_eq!(label, "manifest");
            assert_eq!(expected, "0.54.0");
            assert_eq!(got, VERSION);
        }
        other => panic!("unexpected {other:?}"),
    }
    let mut b = valid_bundle();
    b.inventory.schema_version = 2;
    match check(&b) {
        Err(ValidationError::SchemaVersion { label, expected, got }) => {
            assert_eq!((label, expected, got), ("inventory", 1, 2));
        }
        other => panic!("unexpected {other:?}"),
    }
    let mut b = valid_bundle();
    b.read_allowlist.artifact_kind = s("wrong");
    match check(&b) {
        Err(ValidationError::ArtifactKind { label, expected, got }) => {
            assert_eq!((label, expected, got.as_str()), ("read allowlist", "read-allowlist", "wrong"));
        }
        other => panic!("unexpected {other:?}"),
    }
    let mut b = valid_bundle();
    b.source_provenance.hyprland_version = s("x");
    match check(&b) {
        Err(ValidationError::HyprlandVersion { label, .. }) => assert_eq!(label, "source provenance"),
        other => panic!("unexpected {other:?}"),
    }
}

#[test]
fn blank_and_duplicate_ids_are_refused() {
    let mut b = valid_bundle();
    b.inventory.settings[5].row_id = s("");
    match check(&b) {
        Err(ValidationError::BlankRowId { label }) => assert_eq!(label, "inventory"),
        other => panic!("unexpected {other:?}"),
    }
    let mut b = valid_bundle();
    b.read_allowlist.items[10].row_id = s("row.3");
    b.read_allowlist.items[11].row_id = s("row.3");
    match check(&b) {
        Err(ValidationError::DuplicateRowIds { label, ids }) => {
            assert_eq!(label, "read allowlist");
            assert_eq!(ids, vec![s("row.3"), s("row.3")]);
        }
        other => panic!("unexpected {other:?}"),
    }
}

#[test]
fn counts_must_match_the_pins() {
    let mut b = valid_bundle();
    b.manifest.counts.inventory_rows = 340;
    match check(&b) {
        Err(ValidationError::CountMismatch { label, actual, expected }) => {
            assert_eq!((label, actual, expected), ("manifest inventory rows", 340, 341));
        }
        other => panic!("unexpected {other:?}"),
    }
    let mut b = valid_bundle();
    b.non_read.items[0].unresolved_category = s("report-only-high-risk");
    match check(&b) {
        Err(ValidationError::CountMismatch { label, actual, expected }) => {
            assert_eq!((label, actual, expected), ("preview/parser-needed rows", 36, 37));
        }
        other => panic!("unexpected {other:?}"),
    }
    let mut b = valid_bundle();
    b.preview_candidates.counts.rows = 36;
    match check(&b) {
        Err(ValidationError::CountMismatch { label, .. }) => assert_eq!(label, "preview counts.rows"),
        other => panic!("unexpected {other:?}"),
    }
    let mut b = valid_bundle();
    b.value_families.counts.families = 8;
    match check(&b) {
        Err(ValidationError::CountMismatch { label, actual, expected }) => {
            assert_eq!((label, actual, expected), ("value family count", 9, 8));
        }
        other => panic!("unexpected {other:?}"),
    }
}

#[test]
fn required_rows_keep_their_presence() {
    let mut b = valid_bundle();
    b.inventory.settings[0].row_id = s("animations.global_speed");
    match check(&b) {
        Err(ValidationError::RequiredRow { rule }) => assert_eq!(rule, RequiredRowRule::GlobalSpeedAbsent),
        other => panic!("unexpected {other:?}"),
    }
    let mut b = valid_bundle();
    b.inventory.settings[1].row_id = s("animations.other");
    match check(&b) {
        Err(ValidationError::RequiredRow { rule }) => assert_eq!(rule, RequiredRowRule::WraparoundPresent),
        other => panic!("unexpected {other:?}"),
    }
}

#[test]
fn links_between_artifacts_are_checked() {
    let mut b = valid_bundle();
    b.preview_candidates.items[3].row_id = s("ghost");
    match check(&b) {
        Err(ValidationError::OrphanRowIds { label, ids }) => {
            assert_eq!(label, "preview candidates");
            assert_eq!(ids, vec![s("ghost")]);
        }
        other => panic!("unexpected {other:?}"),
    }
    let mut b = valid_bundle();
    b.non_read.items[100].row_id = s("row.7");
    match check(&b) {
        Err(ValidationError::ReadNonReadOverlap { ids }) => assert_eq!(ids, vec![s("row.7")]),
        other => panic!("unexpected {other:?}"),
    }
}

#[test]
fn official_settings_must_agree() {
    let mut b = valid_bundle();
    b.read_allowlist.items[4].official_setting = None;
    match check(&b) {
        Err(ValidationError::MissingOfficialSetting { label, row_id }) => {
            assert_eq!((label, row_id.as_str()), ("read allowlist", "row.1"));
        }
        other => panic!("unexpected {other:?}"),
    }
    let mut b = valid_bundle();
    b.non_read.items[0].official_setting = Some(s("wrong"));
    match check(&b) {
        Err(ValidationError::OfficialSettingMismatch { label, row_id, actual, expected }) => {
            assert_eq!(label, "non-read classifications");
            assert_eq!(row_id, "row.229");
            assert_eq!(actual, "wrong");
            assert_eq!(expected, official("row.229"));
        }
        other => panic!("unexpected {other:?}"),
    }
}

#[test]
fn the_single_write_candidate_is_pinned_and_inert() {
    let mut b = valid_bundle();
    b.write_safety.active_candidates[0].row_id = s("row.5");
    b.write_safety.active_candidates[0].official_setting = official("row.5");
    match check(&b) {
        Err(ValidationError::ActiveWriteCandidates { ids }) => assert_eq!(ids, vec![s("row.5")]),
        other => panic!("unexpected {other:?}"),
    }
    let mut b = valid_bundle();
    b.manifest.counts.active_write_candidate_ids = vec![s("x")];
    match check(&b) {
        Err(ValidationError::ManifestActiveWriteCandidates { ids }) => assert_eq!(ids, vec![s("x")]),
        other => panic!("unexpected {other:?}"),
    }
    let mut b = valid_bundle();
    b.write_safety.active_candidates[0].executable = true;
    match check(&b) {
        Err(ValidationError::ExecutableCandidate { row_id }) => assert_eq!(row_id, "windows.snap.enabled"),
        other => panic!("unexpected {other:?}"),
    }
    let mut b = valid_bundle();
    b.write_safety.active_candidates[0].command_generation_allowed = true;
    match check(&b) {
        Err(ValidationError::CommandGenerationAllowed { row_id }) => {
            assert_eq!(row_id, "windows.snap.enabled")
        }
        other => panic!("unexpected {other:?}"),
    }
}

#[test]
fn required_families_must_be_present() {
    let mut b = valid_bundle();
    b.structured_families.families[5].family_id = s("hl.other");
    match check(&b) {
        Err(ValidationError::StructuredFamilyMissing { family }) => assert_eq!(family, "hl.gesture"),
        other => panic!("unexpected {other:?}"),
    }
    let mut b = valid_bundle();
    b.value_families.items[7].value_family = s("other");
    match check(&b) {
        Err(ValidationError::ValueFamilyMissing { family }) => assert_eq!(family, "none"),
        other => panic!("unexpected {other:?}"),
    }
    let mut b = valid_bundle();
    b.value_families.items.push(ValueFamilyEntry { value_family: s("extra") });
    b.value_families.counts.families = 10;
    match check(&b) {
        Err(ValidationError::CountMismatch { label, actual, expected }) => {
            assert_eq!((label, actual, expected), ("value family required count", 10, 9));
        }
        other => panic!("unexpected {other:?}"),
    }
    let mut b = valid_bundle();
    b.structured_families.families[0].family_id = s("hl.bind");
    match check(&b) {
        Err(ValidationError::DuplicateRowIds { label, ids }) => {
            assert_eq!(label, "structured families");
            assert_eq!(ids, vec![s("hl.bind")]);
        }
        other => panic!("unexpected {other:?}"),
    }
}

#[test]
fn refusal_messages() {
    let ids = vec![s("b.x"), s("a \"q\"")];
    let m = |e: ValidationError| e.message();
    assert_eq!(
        m(ValidationError::HyprlandVersion { label: "inventory", expected: s("0.52.0"), got: s("0.51.1") }),
        "inventory: expected Hyprland version 0.52.0, got 0.51.1"
    );
    assert_eq!(m(ValidationError::SchemaVersion { label: "manifest", expected: 3, got: 12 }), "manifest: expected schema version 3, got 12");
    assert_eq!(
        m(ValidationError::ArtifactKind { label: "manifest", expected: "export-manifest", got: s("other") }),
        "manifest: expected artifact kind export-manifest, got other"
    );
    assert_eq!(m(ValidationError::BlankRowId { label: "inventory" }), "inventory: blank row id");
    assert_eq!(
        m(ValidationError::DuplicateRowIds { label: "inventory", ids: ids.clone() }),
        format!("inventory: duplicate row IDs {:?}", ids)
    );
    assert_eq!(
        m(ValidationError::DuplicateRowIds { label: "inventory", ids: ids.clone() }),
        "inventory: duplicate row IDs [\"b.x\", \"a \\\"q\\\"\"]"
    );
    assert_eq!(m(ValidationError::CountMismatch { label: "inventory rows", actual: 340, expected: 341 }), "inventory rows: got 340, expected 341");
    assert_eq!(m(ValidationError::RequiredRow { rule: RequiredRowRule::StyleAbsent }), "animations.style must remain absent");
    assert_eq!(m(ValidationError::RequiredRow { rule: RequiredRowRule::WraparoundPresent }), "animations.workspace_wraparound must remain present");
    assert_eq!(m(ValidationError::OrphanRowIds { label: "read allowlist", ids: vec![s("z")] }), "read allowlist: orphan row IDs [\"z\"]");
    assert_eq!(m(ValidationError::ReadNonReadOverlap { ids: vec![] }), "read/non-read overlap: []");
    assert_eq!(m(ValidationError::MissingReadStatus { ids: vec![s("a"), s("b")] }), "inventory rows without read or non-read status: [\"a\", \"b\"]");
    assert_eq!(m(ValidationError::MissingFromInventory { label: "preview", row_id: s("a.b") }), "preview: a.b missing from inventory");
    assert_eq!(m(ValidationError::MissingOfficialSetting { label: "preview", row_id: s("a.b") }), "preview: a.b missing official setting");
    assert_eq!(
        m(ValidationError::OfficialSettingMismatch { label: "read allowlist", row_id: s("a.b"), actual: s("x"), expected: s("y") }),
        "read allowlist: a.b official setting mismatch: x != y"
    );
    assert_eq!(
        m(ValidationError::ActiveWriteCandidates { ids: vec![s("q")] }),
        "active write candidates must be [windows.snap.enabled], got [\"q\"]"
    );
    assert_eq!(
        m(ValidationError::ManifestActiveWriteCandidates { ids: vec![] }),
        "manifest active write candidates must be [windows.snap.enabled], got []"
    );
    assert_eq!(m(ValidationError::ExecutableCandidate { row_id: s("w") }), "w must be non-executable");
    assert_eq!(m(ValidationError::CommandGenerationAllowed { row_id: s("w") }), "w must not allow command generation");
    assert_eq!(m(ValidationError::StructuredFamilyMissing { family: "bind" }), "structured family bind missing");
    assert_eq!(m(ValidationError::ValueFamilyMissing { family: "color" }), "value family color missing");
}
