use hyprland_settings::ui::review_labels::{
    duplicate_gate_status_label, search_rank_label, source_include_dry_run_status_label,
    source_include_readiness_label, DuplicateProductionGateStatus, SearchRank,
    SourceIncludeInsertionReadiness, SourceIncludeSelectedTargetDryRunStatus,
};
use hyprland_settings::ui::review_labels::DuplicateProductionGateStatus::{
    ConfirmedButProductionDisabled, CopiedProofMismatch, Expired, FingerprintMismatch,
    MissingConfirmation, MissingCopiedProof, PendingConfirmation, ReadyButDefaultDisabled,
    Rejected,
};
use hyprland_settings::ui::review_labels::SourceIncludeInsertionReadiness::{
    DuplicateOrAmbiguousBlocked, ManagedTargetBlocked, SingleRootEligible,
    SourceIncludeTargetSelectionRequired,
};
use hyprland_settings::ui::review_labels::SourceIncludeSelectedTargetDryRunStatus::{
    InsertionPlanBlocked, NonFixtureTargetRefused, Planned, SelectionBlocked, TargetMismatch,
};

#[test]
fn search_rank_labels() {
    assert_eq!(search_rank_label(Some(SearchRank::ExactKey)), "exact key match");
    assert_eq!(search_rank_label(Some(SearchRank::PrefixKey)), "key prefix match");
    assert_eq!(search_rank_label(Some(SearchRank::Label)), "label match");
    assert_eq!(search_rank_label(Some(SearchRank::Context)), "tab/subsection match");
    assert_eq!(search_rank_label(Some(SearchRank::Description)), "description match");
    assert_eq!(search_rank_label(Some(SearchRank::Metadata)), "metadata match");
    assert_eq!(search_rank_label(None), "selected tab");
}

#[test]
fn duplicate_gate_labels() {
    assert_eq!(duplicate_gate_status_label(MissingConfirmation), "missing confirmation");
    assert_eq!(duplicate_gate_status_label(PendingConfirmation), "pending confirmation");
    assert_eq!(duplicate_gate_status_label(ConfirmedButProductionDisabled), "confirmed but production disabled");
    assert_eq!(duplicate_gate_status_label(MissingCopiedProof), "missing copied proof");
    assert_eq!(duplicate_gate_status_label(CopiedProofMismatch), "copied proof mismatch");
    assert_eq!(duplicate_gate_status_label(ReadyButDefaultDisabled), "ready but default disabled");
    assert_eq!(duplicate_gate_status_label(Rejected), "rejected");
    assert_eq!(duplicate_gate_status_label(Expired), "expired");
    assert_eq!(duplicate_gate_status_label(FingerprintMismatch), "fingerprint mismatch");
}

#[test]
fn source_include_labels() {
    assert_eq!(source_include_readiness_label(SingleRootEligible), "single-root eligible");
    assert_eq!(source_include_readiness_label(SourceIncludeTargetSelectionRequired), "target selection required");
    assert_eq!(source_include_readiness_label(ManagedTargetBlocked), "managed target blocked");
    assert_eq!(source_include_readiness_label(DuplicateOrAmbiguousBlocked), "duplicate or ambiguous target blocked");
    assert_eq!(source_include_dry_run_status_label(Planned), "planned for fixture dry-run");
    assert_eq!(source_include_dry_run_status_label(SelectionBlocked), "selection blocked");
    assert_eq!(source_include_dry_run_status_label(TargetMismatch), "target mismatch");
    assert_eq!(source_include_dry_run_status_label(InsertionPlanBlocked), "insertion plan blocked");
    assert_eq!(source_include_dry_run_status_label(NonFixtureTargetRefused), "non-fixture target refused");
}
