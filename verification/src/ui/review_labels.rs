//! Short labels the detail pane and the search results show for statuses
//! of the duplicate-value gate, the `source` include insertion review and
//! the search ranking.
use vstd::prelude::*;

verus! {

/// Why a search result matched the query.
#[derive(Debug, Clone, Copy, PartialEq, Eq, Structural)]
pub enum SearchRank {
    ExactKey,
    PrefixKey,
    Label,
    Context,
    Description,
    Metadata,
}

pub open spec fn rank_label(rank: Option<SearchRank>) -> Seq<char> {
    match rank {
        Some(SearchRank::ExactKey) => "exact key match"@,
        Some(SearchRank::PrefixKey) => "key prefix match"@,
        Some(SearchRank::Label) => "label match"@,
        Some(SearchRank::Context) => "tab/subsection match"@,
        Some(SearchRank::Description) => "description match"@,
        Some(SearchRank::Metadata) => "metadata match"@,
        None => "selected tab"@,
    }
}

/// How a row came to be listed: by a search match, or by the selected tab.
pub fn search_rank_label(rank: Option<SearchRank>) -> (r: &'static str)
    ensures
        r@ == rank_label(rank),
{
    match rank {
        Some(SearchRank::ExactKey) => "exact key match",
        Some(SearchRank::PrefixKey) => "key prefix match",
        Some(SearchRank::Label) => "label match",
        Some(SearchRank::Context) => "tab/subsection match",
        Some(SearchRank::Description) => "description match",
        Some(SearchRank::Metadata) => "metadata match",
        None => "selected tab",
    }
}

/// Where the production gate for writing over a duplicated setting stands.
#[derive(Debug, Clone, Copy, PartialEq, Eq, Structural)]
pub enum DuplicateProductionGateStatus {
    MissingConfirmation,
    PendingConfirmation,
    ConfirmedButProductionDisabled,
    MissingCopiedProof,
    CopiedProofMismatch,
    ReadyButDefaultDisabled,
    Rejected,
    Expired,
    FingerprintMismatch,
}

pub open spec fn gate_label(status: DuplicateProductionGateStatus) -> Seq<char> {
    match status {
        DuplicateProductionGateStatus::MissingConfirmation => "missing confirmation"@,
        DuplicateProductionGateStatus::PendingConfirmation => "pending confirmation"@,
        DuplicateProductionGateStatus::ConfirmedButProductionDisabled => "confirmed but production disabled"@,
        DuplicateProductionGateStatus::MissingCopiedProof => "missing copied proof"@,
        DuplicateProductionGateStatus::CopiedProofMismatch => "copied proof mismatch"@,
        DuplicateProductionGateStatus::ReadyButDefaultDisabled => "ready but default disabled"@,
        DuplicateProductionGateStatus::Rejected => "rejected"@,
        DuplicateProductionGateStatus::Expired => "expired"@,
        DuplicateProductionGateStatus::FingerprintMismatch => "fingerprint mismatch"@,
    }
}

pub fn duplicate_gate_status_label(status: DuplicateProductionGateStatus) -> (r: &'static str)
    ensures
        r@ == gate_label(status),
{
    match status {
        DuplicateProductionGateStatus::MissingConfirmation => "missing confirmation",
        DuplicateProductionGateStatus::PendingConfirmation => "pending confirmation",
        DuplicateProductionGateStatus::ConfirmedButProductionDisabled => {
            "confirmed but production disabled"
        },
        DuplicateProductionGateStatus::MissingCopiedProof => "missing copied proof",
        DuplicateProductionGateStatus::CopiedProofMismatch => "copied proof mismatch",
        DuplicateProductionGateStatus::ReadyButDefaultDisabled => "ready but default disabled",
        DuplicateProductionGateStatus::Rejected => "rejected",
        DuplicateProductionGateStatus::Expired => "expired",
        DuplicateProductionGateStatus::FingerprintMismatch => "fingerprint mismatch",
    }
}

/// Whether a `source` include line could be inserted for a setting.
#[derive(Debug, Clone, Copy, PartialEq, Eq, Structural)]
pub enum SourceIncludeInsertionReadiness {
    SingleRootEligible,
    SourceIncludeTargetSelectionRequired,
    ManagedTargetBlocked,
    DuplicateOrAmbiguousBlocked,
}

pub open spec fn readiness_label(readiness: SourceIncludeInsertionReadiness) -> Seq<char> {
    match readiness {
        SourceIncludeInsertionReadiness::SingleRootEligible => "single-root eligible"@,
        SourceIncludeInsertionReadiness::SourceIncludeTargetSelectionRequired => "target selection required"@,
        SourceIncludeInsertionReadiness::ManagedTargetBlocked => "managed target blocked"@,
        SourceIncludeInsertionReadiness::DuplicateOrAmbiguousBlocked => "duplicate or ambiguous target blocked"@,
    }
}

pub fn source_include_readiness_label(readiness: SourceIncludeInsertionReadiness) -> (r:
    &'static str)
    ensures
        r@ == readiness_label(readiness),
{
    match readiness {
        SourceIncludeInsertionReadiness::SingleRootEligible => "single-root eligible",
        SourceIncludeInsertionReadiness::SourceIncludeTargetSelectionRequired => {
            "target selection required"
        },
        SourceIncludeInsertionReadiness::ManagedTargetBlocked => "managed target blocked",
        SourceIncludeInsertionReadiness::DuplicateOrAmbiguousBlocked => {
            "duplicate or ambiguous target blocked"
        },
    }
}

/// The outcome of a dry run of inserting a `source` line into the chosen
/// target file.
#[derive(Debug, Clone, Copy, PartialEq, Eq, Structural)]
pub enum SourceIncludeSelectedTargetDryRunStatus {
    Planned,
    SelectionBlocked,
    TargetMismatch,
    InsertionPlanBlocked,
    NonFixtureTargetRefused,
}

pub open spec fn dry_run_label(status: SourceIncludeSelectedTargetDryRunStatus) -> Seq<char> {
    match status {
        SourceIncludeSelectedTargetDryRunStatus::Planned => "planned for fixture dry-run"@,
        SourceIncludeSelectedTargetDryRunStatus::SelectionBlocked => "selection blocked"@,
        SourceIncludeSelectedTargetDryRunStatus::TargetMismatch => "target mismatch"@,
        SourceIncludeSelectedTargetDryRunStatus::InsertionPlanBlocked => "insertion plan blocked"@,
        SourceIncludeSelectedTargetDryRunStatus::NonFixtureTargetRefused => "non-fixture target refused"@,
    }
}

pub fn source_include_dry_run_status_label(status: SourceIncludeSelectedTargetDryRunStatus) -> (r:
    &'static str)
    ensures
        r@ == dry_run_label(status),
{
    match status {
        SourceIncludeSelectedTargetDryRunStatus::Planned => "planned for fixture dry-run",
        SourceIncludeSelectedTargetDryRunStatus::SelectionBlocked => "selection blocked",
        SourceIncludeSelectedTargetDryRunStatus::TargetMismatch => "target mismatch",
        SourceIncludeSelectedTargetDryRunStatus::InsertionPlanBlocked => "insertion plan blocked",
        SourceIncludeSelectedTargetDryRunStatus::NonFixtureTargetRefused => {
            "non-fixture target refused"
        },
    }
}

} // verus!
