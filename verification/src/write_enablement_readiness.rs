//! Whether production writing may be switched on: the gates that must all
//! be satisfied first, and the manual smoke checklist of the disabled write
//! review walkthrough.
use vstd::prelude::*;
use crate::id_list::strings_view;
use crate::lines::{append_copies, append_prefixed, prefixed, push_line, push_prefixed};

verus! {

/// Target-selection approval is staged.
pub const PRODUCTION_WRITE_TARGET_SELECTION_READY: bool = true;

#[derive(Debug, Clone, PartialEq, Eq)]
pub struct ManualSmokeReviewChecklist {
    pub title: String,
    pub where_to_inspect: Vec<String>,
    pub expected_ui_copy: Vec<String>,
    pub disabled_controls: Vec<String>,
    pub must_not_happen: Vec<String>,
    pub screenshot_automation: String,
}

impl ManualSmokeReviewChecklist {
    /// The checklist as displayed lines: the title, where to look, what to
    /// look for, what stays disabled, what must not happen, and the note on
    /// screenshots.
    pub open spec fn lines(&self) -> Seq<Seq<char>> {
        seq![self.title@] + strings_view(self.where_to_inspect@) + prefixed(
            "Look for: "@,
            strings_view(self.expected_ui_copy@),
        ) + prefixed("Disabled: "@, strings_view(self.disabled_controls@)) + prefixed(
            "Must not happen: "@,
            strings_view(self.must_not_happen@),
        ) + seq![self.screenshot_automation@]
    }

    pub fn user_facing_lines(&self) -> (r: Vec<String>)
        ensures
            strings_view(r@) == self.lines(),
    {
        let mut lines: Vec<String> = Vec::new();
        push_line(&mut lines, self.title.as_str());
        append_copies(&mut lines, &self.where_to_inspect);
        append_prefixed(&mut lines, "Look for: ", &self.expected_ui_copy);
        append_prefixed(&mut lines, "Disabled: ", &self.disabled_controls);
        append_prefixed(&mut lines, "Must not happen: ", &self.must_not_happen);
        push_line(&mut lines, self.screenshot_automation.as_str());
        assert(strings_view(lines@) =~= self.lines());
        lines
    }
}

/// Owned copies of `items`, in order.
fn owned_lines(items: &[&str]) -> (r: Vec<String>)
    ensures
        strings_view(r@) == items@.map_values(|s: &str| s@),
{
    let mut r: Vec<String> = Vec::new();
    let mut i: usize = 0;
    while i < items.len()
        invariant
            i <= items.len(),
            strings_view(r@) == items@.map_values(|s: &str| s@).subrange(0, i as int),
        decreases items.len() - i,
    {
        push_line(&mut r, items[i]);
        assert(items@.map_values(|s: &str| s@).subrange(0, i + 1) =~= items@.map_values(
            |s: &str| s@,
        ).subrange(0, i as int).push(items@[i as int]@));
        i = i + 1;
    }
    assert(items@.map_values(|s: &str| s@).subrange(0, i as int) =~= items@.map_values(
        |s: &str| s@,
    ));
    r
}

pub open spec fn walkthrough_where_to_inspect() -> Seq<Seq<char>> {
    seq![
        "Launch the app."@,
        "Open a normal settings category."@,
        "Select a setting controlled in more than one place."@,
        "Inspect the setting detail pane."@,
    ]
}

pub open spec fn walkthrough_expected_ui_copy() -> Seq<Seq<char>> {
    seq![
        "Write review walkthrough"@,
        "Shown when a setting is controlled in more than one place."@,
        "This walkthrough shows what the app would check before writing."@,
        "Recommended save location"@,
        "Backup planned"@,
        "Verification planned"@,
        "Target decisions are preview-only right now."@,
        "Real save-location selection is not active yet."@,
        "Real writing is not active yet."@,
        "Apply behavior has not changed."@,
    ]
}

pub open spec fn walkthrough_disabled_controls() -> Seq<Seq<char>> {
    seq![
        "Target decisions are preview-only"@,
        "Review save location"@,
        "Production enablement is disabled"@,
    ]
}

pub open spec fn walkthrough_must_not_happen() -> Seq<Seq<char>> {
    seq![
        "No config file is edited."@,
        "No Hyprland reload is run."@,
        "No mutating hyprctl command is run."@,
        "No real save-location selection becomes active."@,
        "Apply behavior does not change."@,
    ]
}

/// The manual smoke checklist of the disabled write review walkthrough.
pub fn disabled_walkthrough_manual_smoke_checklist() -> (r: ManualSmokeReviewChecklist)
    ensures
        r.title@ == "Disabled write review walkthrough manual smoke checklist"@,
        strings_view(r.where_to_inspect@) == walkthrough_where_to_inspect(),
        strings_view(r.expected_ui_copy@) == walkthrough_expected_ui_copy(),
        strings_view(r.disabled_controls@) == walkthrough_disabled_controls(),
        strings_view(r.must_not_happen@) == walkthrough_must_not_happen(),
        r.screenshot_automation@
            == "Automated screenshots were not required for this source-level smoke support sprint."@,
{
    let where_items: &[&str] = &[
        "Launch the app.",
        "Open a normal settings category.",
        "Select a setting controlled in more than one place.",
        "Inspect the setting detail pane.",
    ];
    let expected_items: &[&str] = &[
        "Write review walkthrough",
        "Shown when a setting is controlled in more than one place.",
        "This walkthrough shows what the app would check before writing.",
        "Recommended save location",
        "Backup planned",
        "Verification planned",
        "Target decisions are preview-only right now.",
        "Real save-location selection is not active yet.",
        "Real writing is not active yet.",
        "Apply behavior has not changed.",
    ];
    let disabled_items: &[&str] = &[
        "Target decisions are preview-only",
        "Review save location",
        "Production enablement is disabled",
    ];
    let must_not_items: &[&str] = &[
        "No config file is edited.",
        "No Hyprland reload is run.",
        "No mutating hyprctl command is run.",
        "No real save-location selection becomes active.",
        "Apply behavior does not change.",
    ];
    let where_to_inspect = owned_lines(where_items);
    let expected_ui_copy = owned_lines(expected_items);
    let disabled_controls = owned_lines(disabled_items);
    let must_not_happen = owned_lines(must_not_items);
    assert(strings_view(where_to_inspect@) =~= walkthrough_where_to_inspect());
    assert(strings_view(expected_ui_copy@) =~= walkthrough_expected_ui_copy());
    assert(strings_view(disabled_controls@) =~= walkthrough_disabled_controls());
    assert(strings_view(must_not_happen@) =~= walkthrough_must_not_happen());
    ManualSmokeReviewChecklist {
        title: "Disabled write review walkthrough manual smoke checklist".to_owned(),
        where_to_inspect,
        expected_ui_copy,
        disabled_controls,
        must_not_happen,
        screenshot_automation:
            "Automated screenshots were not required for this source-level smoke support sprint.".to_owned(),
    }
}

#[derive(Debug, Clone, Copy, PartialEq, Eq, Structural)]
pub enum ProductionWriteEnablementStatus {
    NotReady,
    Ready,
}

#[derive(Debug, Clone, PartialEq, Eq)]
pub struct ProductionWriteEnablementGate {
    pub id: &'static str,
    pub label: &'static str,
    pub satisfied: bool,
    pub production_enabling: bool,
}

#[derive(Debug, Clone, PartialEq, Eq)]
pub struct ProductionWriteEnablementReadiness {
    pub status: ProductionWriteEnablementStatus,
    pub gates: Vec<ProductionWriteEnablementGate>,
    pub production_apply_integration_allowed: bool,
    pub real_write_target_selection_active: bool,
    pub real_layered_writes_active: bool,
}

/// The labels of `gates`, in order.
pub open spec fn gate_labels(gates: Seq<ProductionWriteEnablementGate>) -> Seq<Seq<char>> {
    gates.map_values(|g: ProductionWriteEnablementGate| g.label@)
}

/// Production writing may be enabled: the status says ready, Apply
/// integration is allowed and every gate is satisfied.
pub open spec fn ready(r: ProductionWriteEnablementReadiness) -> bool {
    &&& r.status == ProductionWriteEnablementStatus::Ready
    &&& r.production_apply_integration_allowed
    &&& forall|i: int| 0 <= i < r.gates@.len() ==> (#[trigger] r.gates@[i]).satisfied
}

impl ProductionWriteEnablementReadiness {
    /// The readiness as shown to the user: a fixed not-ready preamble, one
    /// line per gate, and the fixed closing lines.
    pub open spec fn lines(&self) -> Seq<Seq<char>> {
        seq![
            "Production write enablement"@,
            "Status: Not ready"@,
            "Target-selection approval is staged; real selection is still not active yet."@,
            "The app can preview the review flow, but cannot write through it."@,
            "Before enabling writes, exact backup, reread verification, recovery, and advanced confirmation must be complete."@,
        ] + prefixed("Required before enabling: "@, gate_labels(self.gates@)) + seq![
            "Real write-target selection is not active yet."@,
            "Real writing is not active yet."@,
            "Apply behavior has not changed."@,
        ]
    }

    pub fn user_facing_lines(&self) -> (r: Vec<String>)
        ensures
            strings_view(r@) == self.lines(),
    {
        let mut lines: Vec<String> = Vec::new();
        push_line(&mut lines, "Production write enablement");
        push_line(&mut lines, "Status: Not ready");
        push_line(
            &mut lines,
            "Target-selection approval is staged; real selection is still not active yet.",
        );
        push_line(&mut lines, "The app can preview the review flow, but cannot write through it.");
        push_line(
            &mut lines,
            "Before enabling writes, exact backup, reread verification, recovery, and advanced confirmation must be complete.",
        );
        let ghost head = strings_view(lines@);
        let mut i: usize = 0;
        while i < self.gates.len()
            invariant
                i <= self.gates@.len(),
                strings_view(lines@) == head + prefixed(
                    "Required before enabling: "@,
                    gate_labels(self.gates@),
                ).subrange(0, i as int),
            decreases self.gates@.len() - i,
        {
            push_prefixed(&mut lines, "Required before enabling: ", self.gates[i].label);
            assert(prefixed("Required before enabling: "@, gate_labels(self.gates@)).subrange(
                0,
                i + 1,
            ) =~= prefixed("Required before enabling: "@, gate_labels(self.gates@)).subrange(
                0,
                i as int,
            ).push("Required before enabling: "@ + self.gates@[i as int].label@));
            i = i + 1;
        }
        assert(prefixed("Required before enabling: "@, gate_labels(self.gates@)).subrange(
            0,
            i as int,
        ) =~= prefixed("Required before enabling: "@, gate_labels(self.gates@)));
        push_line(&mut lines, "Real write-target selection is not active yet.");
        push_line(&mut lines, "Real writing is not active yet.");
        push_line(&mut lines, "Apply behavior has not changed.");
        assert(strings_view(lines@) =~= self.lines());
        lines
    }

    pub fn is_ready(&self) -> (r: bool)
        ensures
            r == ready(*self),
    {
        if !matches!(self.status, ProductionWriteEnablementStatus::Ready) {
            return false;
        }
        if !self.production_apply_integration_allowed {
            return false;
        }
        let mut i: usize = 0;
        while i < self.gates.len()
            invariant
                i <= self.gates@.len(),
                forall|j: int| 0 <= j < i ==> (#[trigger] self.gates@[j]).satisfied,
            decreases self.gates@.len() - i,
        {
            if !self.gates[i].satisfied {
                return false;
            }
            i = i + 1;
        }
        true
    }
}

/// A gate that must be satisfied before production writing, not yet
/// satisfied.
pub open spec fn pending_gate(id: &'static str, label: &'static str) -> ProductionWriteEnablementGate {
    ProductionWriteEnablementGate { id, label, satisfied: false, production_enabling: true }
}

fn gate(id: &'static str, label: &'static str) -> (r: ProductionWriteEnablementGate)
    ensures
        r == pending_gate(id, label),
{
    ProductionWriteEnablementGate { id, label, satisfied: false, production_enabling: true }
}

/// The gates of production write enablement, in order.
pub open spec fn current_gates() -> Seq<ProductionWriteEnablementGate> {
    seq![
        pending_gate("production_write_review_gate", "Production write review gate enabled"),
        pending_gate("target_selection_ui", "Target selection UI enabled"),
        pending_gate("exact_backup", "Exact backup implementation"),
        pending_gate("backup_path_policy", "Backup path policy finalized"),
        pending_gate("generated_script_confirmation", "Generated/script-managed confirmation"),
        pending_gate("symlink_target_policy", "Symlink target policy"),
        pending_gate("reread_verification", "Reread verification"),
        pending_gate("rollback_recovery", "Rollback/recovery plan"),
        pending_gate("high_risk_policy", "High-risk policy integration"),
        pending_gate("fixture_proof", "Fixture proof acceptance"),
        pending_gate("manual_smoke_review", "Manual smoke review completed"),
        pending_gate(
            "production_apply_integration",
            "Production Apply integration explicitly allowed",
        ),
    ]
}

/// The readiness that this build reports: not ready, every gate pending,
/// and nothing real switched on.
pub open spec fn is_current_readiness(r: ProductionWriteEnablementReadiness) -> bool {
    &&& r.status == ProductionWriteEnablementStatus::NotReady
    &&& r.gates@ == current_gates()
    &&& !r.production_apply_integration_allowed
    &&& !r.real_write_target_selection_active
    &&& !r.real_layered_writes_active
}

pub fn current_production_write_enablement_readiness() -> (r: ProductionWriteEnablementReadiness)
    ensures
        is_current_readiness(r),
{
    let gates = vec![
        gate("production_write_review_gate", "Production write review gate enabled"),
        gate("target_selection_ui", "Target selection UI enabled"),
        gate("exact_backup", "Exact backup implementation"),
        gate("backup_path_policy", "Backup path policy finalized"),
        gate("generated_script_confirmation", "Generated/script-managed confirmation"),
        gate("symlink_target_policy", "Symlink target policy"),
        gate("reread_verification", "Reread verification"),
        gate("rollback_recovery", "Rollback/recovery plan"),
        gate("high_risk_policy", "High-risk policy integration"),
        gate("fixture_proof", "Fixture proof acceptance"),
        gate("manual_smoke_review", "Manual smoke review completed"),
        gate("production_apply_integration", "Production Apply integration explicitly allowed"),
    ];
    assert(gates@ =~= current_gates());
    ProductionWriteEnablementReadiness {
        status: ProductionWriteEnablementStatus::NotReady,
        gates,
        production_apply_integration_allowed: false,
        real_write_target_selection_active: false,
        real_layered_writes_active: false,
    }
}

/// Law: the readiness this build reports is never ready, every one of its
/// gates is pending and production-enabling, and its user-facing lines list
/// each gate as required before enabling.
pub proof fn law_current_readiness_is_not_ready(r: ProductionWriteEnablementReadiness)
    requires
        is_current_readiness(r),
    ensures
        !ready(r),
        r.gates@.len() == 12,
        forall|i: int|
            0 <= i < r.gates@.len() ==> !(#[trigger] r.gates@[i]).satisfied
                && r.gates@[i].production_enabling,
        r.lines().len() == 20,
        r.lines()[1] == "Status: Not ready"@,
{
}

} // verus!
