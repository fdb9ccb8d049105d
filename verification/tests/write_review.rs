use hyprland_settings::write_advanced_confirmation::advanced_confirmation_for_candidate;
use hyprland_settings::write_backup_plan::build_exact_backup_plan;
use hyprland_settings::write_enablement_readiness::{
    current_production_write_enablement_readiness, disabled_walkthrough_manual_smoke_checklist,
    ProductionWriteEnablementStatus, PRODUCTION_WRITE_TARGET_SELECTION_READY,
};
use hyprland_settings::write_target_candidate::WriteTargetCandidate;

fn candidate(path: &str, generated: bool, symlink: bool, advanced: bool) -> WriteTargetCandidate {
    WriteTargetCandidate {
        file_path: path.to_string(),
        resolved_path: if symlink { Some("/nix/store/abc-hyprland.conf".to_string()) } else { None },
        generated_or_script_managed: generated,
        symlink_managed: symlink,
        requires_advanced_confirmation: advanced,
        backup_required: true,
    }
}

#[test]
fn readiness_is_not_ready_with_every_gate_pending() {
    let r = current_production_write_enablement_readiness();
    assert_eq!(r.status, ProductionWriteEnablementStatus::NotReady);
    assert!(!r.is_ready());
    assert_eq!(r.gates.len(), 12);
    assert!(r.gates.iter().all(|g| !g.satisfied && g.production_enabling));
    assert_eq!(r.gates[0].id, "production_write_review_gate");
    assert_eq!(r.gates[11].label, "Production Apply integration explicitly allowed");
    assert!(!r.production_apply_integration_allowed);
    assert!(!r.real_write_target_selection_active);
    assert!(!r.real_layered_writes_active);
    assert!(PRODUCTION_WRITE_TARGET_SELECTION_READY);
}

#[test]
fn readiness_needs_status_apply_and_every_gate() {
    let mut r = current_production_write_enablement_readiness();
    r.status = ProductionWriteEnablementStatus::Ready;
    r.production_apply_integration_allowed = true;
    assert!(!r.is_ready());
    for gate in r.gates.iter_mut() {
        gate.satisfied = true;
    }
    assert!(r.is_ready());
    r.gates[3].satisfied = false;
    assert!(!r.is_ready());
    r.gates[3].satisfied = true;
    r.production_apply_integration_allowed = false;
    assert!(!r.is_ready());
    r.production_apply_integration_allowed = true;
    r.status = ProductionWriteEnablementStatus::NotReady;
    assert!(!r.is_ready());
}

#[test]
fn readiness_lines() {
    let lines = current_production_write_enablement_readiness().user_facing_lines();
    assert_eq!(lines.len(), 20);
    assert_eq!(lines[0], "Production write enablement");
    assert_eq!(lines[1], "Status: Not ready");
    assert_eq!(lines[5], "Required before enabling: Production write review gate enabled");
    assert_eq!(lines[16], "Required before enabling: Production Apply integration explicitly allowed");
    assert_eq!(lines[17], "Real write-target selection is not active yet.");
    assert_eq!(lines[19], "Apply behavior has not changed.");
}

#[test]
fn smoke_checklist() {
    let c = disabled_walkthrough_manual_smoke_checklist();
    assert_eq!(c.title, "Disabled write review walkthrough manual smoke checklist");
    assert_eq!(c.where_to_inspect.len(), 4);
    assert_eq!(c.expected_ui_copy.len(), 10);
    assert_eq!(c.disabled_controls.len(), 3);
    assert_eq!(c.must_not_happen.len(), 5);
    let lines = c.user_facing_lines();
    assert_eq!(lines.len(), 1 + 4 + 10 + 3 + 5 + 1);
    assert_eq!(lines[0], "Disabled write review walkthrough manual smoke checklist");
    assert_eq!(lines[1], "Launch the app.");
    assert_eq!(lines[5], "Look for: Write review walkthrough");
    assert_eq!(lines[15], "Disabled: Target decisions are preview-only");
    assert_eq!(lines[18], "Must not happen: No config file is edited.");
    assert_eq!(
        lines[23],
        "Automated screenshots were not required for this source-level smoke support sprint."
    );
}

#[test]
fn advanced_confirmation_for_managed_files() {
    let c = advanced_confirmation_for_candidate(&candidate("/home/u/.config/hypr/hyprland.conf", true, true, true));
    assert!(c.requires_confirmation && c.advanced_mode_required);
    assert!(c.generated_file_warning && c.script_managed_warning && c.symlink_managed_warning);
    assert_eq!(c.reasons, vec!["generated or script-managed file".to_string(), "symlink-managed file".to_string()]);
    assert!(!c.confirmed);
    assert!(c.production_disabled);
    assert_eq!(
        c.user_facing_lines(),
        vec![
            "This file may be changed by scripts.".to_string(),
            "This file appears to be generated.".to_string(),
            "This file is symlinked.".to_string(),
            "Advanced confirmation would be required before writing here.".to_string(),
            "Advanced confirmation is not active yet.".to_string(),
        ]
    );
}

#[test]
fn advanced_confirmation_for_plain_files() {
    let c = advanced_confirmation_for_candidate(&candidate("/home/u/.config/hypr/hyprland.conf", false, false, false));
    assert!(!c.requires_confirmation && !c.advanced_mode_required);
    assert!(c.reasons.is_empty());
    assert!(!c.confirmed && c.production_disabled);
    assert_eq!(c.user_facing_lines(), vec!["Advanced confirmation is not active yet.".to_string()]);
    let s = advanced_confirmation_for_candidate(&candidate("/x", false, true, false));
    assert_eq!(s.reasons, vec!["symlink-managed file".to_string()]);
    assert_eq!(
        s.user_facing_lines(),
        vec!["This file is symlinked.".to_string(), "Advanced confirmation is not active yet.".to_string()]
    );
}

#[test]
fn backup_plans_replace_the_extension() {
    let plan = build_exact_backup_plan(&candidate("/home/u/.config/hypr/hyprland.conf", false, true, false));
    assert_eq!(plan.target_file_path, "/home/u/.config/hypr/hyprland.conf");
    assert_eq!(plan.resolved_target_path.as_deref(), Some("/nix/store/abc-hyprland.conf"));
    assert_eq!(plan.backup_path, "/home/u/.config/hypr/hyprland.review-plan.bak");
    assert_eq!(plan.backup_naming_policy, "target file plus review-plan.bak suffix");
    assert!(plan.backup_required && plan.fixture_only && plan.production_backup_disabled);
    assert_eq!(
        plan.user_facing_lines(),
        vec![
            "The app will back up this exact file before saving changes.".to_string(),
            "Backup file: /home/u/.config/hypr/hyprland.review-plan.bak".to_string(),
            "Backup proof is fixture-only right now.".to_string(),
        ]
    );
    let bare = build_exact_backup_plan(&candidate("/etc/hypr/config", false, false, false));
    assert_eq!(bare.backup_path, "/etc/hypr/config.review-plan.bak");
    assert_eq!(bare.resolved_target_path, None);
}
