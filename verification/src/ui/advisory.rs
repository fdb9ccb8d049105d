//! The optional screen shader advisory check as the settings window shows
//! it: where the action sits, what it promises, and how each outcome of the
//! check is rendered. Whatever the check reports, a render never approves,
//! blocks or bypasses a write.
use vstd::prelude::*;
use crate::id_list::strings_view;
use crate::lines::push_line;

verus! {

#[derive(Debug, Clone, Copy, PartialEq, Eq, Structural)]
pub enum ScreenShaderAdvisoryUiResultState {
    NotRun,
    Running,
    Passed,
    Failed,
    Unavailable,
    TimedOut,
    TempCopyFailed,
    CleanupWarning,
}

/// The name of each state.
pub open spec fn state_name(s: ScreenShaderAdvisoryUiResultState) -> Seq<char> {
    match s {
        ScreenShaderAdvisoryUiResultState::NotRun => "not_run"@,
        ScreenShaderAdvisoryUiResultState::Running => "running"@,
        ScreenShaderAdvisoryUiResultState::Passed => "passed"@,
        ScreenShaderAdvisoryUiResultState::Failed => "failed"@,
        ScreenShaderAdvisoryUiResultState::Unavailable => "unavailable"@,
        ScreenShaderAdvisoryUiResultState::TimedOut => "timed_out"@,
        ScreenShaderAdvisoryUiResultState::TempCopyFailed => "temp_copy_failed"@,
        ScreenShaderAdvisoryUiResultState::CleanupWarning => "cleanup_warning"@,
    }
}

impl ScreenShaderAdvisoryUiResultState {
    pub fn as_str(self) -> (r: &'static str)
        ensures
            r@ == state_name(self),
    {
        match self {
            ScreenShaderAdvisoryUiResultState::NotRun => "not_run",
            ScreenShaderAdvisoryUiResultState::Running => "running",
            ScreenShaderAdvisoryUiResultState::Passed => "passed",
            ScreenShaderAdvisoryUiResultState::Failed => "failed",
            ScreenShaderAdvisoryUiResultState::Unavailable => "unavailable",
            ScreenShaderAdvisoryUiResultState::TimedOut => "timed_out",
            ScreenShaderAdvisoryUiResultState::TempCopyFailed => "temp_copy_failed",
            ScreenShaderAdvisoryUiResultState::CleanupWarning => "cleanup_warning",
        }
    }
}

/// The row that carries the advisory action.
pub open spec fn screen_shader_row() -> Seq<char> {
    "decoration.screen_shader"@
}

#[derive(Debug, Clone, PartialEq, Eq)]
pub struct ScreenShaderAdvisoryUiProjection {
    pub placement: String,
    pub advanced_mode_required: bool,
    pub explicit_user_trigger_required: bool,
    pub runs_on_row_load: bool,
    pub runs_on_value_change: bool,
    pub runs_during_validation: bool,
    pub runs_during_pending_change: bool,
    pub runs_during_write_planning: bool,
    pub runs_during_apply_flow: bool,
    pub consent_message: String,
    pub temp_copy_message: String,
    pub original_path_message: String,
    pub runtime_safety_disclaimer: String,
    pub production_gate_disclaimer: String,
    pub pass_policy: String,
    pub failure_policy: String,
    pub missing_tool_policy: String,
    pub timeout_policy: String,
    pub cleanup_warning_policy: String,
    pub can_approve_write: bool,
    pub can_block_write: bool,
    pub can_bypass_production_gate: bool,
}

/// The action needs advanced mode and an explicit trigger, never runs on
/// its own, and cannot approve, block or bypass a write.
pub open spec fn explicit_only(p: ScreenShaderAdvisoryUiProjection) -> bool {
    &&& p.advanced_mode_required
    &&& p.explicit_user_trigger_required
    &&& !p.runs_on_row_load
    &&& !p.runs_on_value_change
    &&& !p.runs_during_validation
    &&& !p.runs_during_pending_change
    &&& !p.runs_during_write_planning
    &&& !p.runs_during_apply_flow
    &&& !p.can_approve_write
    &&& !p.can_block_write
    &&& !p.can_bypass_production_gate
}

/// The projection of the advisory action on the screen shader row.
pub open spec fn is_screen_shader_projection(p: ScreenShaderAdvisoryUiProjection) -> bool {
    &&& explicit_only(p)
    &&& p.placement@
        == "advanced-display-render-screen-shader-advisory-section-separated-from-apply-action"@
    &&& p.consent_message@
        == "Run optional advisory check: the app will read the selected shader file only after this explicit action and copy it into a temporary folder."@
    &&& p.temp_copy_message@
        == "The advisory check runs glslangValidator only against temporary copies of the fragment shader and Hyprland vertex shader."@
    &&& p.original_path_message@
        == "The original selected shader path is not passed to glslangValidator."@
    &&& p.runtime_safety_disclaimer@
        == "A passing advisory check is not Hyprland runtime, GPU, or visual safety proof."@
    &&& p.production_gate_disclaimer@
        == "The production screen-shader watchdog gate is still required before applying this setting."@
    &&& p.pass_policy@
        == "Standalone advisory check passed; this does not approve or apply the write."@
    &&& p.failure_policy@
        == "Standalone advisory warning; this does not automatically block the write."@
    &&& p.missing_tool_policy@
        == "Advisory check unavailable because glslangValidator is missing; writes are not approved or blocked."@
    &&& p.timeout_policy@
        == "Advisory check timed out and is inconclusive; writes are not approved or blocked."@
    &&& p.cleanup_warning_policy@
        == "Temp cleanup warning should be logged/displayed without approving, blocking, or bypassing writes."@
}

/// The projection used for any other row, which has no advisory action.
pub open spec fn is_unavailable_projection(p: ScreenShaderAdvisoryUiProjection) -> bool {
    &&& explicit_only(p)
    &&& p.placement@ == "not-available-for-this-row"@
    &&& p.consent_message@ == "No advisory shader action is available for this row."@
    &&& p.temp_copy_message@ == "No temp shader copy is created for this row."@
    &&& p.original_path_message@ == "No user path is passed to a compiler for this row."@
    &&& p.runtime_safety_disclaimer@ == "No runtime safety claim is made."@
    &&& p.production_gate_disclaimer@ == "No screen-shader production gate applies to this row."@
    &&& p.pass_policy@ == "No advisory pass state exists for this row."@
    &&& p.failure_policy@ == "No advisory failure state exists for this row."@
    &&& p.missing_tool_policy@ == "No advisory tool is used for this row."@
    &&& p.timeout_policy@ == "No advisory timeout state exists for this row."@
    &&& p.cleanup_warning_policy@ == "No advisory cleanup state exists for this row."@
}

/// The advisory projection of `row_id`: present on the screen shader row
/// only.
pub fn screen_shader_advisory_projection(row_id: &str) -> (r: Option<
    ScreenShaderAdvisoryUiProjection,
>)
    ensures
        r is Some <==> row_id@ == screen_shader_row(),
        r matches Some(p) ==> is_screen_shader_projection(p),
{
    if !crate::text::str_eq(row_id, "decoration.screen_shader") {
        return None;
    }
    Some(ScreenShaderAdvisoryUiProjection {
        placement: "advanced-display-render-screen-shader-advisory-section-separated-from-apply-action".to_owned(),
        advanced_mode_required: true,
        explicit_user_trigger_required: true,
        runs_on_row_load: false,
        runs_on_value_change: false,
        runs_during_validation: false,
        runs_during_pending_change: false,
        runs_during_write_planning: false,
        runs_during_apply_flow: false,
        consent_message: "Run optional advisory check: the app will read the selected shader file only after this explicit action and copy it into a temporary folder.".to_owned(),
        temp_copy_message: "The advisory check runs glslangValidator only against temporary copies of the fragment shader and Hyprland vertex shader.".to_owned(),
        original_path_message: "The original selected shader path is not passed to glslangValidator.".to_owned(),
        runtime_safety_disclaimer: "A passing advisory check is not Hyprland runtime, GPU, or visual safety proof.".to_owned(),
        production_gate_disclaimer: "The production screen-shader watchdog gate is still required before applying this setting.".to_owned(),
        pass_policy: "Standalone advisory check passed; this does not approve or apply the write.".to_owned(),
        failure_policy: "Standalone advisory warning; this does not automatically block the write.".to_owned(),
        missing_tool_policy: "Advisory check unavailable because glslangValidator is missing; writes are not approved or blocked.".to_owned(),
        timeout_policy: "Advisory check timed out and is inconclusive; writes are not approved or blocked.".to_owned(),
        cleanup_warning_policy: "Temp cleanup warning should be logged/displayed without approving, blocking, or bypassing writes.".to_owned(),
        can_approve_write: false,
        can_block_write: false,
        can_bypass_production_gate: false,
    })
}

/// The projection for a row without the advisory action.
pub fn non_screen_shader_advisory_projection() -> (r: ScreenShaderAdvisoryUiProjection)
    ensures
        is_unavailable_projection(r),
{
    ScreenShaderAdvisoryUiProjection {
        placement: "not-available-for-this-row".to_owned(),
        advanced_mode_required: true,
        explicit_user_trigger_required: true,
        runs_on_row_load: false,
        runs_on_value_change: false,
        runs_during_validation: false,
        runs_during_pending_change: false,
        runs_during_write_planning: false,
        runs_during_apply_flow: false,
        consent_message: "No advisory shader action is available for this row.".to_owned(),
        temp_copy_message: "No temp shader copy is created for this row.".to_owned(),
        original_path_message: "No user path is passed to a compiler for this row.".to_owned(),
        runtime_safety_disclaimer: "No runtime safety claim is made.".to_owned(),
        production_gate_disclaimer: "No screen-shader production gate applies to this row.".to_owned(),
        pass_policy: "No advisory pass state exists for this row.".to_owned(),
        failure_policy: "No advisory failure state exists for this row.".to_owned(),
        missing_tool_policy: "No advisory tool is used for this row.".to_owned(),
        timeout_policy: "No advisory timeout state exists for this row.".to_owned(),
        cleanup_warning_policy: "No advisory cleanup state exists for this row.".to_owned(),
        can_approve_write: false,
        can_block_write: false,
        can_bypass_production_gate: false,
    }
}

#[derive(Debug, Clone, PartialEq, Eq)]
pub struct ScreenShaderAdvisoryGtkWidgetProjection {
    pub row_id: String,
    pub visible_gtk_widget_implemented: bool,
    pub gtk_widget_module: String,
    pub file_chooser_execution_implemented: bool,
    pub selected_file_action_model_implemented: bool,
    pub file_chooser_module: String,
    pub selected_file_action_module: String,
    pub placement: String,
    pub advanced_mode_required: bool,
    pub explicit_user_trigger_required: bool,
    pub separated_from_apply_action: bool,
    pub button_label: String,
    pub default_state: String,
    pub missing_selection_state: String,
    pub file_chooser_behavior_proven: bool,
    pub selected_file_boundary_proven: bool,
    pub missing_selection_behavior_proven: bool,
    pub cancellation_or_progress_behavior_proven: bool,
    pub result_states_rendered: Vec<String>,
    pub can_approve_write: bool,
    pub can_block_write: bool,
    pub can_bypass_production_gate: bool,
}

/// Every result state, in declaration order.
pub open spec fn all_states() -> Seq<ScreenShaderAdvisoryUiResultState> {
    seq![
        ScreenShaderAdvisoryUiResultState::NotRun,
        ScreenShaderAdvisoryUiResultState::Running,
        ScreenShaderAdvisoryUiResultState::Passed,
        ScreenShaderAdvisoryUiResultState::Failed,
        ScreenShaderAdvisoryUiResultState::Unavailable,
        ScreenShaderAdvisoryUiResultState::TimedOut,
        ScreenShaderAdvisoryUiResultState::TempCopyFailed,
        ScreenShaderAdvisoryUiResultState::CleanupWarning,
    ]
}

/// The widget projection of the advisory action on `row_id`.
pub open spec fn is_widget_projection_for(w: ScreenShaderAdvisoryGtkWidgetProjection, row_id: Seq<char>) -> bool {
    &&& w.row_id@ == row_id
    &&& w.visible_gtk_widget_implemented
    &&& w.gtk_widget_module@ == "src/ui/window.rs::append_screen_shader_advisory_controls"@
    &&& !w.file_chooser_execution_implemented
    &&& w.selected_file_action_model_implemented
    &&& w.file_chooser_module@ == "not-implemented-direct-gtk-file-chooser-deferred"@
    &&& w.selected_file_action_module@
        == "src/ui/model.rs::run_screen_shader_advisory_selected_file_ui_action"@
    &&& w.placement@
        == "advanced-display-render-screen-shader-advisory-section-separated-from-apply-action"@
    &&& w.advanced_mode_required
    &&& w.explicit_user_trigger_required
    &&& w.separated_from_apply_action
    &&& w.button_label@ == "Run optional advisory check"@
    &&& w.default_state@ == state_name(ScreenShaderAdvisoryUiResultState::NotRun)
    &&& w.missing_selection_state@ == state_name(ScreenShaderAdvisoryUiResultState::NotRun)
    &&& !w.file_chooser_behavior_proven
    &&& !w.selected_file_boundary_proven
    &&& w.missing_selection_behavior_proven
    &&& !w.cancellation_or_progress_behavior_proven
    &&& strings_view(w.result_states_rendered@) == all_states().map_values(
        |s: ScreenShaderAdvisoryUiResultState| state_name(s),
    )
    &&& !w.can_approve_write
    &&& !w.can_block_write
    &&& !w.can_bypass_production_gate
}

/// The widget projection of the advisory action: present on the screen
/// shader row only.
pub fn screen_shader_advisory_gtk_widget_projection(row_id: &str) -> (r: Option<
    ScreenShaderAdvisoryGtkWidgetProjection,
>)
    ensures
        r is Some <==> row_id@ == screen_shader_row(),
        r matches Some(w) ==> is_widget_projection_for(w, row_id@),
{
    let projection = match screen_shader_advisory_projection(row_id) {
        Some(p) => p,
        None => return None,
    };
    let mut states: Vec<String> = Vec::new();
    push_line(&mut states, ScreenShaderAdvisoryUiResultState::NotRun.as_str());
    push_line(&mut states, ScreenShaderAdvisoryUiResultState::Running.as_str());
    push_line(&mut states, ScreenShaderAdvisoryUiResultState::Passed.as_str());
    push_line(&mut states, ScreenShaderAdvisoryUiResultState::Failed.as_str());
    push_line(&mut states, ScreenShaderAdvisoryUiResultState::Unavailable.as_str());
    push_line(&mut states, ScreenShaderAdvisoryUiResultState::TimedOut.as_str());
    push_line(&mut states, ScreenShaderAdvisoryUiResultState::TempCopyFailed.as_str());
    push_line(&mut states, ScreenShaderAdvisoryUiResultState::CleanupWarning.as_str());
    assert(strings_view(states@) =~= all_states().map_values(
        |s: ScreenShaderAdvisoryUiResultState| state_name(s),
    ));
    Some(ScreenShaderAdvisoryGtkWidgetProjection {
        row_id: row_id.to_owned(),
        visible_gtk_widget_implemented: true,
        gtk_widget_module: "src/ui/window.rs::append_screen_shader_advisory_controls".to_owned(),
        file_chooser_execution_implemented: false,
        selected_file_action_model_implemented: true,
        file_chooser_module: "not-implemented-direct-gtk-file-chooser-deferred".to_owned(),
        selected_file_action_module: "src/ui/model.rs::run_screen_shader_advisory_selected_file_ui_action".to_owned(),
        placement: projection.placement,
        advanced_mode_required: projection.advanced_mode_required,
        explicit_user_trigger_required: projection.explicit_user_trigger_required,
        separated_from_apply_action: true,
        button_label: "Run optional advisory check".to_owned(),
        default_state: ScreenShaderAdvisoryUiResultState::NotRun.as_str().to_owned(),
        missing_selection_state: ScreenShaderAdvisoryUiResultState::NotRun.as_str().to_owned(),
        file_chooser_behavior_proven: false,
        selected_file_boundary_proven: false,
        missing_selection_behavior_proven: true,
        cancellation_or_progress_behavior_proven: false,
        result_states_rendered: states,
        can_approve_write: false,
        can_block_write: false,
        can_bypass_production_gate: false,
    })
}

/// What the advisory helper is asked to check: a selected shader file,
/// compiled from temporary copies with the given tools and time limit.
#[derive(Debug)]
pub struct ScreenShaderAdvisoryRequest {
    pub selected_shader_path: String,
    pub temp_root: String,
    pub tex300_vertex_path: String,
    pub tex320_vertex_path: String,
    pub glslang_validator_path: String,
    pub timeout: std::time::Duration,
    pub explicit_user_consent: bool,
    pub simulate_cleanup_failure: bool,
}

/// How the advisory helper's check ended.
#[derive(Debug, Clone, Copy, PartialEq, Eq, Structural)]
pub enum AdvisoryStatus {
    Passed,
    Failed,
    Unavailable,
    TimedOut,
    TempCopyFailed,
    MissingConsent,
    CleanupWarning,
}

/// What the advisory helper reports of one check.
#[derive(Debug, Clone)]
pub struct ScreenShaderAdvisoryResult {
    pub status: AdvisoryStatus,
    pub compiler_args: Vec<String>,
    pub temp_fragment_path: Option<String>,
    pub temp_vertex_path: Option<String>,
    pub original_user_path_passed_to_compiler: bool,
    pub production_write_decision_changed: bool,
    pub runtime_safety_claimed: bool,
    pub diagnostic: Option<String>,
    pub cleanup_warning: Option<String>,
}

#[derive(Debug)]
pub struct ScreenShaderAdvisoryUiActionRequest {
    pub row_id: String,
    pub explicit_user_trigger: bool,
    pub helper_request: Option<ScreenShaderAdvisoryRequest>,
}

#[derive(Debug)]
pub struct ScreenShaderAdvisorySelectedFileUiActionRequest {
    pub row_id: String,
    pub explicit_user_trigger: bool,
    pub selected_shader_path: Option<String>,
    pub temp_root: String,
    pub tex300_vertex_path: String,
    pub tex320_vertex_path: String,
    pub glslang_validator_path: String,
    pub timeout: std::time::Duration,
    pub simulate_cleanup_failure: bool,
}

#[derive(Debug, Clone)]
pub struct ScreenShaderAdvisoryUiActionRender {
    pub row_id: String,
    pub state: ScreenShaderAdvisoryUiResultState,
    pub placement: String,
    pub advanced_mode_required: bool,
    pub explicit_user_trigger_required: bool,
    pub helper_invoked: bool,
    pub consent_required: bool,
    pub selected_shader_read: bool,
    pub compiler_invoked: bool,
    pub compiler_args: Vec<String>,
    pub temp_fragment_path: Option<String>,
    pub temp_vertex_path: Option<String>,
    pub original_user_path_passed_to_compiler: bool,
    pub can_approve_write: bool,
    pub can_block_write: bool,
    pub can_bypass_production_gate: bool,
    pub production_write_decision_changed: bool,
    pub runtime_safety_claimed: bool,
    pub write_blocking: bool,
    pub title: String,
    pub message: String,
    pub diagnostic: Option<String>,
    pub cleanup_warning: Option<String>,
}

impl ScreenShaderAdvisoryUiActionRender {
    pub fn state_label(&self) -> (r: &'static str)
        ensures
            r@ == state_name(self.state),
    {
        self.state.as_str()
    }
}

pub open spec fn opt_text(o: Option<String>) -> Option<Seq<char>> {
    match o {
        Some(s) => Some(s@),
        None => None,
    }
}

/// A render never approves, blocks or bypasses a write.
pub open spec fn write_neutral(r: ScreenShaderAdvisoryUiActionRender) -> bool {
    &&& !r.can_approve_write
    &&& !r.can_block_write
    &&& !r.can_bypass_production_gate
    &&& !r.write_blocking
}

/// A render for `row_id` in `state` at `placement` in which no check ran:
/// nothing was read, compiled, copied or claimed.
pub open spec fn no_check_render(
    r: ScreenShaderAdvisoryUiActionRender,
    row_id: Seq<char>,
    placement: Seq<char>,
    state: ScreenShaderAdvisoryUiResultState,
    consent_required: bool,
    title: Seq<char>,
    message: Seq<char>,
    diagnostic: Option<Seq<char>>,
) -> bool {
    &&& r.row_id@ == row_id
    &&& r.state == state
    &&& r.placement@ == placement
    &&& r.advanced_mode_required
    &&& r.explicit_user_trigger_required
    &&& !r.helper_invoked
    &&& r.consent_required == consent_required
    &&& !r.selected_shader_read
    &&& !r.compiler_invoked
    &&& r.compiler_args@.len() == 0
    &&& r.temp_fragment_path is None
    &&& r.temp_vertex_path is None
    &&& !r.original_user_path_passed_to_compiler
    &&& write_neutral(r)
    &&& !r.production_write_decision_changed
    &&& !r.runtime_safety_claimed
    &&& r.title@ == title
    &&& r.message@ == message
    &&& opt_text(r.diagnostic) == diagnostic
    &&& r.cleanup_warning is None
}

/// The result state shown for each status of the helper.
pub open spec fn ui_state_of(s: AdvisoryStatus) -> ScreenShaderAdvisoryUiResultState {
    match s {
        AdvisoryStatus::Passed => ScreenShaderAdvisoryUiResultState::Passed,
        AdvisoryStatus::Failed => ScreenShaderAdvisoryUiResultState::Failed,
        AdvisoryStatus::Unavailable => ScreenShaderAdvisoryUiResultState::Unavailable,
        AdvisoryStatus::TimedOut => ScreenShaderAdvisoryUiResultState::TimedOut,
        AdvisoryStatus::TempCopyFailed => ScreenShaderAdvisoryUiResultState::TempCopyFailed,
        AdvisoryStatus::MissingConsent => ScreenShaderAdvisoryUiResultState::NotRun,
        AdvisoryStatus::CleanupWarning => ScreenShaderAdvisoryUiResultState::CleanupWarning,
    }
}

/// The title shown for each result state.
pub open spec fn result_title(s: ScreenShaderAdvisoryUiResultState) -> Seq<char> {
    match s {
        ScreenShaderAdvisoryUiResultState::NotRun => "Advisory check not run"@,
        ScreenShaderAdvisoryUiResultState::Running => "Advisory check running"@,
        ScreenShaderAdvisoryUiResultState::Passed => "Standalone advisory check passed"@,
        ScreenShaderAdvisoryUiResultState::Failed => "Standalone advisory warning"@,
        ScreenShaderAdvisoryUiResultState::Unavailable => "Advisory check unavailable"@,
        ScreenShaderAdvisoryUiResultState::TimedOut => "Advisory check inconclusive"@,
        ScreenShaderAdvisoryUiResultState::TempCopyFailed => "Advisory temp copy failed"@,
        ScreenShaderAdvisoryUiResultState::CleanupWarning => "Advisory cleanup warning"@,
    }
}

/// The message shown for each result state.
pub open spec fn result_message(s: ScreenShaderAdvisoryUiResultState) -> Seq<char> {
    match s {
        ScreenShaderAdvisoryUiResultState::NotRun =>
            "No shader file has been read and no compiler command has been run."@,
        ScreenShaderAdvisoryUiResultState::Running =>
            "The advisory check is in progress after explicit user action."@,
        ScreenShaderAdvisoryUiResultState::Passed =>
            "This is not Hyprland runtime safety proof and does not approve the write."@,
        ScreenShaderAdvisoryUiResultState::Failed =>
            "This warns about the standalone check result and does not automatically block the write."@,
        ScreenShaderAdvisoryUiResultState::Unavailable =>
            "glslangValidator is unavailable; this does not approve or block writes."@,
        ScreenShaderAdvisoryUiResultState::TimedOut =>
            "The advisory check timed out and does not approve or block writes."@,
        ScreenShaderAdvisoryUiResultState::TempCopyFailed =>
            "The advisory check could not prepare temp files and does not approve or block writes."@,
        ScreenShaderAdvisoryUiResultState::CleanupWarning =>
            "The advisory check produced a cleanup warning and does not approve, block, or bypass writes."@,
    }
}

/// The helper ran the compiler: it produced compiler arguments and did not
/// stop before compiling.
pub open spec fn compiler_ran(out: ScreenShaderAdvisoryResult) -> bool {
    out.compiler_args@.len() > 0 && !(out.status is Unavailable || out.status is TempCopyFailed
        || out.status is MissingConsent)
}

/// The selected shader was read: the helper got past consent and the temp
/// copy, or it made a temporary fragment copy.
pub open spec fn shader_read(out: ScreenShaderAdvisoryResult) -> bool {
    !(out.status is MissingConsent || out.status is TempCopyFailed) || out.temp_fragment_path is Some
}

/// The render of a check that ran on the screen shader row and reported
/// `out`.
pub open spec fn result_render(
    r: ScreenShaderAdvisoryUiActionRender,
    row_id: Seq<char>,
    out: ScreenShaderAdvisoryResult,
) -> bool {
    let state = ui_state_of(out.status);
    &&& r.row_id@ == row_id
    &&& r.state == state
    &&& r.placement@
        == "advanced-display-render-screen-shader-advisory-section-separated-from-apply-action"@
    &&& r.advanced_mode_required
    &&& r.explicit_user_trigger_required
    &&& r.helper_invoked
    &&& !r.consent_required
    &&& r.selected_shader_read == shader_read(out)
    &&& r.compiler_invoked == compiler_ran(out)
    &&& r.compiler_args == out.compiler_args
    &&& r.temp_fragment_path == out.temp_fragment_path
    &&& r.temp_vertex_path == out.temp_vertex_path
    &&& r.original_user_path_passed_to_compiler == out.original_user_path_passed_to_compiler
    &&& write_neutral(r)
    &&& r.production_write_decision_changed == out.production_write_decision_changed
    &&& r.runtime_safety_claimed == out.runtime_safety_claimed
    &&& r.title@ == result_title(state)
    &&& r.message@ == result_message(state)
    &&& r.diagnostic == out.diagnostic
    &&& r.cleanup_warning == out.cleanup_warning
}

fn advisory_result_copy(state: ScreenShaderAdvisoryUiResultState) -> (r: (&'static str, &'static str))
    ensures
        r.0@ == result_title(state),
        r.1@ == result_message(state),
{
    match state {
        ScreenShaderAdvisoryUiResultState::NotRun => (
            "Advisory check not run",
            "No shader file has been read and no compiler command has been run.",
        ),
        ScreenShaderAdvisoryUiResultState::Running => (
            "Advisory check running",
            "The advisory check is in progress after explicit user action.",
        ),
        ScreenShaderAdvisoryUiResultState::Passed => (
            "Standalone advisory check passed",
            "This is not Hyprland runtime safety proof and does not approve the write.",
        ),
        ScreenShaderAdvisoryUiResultState::Failed => (
            "Standalone advisory warning",
            "This warns about the standalone check result and does not automatically block the write.",
        ),
        ScreenShaderAdvisoryUiResultState::Unavailable => (
            "Advisory check unavailable",
            "glslangValidator is unavailable; this does not approve or block writes.",
        ),
        ScreenShaderAdvisoryUiResultState::TimedOut => (
            "Advisory check inconclusive",
            "The advisory check timed out and does not approve or block writes.",
        ),
        ScreenShaderAdvisoryUiResultState::TempCopyFailed => (
            "Advisory temp copy failed",
            "The advisory check could not prepare temp files and does not approve or block writes.",
        ),
        ScreenShaderAdvisoryUiResultState::CleanupWarning => (
            "Advisory cleanup warning",
            "The advisory check produced a cleanup warning and does not approve, block, or bypass writes.",
        ),
    }
}

/// A render in which no check ran.
fn no_check(
    row_id: &str,
    state: ScreenShaderAdvisoryUiResultState,
    projection: ScreenShaderAdvisoryUiProjection,
    consent_required: bool,
    title: &str,
    message: &str,
    diagnostic: Option<&str>,
) -> (r: ScreenShaderAdvisoryUiActionRender)
    requires
        projection.advanced_mode_required,
        projection.explicit_user_trigger_required,
    ensures
        no_check_render(
            r,
            row_id@,
            projection.placement@,
            state,
            consent_required,
            title@,
            message@,
            match diagnostic {
                Some(d) => Some(d@),
                None => None,
            },
        ),
{
    ScreenShaderAdvisoryUiActionRender {
        row_id: row_id.to_owned(),
        state,
        placement: projection.placement,
        advanced_mode_required: projection.advanced_mode_required,
        explicit_user_trigger_required: projection.explicit_user_trigger_required,
        helper_invoked: false,
        consent_required,
        selected_shader_read: false,
        compiler_invoked: false,
        compiler_args: Vec::new(),
        temp_fragment_path: None,
        temp_vertex_path: None,
        original_user_path_passed_to_compiler: false,
        can_approve_write: false,
        can_block_write: false,
        can_bypass_production_gate: false,
        production_write_decision_changed: false,
        runtime_safety_claimed: false,
        write_blocking: false,
        title: title.to_owned(),
        message: message.to_owned(),
        diagnostic: match diagnostic {
            Some(d) => Some(d.to_owned()),
            None => None,
        },
        cleanup_warning: None,
    }
}

/// The render shown before the check has been started: present on the
/// screen shader row only.
pub fn initial_screen_shader_advisory_ui_action(row_id: &str) -> (r: Option<
    ScreenShaderAdvisoryUiActionRender,
>)
    ensures
        r is Some <==> row_id@ == screen_shader_row(),
        r matches Some(x) ==> no_check_render(
            x,
            row_id@,
            "advanced-display-render-screen-shader-advisory-section-separated-from-apply-action"@,
            ScreenShaderAdvisoryUiResultState::NotRun,
            false,
            "Advisory check not run"@,
            "The optional screen shader advisory check runs only after an explicit advanced user action."@,
            None,
        ),
{
    match screen_shader_advisory_projection(row_id) {
        Some(projection) => Some(
            no_check(
                row_id,
                ScreenShaderAdvisoryUiResultState::NotRun,
                projection,
                false,
                "Advisory check not run",
                "The optional screen shader advisory check runs only after an explicit advanced user action.",
                None,
            ),
        ),
        None => None,
    }
}

/// The render shown while the check runs: present on the screen shader row
/// only.
pub fn running_screen_shader_advisory_ui_action(row_id: &str) -> (r: Option<
    ScreenShaderAdvisoryUiActionRender,
>)
    ensures
        r is Some <==> row_id@ == screen_shader_row(),
        r matches Some(x) ==> no_check_render(
            x,
            row_id@,
            "advanced-display-render-screen-shader-advisory-section-separated-from-apply-action"@,
            ScreenShaderAdvisoryUiResultState::Running,
            false,
            "Advisory check running"@,
            "The optional advisory check is running after explicit user action; it cannot approve, block, or bypass writes."@,
            None,
        ),
{
    match screen_shader_advisory_projection(row_id) {
        Some(projection) => Some(
            no_check(
                row_id,
                ScreenShaderAdvisoryUiResultState::Running,
                projection,
                false,
                "Advisory check running",
                "The optional advisory check is running after explicit user action; it cannot approve, block, or bypass writes.",
                None,
            ),
        ),
        None => None,
    }
}

fn ui_state_for(s: AdvisoryStatus) -> (r: ScreenShaderAdvisoryUiResultState)
    ensures
        r == ui_state_of(s),
{
    match s {
        AdvisoryStatus::Passed => ScreenShaderAdvisoryUiResultState::Passed,
        AdvisoryStatus::Failed => ScreenShaderAdvisoryUiResultState::Failed,
        AdvisoryStatus::Unavailable => ScreenShaderAdvisoryUiResultState::Unavailable,
        AdvisoryStatus::TimedOut => ScreenShaderAdvisoryUiResultState::TimedOut,
        AdvisoryStatus::TempCopyFailed => ScreenShaderAdvisoryUiResultState::TempCopyFailed,
        AdvisoryStatus::MissingConsent => ScreenShaderAdvisoryUiResultState::NotRun,
        AdvisoryStatus::CleanupWarning => ScreenShaderAdvisoryUiResultState::CleanupWarning,
    }
}

/// The render of a check on `row_id` that reported `result`: present on
/// the screen shader row only.
pub fn screen_shader_advisory_check_render(row_id: &str, result: ScreenShaderAdvisoryResult) -> (r:
    Option<ScreenShaderAdvisoryUiActionRender>)
    ensures
        r is Some <==> row_id@ == screen_shader_row(),
        r matches Some(x) ==> result_render(x, row_id@, result),
{
    let projection = match screen_shader_advisory_projection(row_id) {
        Some(p) => p,
        None => return None,
    };
    let state = ui_state_for(result.status);
    let compiler_invoked = result.compiler_args.len() > 0 && !matches!(
        result.status,
        AdvisoryStatus::Unavailable | AdvisoryStatus::TempCopyFailed | AdvisoryStatus::MissingConsent
    );
    let selected_shader_read = !matches!(
        result.status,
        AdvisoryStatus::MissingConsent | AdvisoryStatus::TempCopyFailed
    ) || result.temp_fragment_path.is_some();
    let (title, message) = advisory_result_copy(state);
    Some(
        ScreenShaderAdvisoryUiActionRender {
            row_id: row_id.to_owned(),
            state,
            placement: projection.placement,
            advanced_mode_required: projection.advanced_mode_required,
            explicit_user_trigger_required: projection.explicit_user_trigger_required,
            helper_invoked: true,
            consent_required: false,
            selected_shader_read,
            compiler_invoked,
            compiler_args: result.compiler_args,
            temp_fragment_path: result.temp_fragment_path,
            temp_vertex_path: result.temp_vertex_path,
            original_user_path_passed_to_compiler: result.original_user_path_passed_to_compiler,
            can_approve_write: false,
            can_block_write: false,
            can_bypass_production_gate: false,
            production_write_decision_changed: result.production_write_decision_changed,
            runtime_safety_claimed: result.runtime_safety_claimed,
            write_blocking: false,
            title: title.to_owned(),
            message: message.to_owned(),
            diagnostic: result.diagnostic,
            cleanup_warning: result.cleanup_warning,
        },
    )
}

/// What the advisory action renders for a request on `row_id` with the
/// given trigger and helper request, `check` being the helper.
pub open spec fn action_render<F: Fn(ScreenShaderAdvisoryRequest) -> ScreenShaderAdvisoryResult>(
    r: ScreenShaderAdvisoryUiActionRender,
    row_id: Seq<char>,
    explicit_user_trigger: bool,
    helper_request: Option<ScreenShaderAdvisoryRequest>,
    check: F,
) -> bool {
    let screen = "advanced-display-render-screen-shader-advisory-section-separated-from-apply-action"@;
    if row_id != screen_shader_row() {
        no_check_render(
            r,
            row_id,
            "not-available-for-this-row"@,
            ScreenShaderAdvisoryUiResultState::NotRun,
            false,
            "No screen shader advisory action"@,
            "This advisory action is only available for decoration.screen_shader."@,
            None,
        )
    } else {
        match helper_request {
            None => no_check_render(
                r,
                row_id,
                screen,
                ScreenShaderAdvisoryUiResultState::NotRun,
                true,
                "Explicit action required"@,
                "Choose a shader file and run the advanced advisory check explicitly."@,
                Some("no selected shader request was supplied"@),
            ),
            Some(h) => if !explicit_user_trigger || !h.explicit_user_consent {
                no_check_render(
                    r,
                    row_id,
                    screen,
                    ScreenShaderAdvisoryUiResultState::NotRun,
                    true,
                    "Explicit action required"@,
                    "The selected shader is not read until the user explicitly starts the advanced advisory check."@,
                    Some("missing explicit user trigger or consent"@),
                )
            } else {
                exists|out: ScreenShaderAdvisoryResult|
                    call_ensures(check, (h,), out) && #[trigger] result_render(r, row_id, out)
            },
        }
    }
}

/// Runs the advisory action: only on the screen shader row, only with a
/// selected shader, and only after the explicit trigger and consent does it
/// call `check`, whose report it renders.
pub fn run_screen_shader_advisory_ui_action<F: Fn(ScreenShaderAdvisoryRequest) -> ScreenShaderAdvisoryResult>(
    request: ScreenShaderAdvisoryUiActionRequest,
    check: F,
) -> (r: ScreenShaderAdvisoryUiActionRender)
    requires
        forall|q: ScreenShaderAdvisoryRequest| check.requires((q,)),
    ensures
        plain_action_render(r, request, check),
{
    let row_id = request.row_id.as_str();
    let projection = match screen_shader_advisory_projection(row_id) {
        Some(p) => p,
        None => {
            return no_check(
                row_id,
                ScreenShaderAdvisoryUiResultState::NotRun,
                non_screen_shader_advisory_projection(),
                false,
                "No screen shader advisory action",
                "This advisory action is only available for decoration.screen_shader.",
                None,
            );
        },
    };
    let helper_request = match request.helper_request {
        Some(h) => h,
        None => {
            return no_check(
                row_id,
                ScreenShaderAdvisoryUiResultState::NotRun,
                projection,
                true,
                "Explicit action required",
                "Choose a shader file and run the advanced advisory check explicitly.",
                Some("no selected shader request was supplied"),
            );
        },
    };
    if !request.explicit_user_trigger || !helper_request.explicit_user_consent {
        return no_check(
            row_id,
            ScreenShaderAdvisoryUiResultState::NotRun,
            projection,
            true,
            "Explicit action required",
            "The selected shader is not read until the user explicitly starts the advanced advisory check.",
            Some("missing explicit user trigger or consent"),
        );
    }
    let result = check(helper_request);
    let ghost out = result;
    match screen_shader_advisory_check_render(row_id, result) {
        Some(x) => {
            assert(result_render(x, row_id@, out));
            x
        },
        None => {
            // The row is the screen shader row, so a render is always given.
            assert(false);
            no_check(
                row_id,
                ScreenShaderAdvisoryUiResultState::NotRun,
                projection,
                true,
                "Explicit action required",
                "Choose a shader file and run the advanced advisory check explicitly.",
                None,
            )
        },
    }
}

/// The helper request for a selected file.
pub open spec fn helper_for(
    request: ScreenShaderAdvisorySelectedFileUiActionRequest,
    selected_shader_path: String,
) -> ScreenShaderAdvisoryRequest {
    ScreenShaderAdvisoryRequest {
        selected_shader_path,
        temp_root: request.temp_root,
        tex300_vertex_path: request.tex300_vertex_path,
        tex320_vertex_path: request.tex320_vertex_path,
        glslang_validator_path: request.glslang_validator_path,
        timeout: request.timeout,
        explicit_user_consent: request.explicit_user_trigger,
        simulate_cleanup_failure: request.simulate_cleanup_failure,
    }
}

/// The plain action request a selected-file request stands for: the same
/// row and trigger, and a helper request for the selected file, if any.
pub open spec fn selected_file_request(
    request: ScreenShaderAdvisorySelectedFileUiActionRequest,
) -> ScreenShaderAdvisoryUiActionRequest {
    ScreenShaderAdvisoryUiActionRequest {
        row_id: request.row_id,
        explicit_user_trigger: request.explicit_user_trigger,
        helper_request: match request.selected_shader_path {
            Some(p) => Some(helper_for(request, p)),
            None => None,
        },
    }
}

/// What the plain advisory action may render for `request`.
pub open spec fn plain_action_render<F: Fn(ScreenShaderAdvisoryRequest) -> ScreenShaderAdvisoryResult>(
    r: ScreenShaderAdvisoryUiActionRender,
    request: ScreenShaderAdvisoryUiActionRequest,
    check: F,
) -> bool {
    action_render(r, request.row_id@, request.explicit_user_trigger, request.helper_request, check)
}

/// What the selected-file action may render for `request`: off the screen
/// shader row, the not-available render; without a selected file, the
/// request to choose one; without the trigger, the request for it; else
/// the render of what the helper reports on the selected file.
pub open spec fn selected_action_render<F: Fn(ScreenShaderAdvisoryRequest) -> ScreenShaderAdvisoryResult>(
    r: ScreenShaderAdvisoryUiActionRender,
    request: ScreenShaderAdvisorySelectedFileUiActionRequest,
    check: F,
) -> bool {
    let row_id = request.row_id@;
    let screen = "advanced-display-render-screen-shader-advisory-section-separated-from-apply-action"@;
    if row_id != screen_shader_row() {
        no_check_render(
            r,
            row_id,
            "not-available-for-this-row"@,
            ScreenShaderAdvisoryUiResultState::NotRun,
            false,
            "No screen shader advisory action"@,
            "This advisory action is only available for decoration.screen_shader."@,
            None,
        )
    } else {
        match request.selected_shader_path {
            None => no_check_render(
                r,
                row_id,
                screen,
                ScreenShaderAdvisoryUiResultState::NotRun,
                true,
                "Explicit action required"@,
                "Choose a shader file and run the advanced advisory check explicitly."@,
                Some("no selected shader request was supplied"@),
            ),
            Some(p) => if !request.explicit_user_trigger {
                no_check_render(
                    r,
                    row_id,
                    screen,
                    ScreenShaderAdvisoryUiResultState::NotRun,
                    true,
                    "Explicit action required"@,
                    "The selected shader is not read until the user explicitly starts the advanced advisory check."@,
                    Some("missing explicit user trigger or consent"@),
                )
            } else {
                exists|out: ScreenShaderAdvisoryResult|
                    call_ensures(check, (helper_for(request, p),), out) && #[trigger] result_render(
                        r,
                        row_id,
                        out,
                    )
            },
        }
    }
}

/// The selected-file action is the plain action on the request it builds:
/// whatever the helper reports, a render is one the selected-file action
/// may give exactly when the plain action may give it for the same row and
/// trigger and a helper request for the selected file, with the trigger as
/// consent.
pub proof fn law_selected_file_action_is_plain_action<F: Fn(ScreenShaderAdvisoryRequest) -> ScreenShaderAdvisoryResult>(
    request: ScreenShaderAdvisorySelectedFileUiActionRequest,
    check: F,
    r: ScreenShaderAdvisoryUiActionRender,
)
    ensures
        selected_action_render(r, request, check) <==> plain_action_render(
            r,
            selected_file_request(request),
            check,
        ),
{
}

/// Runs the advisory action on the file the user selected, the trigger
/// standing for the consent; without a selection, nothing is checked.
pub fn run_screen_shader_advisory_selected_file_ui_action<F: Fn(ScreenShaderAdvisoryRequest) -> ScreenShaderAdvisoryResult>(
    request: ScreenShaderAdvisorySelectedFileUiActionRequest,
    check: F,
) -> (r: ScreenShaderAdvisoryUiActionRender)
    requires
        forall|q: ScreenShaderAdvisoryRequest| check.requires((q,)),
    ensures
        selected_action_render(r, request, check),
{
    let ghost req = request;
    match request.selected_shader_path {
        None => run_screen_shader_advisory_ui_action(
            ScreenShaderAdvisoryUiActionRequest {
                row_id: request.row_id,
                explicit_user_trigger: request.explicit_user_trigger,
                helper_request: None,
            },
            check,
        ),
        Some(selected_shader_path) => {
            let helper_request = ScreenShaderAdvisoryRequest {
                selected_shader_path,
                temp_root: request.temp_root,
                tex300_vertex_path: request.tex300_vertex_path,
                tex320_vertex_path: request.tex320_vertex_path,
                glslang_validator_path: request.glslang_validator_path,
                timeout: request.timeout,
                explicit_user_consent: request.explicit_user_trigger,
                simulate_cleanup_failure: request.simulate_cleanup_failure,
            };
            assert(helper_request == helper_for(req, req.selected_shader_path->0));
            run_screen_shader_advisory_ui_action(
                ScreenShaderAdvisoryUiActionRequest {
                    row_id: request.row_id,
                    explicit_user_trigger: request.explicit_user_trigger,
                    helper_request: Some(helper_request),
                },
                check,
            )
        },
    }
}

/// Law: whatever the request and whatever the helper reports, the advisory
/// action's render never approves, blocks or bypasses a write, and it runs
/// the helper only on the screen shader row after the explicit trigger and
/// consent.
pub proof fn law_advisory_render_is_write_neutral<F: Fn(ScreenShaderAdvisoryRequest) -> ScreenShaderAdvisoryResult>(
    r: ScreenShaderAdvisoryUiActionRender,
    row_id: Seq<char>,
    explicit_user_trigger: bool,
    helper_request: Option<ScreenShaderAdvisoryRequest>,
    check: F,
)
    requires
        action_render(r, row_id, explicit_user_trigger, helper_request, check),
    ensures
        write_neutral(r),
        r.helper_invoked ==> (row_id == screen_shader_row() && explicit_user_trigger && (
        helper_request matches Some(h) && h.explicit_user_consent)),
        !r.helper_invoked ==> !r.selected_shader_read && !r.compiler_invoked,
{
    if row_id == screen_shader_row() {
        if let Some(h) = helper_request {
            if explicit_user_trigger && h.explicit_user_consent {
                let out = choose|out: ScreenShaderAdvisoryResult|
                    call_ensures(check, (h,), out) && #[trigger] result_render(r, row_id, out);
            }
        }
    }
}

} // verus!
