//! The advanced confirmation that writing to a generated, script-managed or
//! symlinked file would need.
use vstd::prelude::*;
use crate::id_list::strings_view;
use crate::lines::push_line;
use crate::write_target_candidate::WriteTargetCandidate;

verus! {

#[derive(Debug, Clone, PartialEq, Eq)]
pub struct WriteAdvancedConfirmation {
    pub requires_confirmation: bool,
    pub reasons: Vec<String>,
    pub generated_file_warning: bool,
    pub script_managed_warning: bool,
    pub symlink_managed_warning: bool,
    pub advanced_mode_required: bool,
    pub confirmed: bool,
    pub production_disabled: bool,
}

/// `line` when `cond` holds, else nothing.
pub open spec fn line_if(cond: bool, line: Seq<char>) -> Seq<Seq<char>> {
    if cond {
        seq![line]
    } else {
        seq![]
    }
}

impl WriteAdvancedConfirmation {
    /// One warning per flag that is set, the confirmation notice when
    /// confirmation is required, and always the closing notice.
    pub open spec fn lines(&self) -> Seq<Seq<char>> {
        line_if(self.script_managed_warning, "This file may be changed by scripts."@) + line_if(
            self.generated_file_warning,
            "This file appears to be generated."@,
        ) + line_if(self.symlink_managed_warning, "This file is symlinked."@) + line_if(
            self.requires_confirmation,
            "Advanced confirmation would be required before writing here."@,
        ) + seq!["Advanced confirmation is not active yet."@]
    }

    pub fn user_facing_lines(&self) -> (r: Vec<String>)
        ensures
            strings_view(r@) == self.lines(),
    {
        let mut lines: Vec<String> = Vec::new();
        if self.script_managed_warning {
            push_line(&mut lines, "This file may be changed by scripts.");
        }
        if self.generated_file_warning {
            push_line(&mut lines, "This file appears to be generated.");
        }
        if self.symlink_managed_warning {
            push_line(&mut lines, "This file is symlinked.");
        }
        if self.requires_confirmation {
            push_line(&mut lines, "Advanced confirmation would be required before writing here.");
        }
        push_line(&mut lines, "Advanced confirmation is not active yet.");
        assert(strings_view(lines@) =~= self.lines());
        lines
    }
}

/// The reasons for confirming a write to a file with these flags.
pub open spec fn confirmation_reasons(generated_or_script: bool, symlink: bool) -> Seq<Seq<char>> {
    line_if(generated_or_script, "generated or script-managed file"@) + line_if(
        symlink,
        "symlink-managed file"@,
    )
}

/// The advanced confirmation a write to `candidate` would need. It is never
/// confirmed and always disabled for production.
pub fn advanced_confirmation_for_candidate(candidate: &WriteTargetCandidate) -> (r:
    WriteAdvancedConfirmation)
    ensures
        r.requires_confirmation == candidate.requires_advanced_confirmation,
        strings_view(r.reasons@) == confirmation_reasons(
            candidate.generated_or_script_managed,
            candidate.symlink_managed,
        ),
        r.generated_file_warning == candidate.generated_or_script_managed,
        r.script_managed_warning == candidate.generated_or_script_managed,
        r.symlink_managed_warning == candidate.symlink_managed,
        r.advanced_mode_required == candidate.requires_advanced_confirmation,
        !r.confirmed,
        r.production_disabled,
{
    let generated_or_script = candidate.generated_or_script_managed;
    let symlink = candidate.symlink_managed;
    let mut reasons: Vec<String> = Vec::new();
    if generated_or_script {
        push_line(&mut reasons, "generated or script-managed file");
    }
    if symlink {
        push_line(&mut reasons, "symlink-managed file");
    }
    assert(strings_view(reasons@) =~= confirmation_reasons(generated_or_script, symlink));
    WriteAdvancedConfirmation {
        requires_confirmation: candidate.requires_advanced_confirmation,
        reasons,
        generated_file_warning: generated_or_script,
        script_managed_warning: generated_or_script,
        symlink_managed_warning: symlink,
        advanced_mode_required: candidate.requires_advanced_confirmation,
        confirmed: false,
        production_disabled: true,
    }
}

} // verus!
