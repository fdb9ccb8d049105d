//! The exact backup planned before a file is written.
use vstd::prelude::*;
use crate::id_list::strings_view;
use crate::lines::{push_line, push_prefixed};
use crate::write_target_candidate::WriteTargetCandidate;

verus! {

/// What `std::path::Path::with_extension` gives for a path and an extension,
/// both taken as text.
pub uninterp spec fn path_with_extension(path: Seq<char>, extension: Seq<char>) -> Seq<char>;

/// `Path::new(path).with_extension(extension)`, taken back as text. The
/// result is named, not described: it depends on the path and the
/// extension alone. The call panics on an extension holding a path
/// separator, so none is admitted.
#[verifier::external_body]
fn with_extension(path: &str, extension: &str) -> (r: String)
    requires
        !extension@.contains('/'),
        !extension@.contains('\\'),
    ensures
        r@ == path_with_extension(path@, extension@),
{
    std::path::Path::new(path).with_extension(extension).to_string_lossy().into_owned()
}

#[derive(Debug, Clone, PartialEq, Eq)]
pub struct WriteBackupPlan {
    pub target_file_path: String,
    pub resolved_target_path: Option<String>,
    pub backup_path: String,
    pub backup_naming_policy: String,
    pub backup_required: bool,
    pub fixture_only: bool,
    pub production_backup_disabled: bool,
}

impl WriteBackupPlan {
    pub open spec fn lines(&self) -> Seq<Seq<char>> {
        seq![
            "The app will back up this exact file before saving changes."@,
            "Backup file: "@ + self.backup_path@,
            "Backup proof is fixture-only right now."@,
        ]
    }

    pub fn user_facing_lines(&self) -> (r: Vec<String>)
        ensures
            strings_view(r@) == self.lines(),
    {
        let mut lines: Vec<String> = Vec::new();
        push_line(&mut lines, "The app will back up this exact file before saving changes.");
        push_prefixed(&mut lines, "Backup file: ", self.backup_path.as_str());
        push_line(&mut lines, "Backup proof is fixture-only right now.");
        assert(strings_view(lines@) =~= self.lines());
        lines
    }
}

/// The extension that replaces the target's own to name its backup.
pub open spec fn backup_extension() -> Seq<char> {
    "review-plan.bak"@
}

/// The plan for backing up `candidate` to `backup_path`.
pub fn backup_plan_at(candidate: &WriteTargetCandidate, backup_path: String) -> (r: WriteBackupPlan)
    ensures
        r.target_file_path@ == candidate.file_path@,
        r.resolved_target_path == candidate.resolved_path,
        r.backup_path@ == backup_path@,
        r.backup_naming_policy@ == "target file plus review-plan.bak suffix"@,
        r.backup_required == candidate.backup_required,
        r.fixture_only,
        r.production_backup_disabled,
{
    WriteBackupPlan {
        target_file_path: candidate.file_path.clone(),
        resolved_target_path: candidate.resolved_path.clone(),
        backup_path,
        backup_naming_policy: "target file plus review-plan.bak suffix".to_owned(),
        backup_required: candidate.backup_required,
        fixture_only: true,
        production_backup_disabled: true,
    }
}

/// The exact backup plan for `candidate`: the backup sits beside the target,
/// its extension replaced by `review-plan.bak`.
pub fn build_exact_backup_plan(candidate: &WriteTargetCandidate) -> (r: WriteBackupPlan)
    ensures
        r.target_file_path@ == candidate.file_path@,
        r.resolved_target_path == candidate.resolved_path,
        r.backup_path@ == path_with_extension(candidate.file_path@, backup_extension()),
        r.backup_naming_policy@ == "target file plus review-plan.bak suffix"@,
        r.backup_required == candidate.backup_required,
        r.fixture_only,
        r.production_backup_disabled,
{
    proof {
        reveal_strlit("review-plan.bak");
    }
    let backup_path = with_extension(candidate.file_path.as_str(), "review-plan.bak");
    backup_plan_at(candidate, backup_path)
}

} // verus!
