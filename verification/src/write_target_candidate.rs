//! A file that a setting could be written to, with what is known of how it
//! is managed.
use vstd::prelude::*;

verus! {

#[derive(Debug, Clone, PartialEq, Eq)]
pub struct WriteTargetCandidate {
    /// The file as the configuration names it.
    pub file_path: String,
    /// Where the file resolves to, when it is a symlink.
    pub resolved_path: Option<String>,
    pub generated_or_script_managed: bool,
    pub symlink_managed: bool,
    pub requires_advanced_confirmation: bool,
    pub backup_required: bool,
}

} // verus!
