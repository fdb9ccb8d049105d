//! What the user's configuration says of a setting: whether it sets it,
//! sets it more than once, leaves it unset, or could not be read.
use vstd::prelude::*;

verus! {

#[derive(Debug, Clone, Copy, PartialEq, Eq, Structural)]
pub enum CurrentValueSourceStatus {
    Configured,
    DuplicateConflict,
    NotConfigured,
    ReadUnavailable,
}

/// The current value of one setting as read from the configuration.
#[derive(Debug, Clone, PartialEq, Eq)]
pub struct CurrentValueProjection {
    pub status: CurrentValueSourceStatus,
    /// The raw value text, where the configuration sets one.
    pub raw_value: Option<String>,
    /// The file that sets the value, where one does.
    pub source_path: Option<String>,
    /// The line of that file, counted from 1.
    pub line_number: Option<usize>,
    /// A parser warning about the value, where there is one.
    pub warning: Option<String>,
}

impl CurrentValueProjection {
    /// An equal copy.
    pub fn duplicate(&self) -> (r: CurrentValueProjection)
        ensures
            r == *self,
    {
        CurrentValueProjection {
            status: self.status,
            raw_value: self.raw_value.clone(),
            source_path: self.source_path.clone(),
            line_number: self.line_number,
            warning: self.warning.clone(),
        }
    }
}

} // verus!
