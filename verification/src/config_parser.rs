//! One line of the user's configuration as the parser preserved it.
use vstd::prelude::*;

verus! {

#[derive(Debug, Clone, PartialEq, Eq)]
pub struct ParsedConfigLine {
    /// The file the line was read from.
    pub path: String,
    pub line_number: usize,
    pub raw_line: String,
    /// A parser warning about the line, when there is one.
    pub warning: Option<String>,
}

} // verus!
