//! What can go wrong when a filter runs.

use vstd::prelude::*;
use crate::ast::primitive::SourceInfo;

verus! {

/// The kind of an error.
#[derive(Clone, Debug, PartialEq, Eq)]
pub enum RunnerError {
    /// A filter was given a value that it cannot work on. The text shows
    /// that value.
    FilterInvalidInput(String),
}

/// An error, with the place in the document that it comes from. `assert`
/// says whether it arose while an assert was evaluated.
#[derive(Clone, Debug, PartialEq, Eq)]
pub struct Error {
    pub source_info: SourceInfo,
    pub inner: RunnerError,
    pub assert: bool,
}

impl Error {
    pub fn new(source_info: SourceInfo, inner: RunnerError, assert: bool) -> (error: Error)
        ensures
            error.source_info == source_info,
            error.inner == inner,
            error.assert == assert,
    {
        Error { source_info, inner, assert }
    }

    /// Whether this is the error "invalid filter input" for a value shown as
    /// `text`, at `source_info`, with the flag `assert`.
    pub open spec fn is_invalid_input(
        &self,
        text: Seq<char>,
        source_info: SourceInfo,
        assert: bool,
    ) -> bool {
        &&& self.source_info == source_info
        &&& self.assert == assert
        &&& self.inner matches RunnerError::FilterInvalidInput(shown)
        &&& shown@ == text
    }
}

} // verus!
