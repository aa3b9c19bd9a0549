//! Positions, blank space, comments and line ends.

use vstd::prelude::*;
use vstd::string::*;
use crate::text::joined;

verus! {

/// A place in a document: line and column, both counted from 1.
#[derive(Clone, Copy, Debug, PartialEq, Eq)]
pub struct Pos {
    pub line: usize,
    pub column: usize,
}

impl Pos {
    pub fn new(line: usize, column: usize) -> (pos: Pos)
        ensures
            pos.line == line,
            pos.column == column,
    {
        Pos { line, column }
    }
}

/// The stretch of a document that a node was read from.
#[derive(Clone, Copy, Debug, PartialEq, Eq)]
pub struct SourceInfo {
    pub start: Pos,
    pub end: Pos,
}

impl SourceInfo {
    pub fn new(start: Pos, end: Pos) -> (info: SourceInfo)
        ensures
            info.start == start,
            info.end == end,
    {
        SourceInfo { start, end }
    }
}

/// Blank space between two tokens, or the break at the end of a line.
#[derive(Debug, PartialEq, Eq)]
pub struct Whitespace {
    pub value: String,
    pub source_info: SourceInfo,
}

impl Clone for Whitespace {
    /// A copy of the space: the same characters, read from the same place.
    fn clone(&self) -> (copy: Whitespace)
        ensures
            copy == *self,
    {
        Whitespace { value: self.value.clone(), source_info: self.source_info }
    }
}

impl Whitespace {
    /// The characters this space was read from.
    pub open spec fn source(&self) -> Seq<char> {
        self.value@
    }

    pub fn as_str(&self) -> (s: &str)
        ensures
            s@ == self.source(),
    {
        self.value.as_str()
    }
}

/// A comment: what follows the `#` up to the end of the line.
#[derive(Clone, Debug, PartialEq, Eq)]
pub struct Comment {
    pub value: String,
    pub source_info: SourceInfo,
}

impl Comment {
    /// The comment as the document writes it, `#` included.
    pub open spec fn source(&self) -> Seq<char> {
        seq!['#'] + self.value@
    }
}

/// The end of a line: blank space, an optional comment, the line break. The
/// break is empty where the document ends without one.
#[derive(Clone, Debug, PartialEq, Eq)]
pub struct LineTerminator {
    pub space0: Whitespace,
    pub comment: Option<Comment>,
    pub newline: Whitespace,
}

/// The text of an optional comment: nothing where there is none.
pub open spec fn comment_source(comment: Option<Comment>) -> Seq<char> {
    match comment {
        Some(c) => c.source(),
        None => Seq::empty(),
    }
}

impl LineTerminator {
    pub open spec fn source(&self) -> Seq<char> {
        self.space0.source() + comment_source(self.comment) + self.newline.source()
    }
}

/// The text of a run of line ends.
pub open spec fn line_terminators_source(lts: Seq<LineTerminator>) -> Seq<char> {
    joined(lts, |lt: LineTerminator| lt.source())
}

} // verus!
