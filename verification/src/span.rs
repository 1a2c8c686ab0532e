//! Byte ranges of a source text.

use vstd::prelude::*;

verus! {

/// A half-open byte range `[start, end)` of a source text.
#[derive(Debug, PartialEq, Eq, Structural, Clone, Copy)]
pub struct Span {
    pub start: usize,
    pub end: usize,
}

impl Span {
    /// Whether `offset` lies inside the range.
    pub open spec fn holds(self, offset: int) -> bool {
        self.start <= offset < self.end
    }

    /// Whether `offset` lies inside the range.
    pub fn contains(&self, offset: usize) -> (inside: bool)
        ensures
            inside == self.holds(offset as int),
    {
        self.start <= offset && offset < self.end
    }
}

/// The spans of each match of a list of matches.
pub open spec fn spans_of(matches: Seq<Vec<Span>>) -> Seq<Seq<Span>> {
    Seq::new(matches.len(), |m: int| matches[m]@)
}

} // verus!
