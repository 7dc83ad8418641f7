//! Handles into the event log: a marker for a node that is still open, and a completed
//! marker for a node that is finished.

use crate::syntax_kind::SyntaxKind;
use crate::token::TextRange;
use vstd::prelude::*;

verus! {

/// The handle of a node that has been started and is neither finished nor abandoned.
///
/// It cannot be copied, and finishing or abandoning the node takes it by value, so a
/// marker is used at most once.
#[derive(Debug)]
pub struct Marker {
    pos: usize,
    start: usize,
}

impl Marker {
    /// The index of the node's `Start` entry in the event log.
    pub closed spec fn pos(&self) -> int {
        self.pos as int
    }

    /// The offset in the source at which the node begins.
    pub closed spec fn offset(&self) -> usize {
        self.start
    }

    /// The marker of the node whose `Start` entry stands at `pos` and which begins at
    /// `start` in the source.
    pub(crate) fn new(pos: usize, start: usize) -> (m: Marker)
        ensures
            m.pos() == pos,
            m.offset() == start,
    {
        Marker { pos, start }
    }

    /// The index of the node's `Start` entry.
    pub(crate) fn index(&self) -> (r: usize)
        ensures
            r == self.pos(),
    {
        self.pos
    }

    /// The offset in the source at which the node begins.
    pub(crate) fn start_offset(&self) -> (r: usize)
        ensures
            r == self.offset(),
    {
        self.start
    }
}

/// The handle of a finished node: where its `Start` and `Finish` entries stand in the
/// event log, its kind, and the range of the source that it covers.
#[derive(Clone, Copy, PartialEq, Eq, Debug, Structural)]
pub struct CompletedMarker {
    pub start_pos: usize,
    pub finish_pos: usize,
    pub kind: SyntaxKind,
    pub range: TextRange,
}

impl CompletedMarker {
    /// The kind of the node.
    pub fn kind(&self) -> (k: SyntaxKind)
        ensures
            k == self.kind,
    {
        self.kind
    }

    /// The range of the source that the node covers.
    pub fn range(&self) -> (r: TextRange)
        ensures
            r == self.range,
    {
        self.range
    }
}

} // verus!
