//! The position tracker: the pair (line count consumed, byte offset consumed)
//! for the currently open file. The byte offset always equals the sum of the
//! byte lengths (newline terminator included) of every line consumed since
//! the file was last (re)opened, and is the offset the next read must start
//! from.

use vstd::prelude::*;
use crate::data::Line;

verus! {

/// The (line count, byte offset) cursor for the currently open file handle.
#[derive(Debug, Copy, Clone, PartialEq, Eq)]
pub struct PositionTracker {
    /// Lines consumed from the current handle since it was (re)opened.
    pub line: Line,
    /// Bytes consumed from the current handle since it was (re)opened.
    pub pos: u64,
}

impl PositionTracker {
    /// A fresh cursor at the start of a newly opened file.
    pub fn new() -> (t: PositionTracker)
        ensures
            t.line.0 == 0,
            t.pos == 0,
    {
        PositionTracker { line: Line(0), pos: 0 }
    }

    /// Record that one more line, `nbytes` bytes long (terminator included),
    /// has been consumed.
    pub fn advance(&mut self, nbytes: usize)
        requires
            old(self).line.0 < usize::MAX,
            old(self).pos + nbytes <= u64::MAX,
        ensures
            final(self).line.0 == old(self).line.0 + 1,
            final(self).pos == old(self).pos + nbytes,
    {
        self.line = Line(self.line.0 + 1);
        self.pos = self.pos + (nbytes as u64);
    }

    /// Reset to the start of a file, done exactly once per rotation, at the
    /// moment a new handle replaces the old one.
    pub fn reset(&mut self)
        ensures
            final(self).line.0 == 0,
            final(self).pos == 0,
    {
        self.line = Line(0);
        self.pos = 0;
    }
}

} // verus!
