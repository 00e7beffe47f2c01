//! Source positions.

use vstd::prelude::*;

verus! {

/// A place in a document: a line and a column. `(0, 0)` stands for "unknown".
#[derive(Debug, Copy, Clone, PartialEq, Eq, Structural, PartialOrd, Ord, Hash)]
pub struct Position {
    pub line: usize,
    pub col: usize,
}

impl Position {
    /// The position that stands for "unknown".
    pub open spec fn unknown() -> Position {
        Position { line: 0, col: 0 }
    }

    /// Whether this is a real place, that is, not `(0, 0)`.
    pub fn is_known(&self) -> (r: bool)
        ensures
            r == (*self != Position::unknown()),
    {
        self.line != 0 || self.col != 0
    }
}

impl Default for Position {
    fn default() -> (r: Position)
        ensures
            r == Position::unknown(),
    {
        Position { line: 0, col: 0 }
    }
}

} // verus!
