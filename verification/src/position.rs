//! Coordinates into a document.

use vstd::prelude::*;

verus! {

/// A coordinate into a document: a line index and a column within that line,
/// the column counted in Unicode scalar values, not bytes.
#[derive(Clone, Copy, Debug, PartialEq, Eq, Structural)]
pub struct Position {
    pub line: usize,
    pub column: usize,
}

/// The mathematical counterpart of a [`Position`].
pub struct Place {
    pub line: int,
    pub column: int,
}

impl Place {
    /// Document order: `self` comes before `other`, or is the same place.
    pub open spec fn precedes(self, other: Place) -> bool {
        self.line < other.line || (self.line == other.line && self.column <= other.column)
    }
}

impl View for Position {
    type V = Place;

    open spec fn view(&self) -> Place {
        Place { line: self.line as int, column: self.column as int }
    }
}

impl Position {
    /// The position at the given line and column.
    pub fn new(line: usize, column: usize) -> (p: Position)
        ensures
            p.line == line,
            p.column == column,
    {
        Position { line, column }
    }

    /// Whether `self` comes before `other` in document order, or is the same
    /// position.
    pub fn precedes(&self, other: &Position) -> (r: bool)
        ensures
            r == self@.precedes(other@),
    {
        self.line < other.line || (self.line == other.line && self.column <= other.column)
    }
}

} // verus!
