//! The closed set of actions that a document buffer understands.

use vstd::prelude::*;

verus! {

/// Where a cursor movement goes.
#[derive(Clone, Copy, Debug, PartialEq, Eq, Structural)]
pub enum Direction {
    /// To the line above, keeping the column where the line is long enough.
    Up,
    /// To the line below, keeping the column where the line is long enough.
    Down,
    /// One character back, wrapping to the end of the line above.
    Left,
    /// One character on, wrapping to the start of the line below.
    Right,
    /// To column 0 of the current line.
    LineStart,
    /// Behind the last character of the current line.
    LineEnd,
    /// To line 0, column 0.
    DocumentStart,
    /// Behind the last character of the last line.
    DocumentEnd,
}

/// One user intent, applied atomically to a document buffer.
#[derive(Debug)]
pub enum EditAction {
    /// Move the cursor and drop any selection.
    MoveCursor(Direction),
    /// Move the cursor and keep, or start, a selection.
    Select(Direction),
    /// Replace the selection, if any, by one character. A `'\n'` splits the
    /// line at the cursor; every other character, a `'\r'` too, goes into
    /// the line.
    InsertCharacter(char),
    /// Insert every character of a text in order, as `InsertCharacter` does
    /// one at a time. An empty text changes nothing.
    InsertText(String),
    /// Delete the selection, or else the character before the cursor.
    DeleteBackward,
    /// Delete the selection, or else the character after the cursor.
    DeleteForward,
    /// Select the whole document.
    SelectAll,
}

impl Clone for EditAction {
    fn clone(&self) -> (copy: EditAction)
        ensures
            copy == *self,
    {
        match self {
            EditAction::MoveCursor(direction) => EditAction::MoveCursor(*direction),
            EditAction::Select(direction) => EditAction::Select(*direction),
            EditAction::InsertCharacter(c) => EditAction::InsertCharacter(*c),
            EditAction::InsertText(text) => EditAction::InsertText(text.clone()),
            EditAction::DeleteBackward => EditAction::DeleteBackward,
            EditAction::DeleteForward => EditAction::DeleteForward,
            EditAction::SelectAll => EditAction::SelectAll,
        }
    }
}

impl EditAction {
    /// Whether the action may change the text of a document: true of the two
    /// insertions and the two deletions, false of every movement and
    /// selection.
    pub open spec fn edits(self) -> bool {
        match self {
            EditAction::InsertCharacter(_) => true,
            EditAction::InsertText(_) => true,
            EditAction::DeleteBackward => true,
            EditAction::DeleteForward => true,
            EditAction::MoveCursor(_) => false,
            EditAction::Select(_) => false,
            EditAction::SelectAll => false,
        }
    }

    /// Whether the action is an editing action, one that marks a document as
    /// modified.
    pub fn is_edit(&self) -> (edit: bool)
        ensures
            edit == self.edits(),
    {
        match self {
            EditAction::InsertCharacter(_)
            | EditAction::InsertText(_)
            | EditAction::DeleteBackward
            | EditAction::DeleteForward => true,
            EditAction::MoveCursor(_) | EditAction::Select(_) | EditAction::SelectAll => false,
        }
    }
}

} // verus!
