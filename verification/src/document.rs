//! The mathematical model of a document: its lines, its cursor and its
//! selection anchor, and what each action makes of them.

use crate::action::{Direction, EditAction};
use crate::position::Place;
use crate::text::{
    join_lines, lemma_join_split, lemma_split_lines_shape, no_newline, normalize, split_lines,
};
use vstd::prelude::*;

verus! {

/// A document as contracts see it.
pub struct Document {
    /// The lines, none of which holds a `'\n'`.
    pub lines: Seq<Seq<char>>,
    /// Where the next insertion goes.
    pub cursor: Place,
    /// The other end of the selection. An anchor equal to the cursor means
    /// that nothing is selected.
    pub anchor: Option<Place>,
}

/// The lines that remain when everything between `from` and `to` is taken
/// out: the head of the line of `from` is joined to the tail of the line of
/// `to`, and the lines between them disappear.
pub open spec fn cut(lines: Seq<Seq<char>>, from: Place, to: Place) -> Seq<Seq<char>> {
    lines.take(from.line).push(lines[from.line].take(from.column) + lines[to.line].skip(to.column))
        + lines.skip(to.line + 1)
}

impl Document {
    /// The empty document: one empty line, the cursor at its start.
    pub open spec fn empty() -> Document {
        Document {
            lines: seq![Seq::<char>::empty()],
            cursor: Place { line: 0, column: 0 },
            anchor: None,
        }
    }

    /// The document that holds `text`, split at its line terminators, with
    /// the cursor at its start and nothing selected.
    pub open spec fn with_text(text: Seq<char>) -> Document {
        Document {
            lines: split_lines(normalize(text)),
            cursor: Place { line: 0, column: 0 },
            anchor: None,
        }
    }

    /// `p` names a line of the document and a column on or just behind it.
    pub open spec fn valid(self, p: Place) -> bool {
        &&& 0 <= p.line < self.lines.len()
        &&& 0 <= p.column <= self.lines[p.line].len()
    }

    /// The invariant of every document: at least one line, no `'\n'` inside
    /// a line, and a valid cursor and anchor.
    pub open spec fn wf(self) -> bool {
        &&& self.lines.len() >= 1
        &&& no_newline(self.lines)
        &&& self.valid(self.cursor)
        &&& self.anchor matches Some(a) ==> self.valid(a)
    }

    /// The whole text: the lines joined by `'\n'`.
    pub open spec fn text(self) -> Seq<char> {
        join_lines(self.lines)
    }

    /// The text in front of a place: the lines above it and the head of its
    /// own line, joined.
    pub open spec fn text_before(self, p: Place) -> Seq<char> {
        join_lines(self.lines.take(p.line).push(self.lines[p.line].take(p.column)))
    }

    /// The text behind a place: the tail of its own line and the lines
    /// below it, joined.
    pub open spec fn text_after(self, p: Place) -> Seq<char> {
        join_lines(seq![self.lines[p.line].skip(p.column)] + self.lines.skip(p.line + 1))
    }

    /// The place behind the last character of the last line.
    pub open spec fn end(self) -> Place {
        Place { line: self.lines.len() - 1, column: self.lines.last().len() as int }
    }

    /// Something is selected: there is an anchor, and it is not the cursor.
    pub open spec fn has_selection(self) -> bool {
        self.anchor matches Some(a) && a != self.cursor
    }

    /// The end of the selection that comes first in the document.
    pub open spec fn selection_start(self) -> Place {
        if self.anchor->0.precedes(self.cursor) {
            self.anchor->0
        } else {
            self.cursor
        }
    }

    /// The end of the selection that comes last in the document.
    pub open spec fn selection_end(self) -> Place {
        if self.anchor->0.precedes(self.cursor) {
            self.cursor
        } else {
            self.anchor->0
        }
    }

    /// Where the cursor goes on a movement. At the edges of the document
    /// a movement that has nowhere to go leaves the cursor in place.
    pub open spec fn target(self, direction: Direction) -> Place {
        let line = self.cursor.line;
        let column = self.cursor.column;
        match direction {
            Direction::Left => if column > 0 {
                Place { line, column: column - 1 }
            } else if line > 0 {
                Place { line: line - 1, column: self.lines[line - 1].len() as int }
            } else {
                self.cursor
            },
            Direction::Right => if column < self.lines[line].len() {
                Place { line, column: column + 1 }
            } else if line + 1 < self.lines.len() {
                Place { line: line + 1, column: 0 }
            } else {
                self.cursor
            },
            Direction::Up => if line > 0 {
                Place {
                    line: line - 1,
                    column: if column <= self.lines[line - 1].len() {
                        column
                    } else {
                        self.lines[line - 1].len() as int
                    },
                }
            } else {
                self.cursor
            },
            Direction::Down => if line + 1 < self.lines.len() {
                Place {
                    line: line + 1,
                    column: if column <= self.lines[line + 1].len() {
                        column
                    } else {
                        self.lines[line + 1].len() as int
                    },
                }
            } else {
                self.cursor
            },
            Direction::LineStart => Place { line, column: 0 },
            Direction::LineEnd => Place { line, column: self.lines[line].len() as int },
            Direction::DocumentStart => Place { line: 0, column: 0 },
            Direction::DocumentEnd => self.end(),
        }
    }

    /// Move the cursor and drop the selection.
    pub open spec fn move_cursor(self, direction: Direction) -> Document {
        Document { cursor: self.target(direction), anchor: None, ..self }
    }

    /// Move the cursor and keep the anchor of the selection; when nothing
    /// was selected, the anchor is where the cursor was.
    pub open spec fn select(self, direction: Direction) -> Document {
        Document {
            cursor: self.target(direction),
            anchor: if self.has_selection() {
                self.anchor
            } else {
                Some(self.cursor)
            },
            ..self
        }
    }

    /// Anchor at the start of the document, cursor at its end.
    pub open spec fn select_all(self) -> Document {
        Document { cursor: self.end(), anchor: Some(Place { line: 0, column: 0 }), ..self }
    }

    /// The selected text taken out, the cursor where it began; a document
    /// with nothing selected only loses its anchor.
    pub open spec fn delete_selection(self) -> Document {
        if self.has_selection() {
            Document {
                lines: cut(self.lines, self.selection_start(), self.selection_end()),
                cursor: self.selection_start(),
                anchor: None,
            }
        } else {
            Document { anchor: None, ..self }
        }
    }

    /// One character put in at the cursor, the cursor behind it. A `'\n'`
    /// splits the line at the cursor.
    pub open spec fn put(self, c: char) -> Document {
        let line = self.cursor.line;
        let column = self.cursor.column;
        if c == '\n' {
            Document {
                lines: self.lines.update(line, self.lines[line].take(column)).insert(
                    line + 1,
                    self.lines[line].skip(column),
                ),
                cursor: Place { line: line + 1, column: 0 },
                ..self
            }
        } else {
            Document {
                lines: self.lines.update(line, self.lines[line].insert(column, c)),
                cursor: Place { line, column: column + 1 },
                ..self
            }
        }
    }

    /// The selection, if any, replaced by one character.
    pub open spec fn insert_char(self, c: char) -> Document {
        self.delete_selection().put(c)
    }

    /// Every character of `s` inserted in order, as by `insert_char`.
    pub open spec fn insert_text(self, s: Seq<char>) -> Document
        decreases s.len(),
    {
        if s.len() == 0 {
            self
        } else {
            self.insert_text(s.drop_last()).insert_char(s.last())
        }
    }

    /// The selection deleted, or else the character before the cursor; at
    /// column 0 the line is joined to the one above. Nothing changes at the
    /// start of the document.
    pub open spec fn delete_backward(self) -> Document {
        let line = self.cursor.line;
        let column = self.cursor.column;
        if self.has_selection() {
            self.delete_selection()
        } else if column > 0 {
            Document {
                lines: self.lines.update(line, self.lines[line].remove(column - 1)),
                cursor: Place { line, column: column - 1 },
                anchor: None,
            }
        } else if line > 0 {
            Document {
                lines: self.lines.update(line - 1, self.lines[line - 1] + self.lines[line]).remove(
                    line,
                ),
                cursor: Place { line: line - 1, column: self.lines[line - 1].len() as int },
                anchor: None,
            }
        } else {
            self
        }
    }

    /// The selection deleted, or else the character after the cursor; at
    /// the end of a line the line below is joined to it. Nothing changes at
    /// the end of the document.
    pub open spec fn delete_forward(self) -> Document {
        let line = self.cursor.line;
        let column = self.cursor.column;
        if self.has_selection() {
            self.delete_selection()
        } else if column < self.lines[line].len() {
            Document {
                lines: self.lines.update(line, self.lines[line].remove(column)),
                anchor: None,
                ..self
            }
        } else if line + 1 < self.lines.len() {
            Document {
                lines: self.lines.update(line, self.lines[line] + self.lines[line + 1]).remove(
                    line + 1,
                ),
                anchor: None,
                ..self
            }
        } else {
            self
        }
    }

    /// What an action makes of the document.
    pub open spec fn apply(self, action: EditAction) -> Document {
        match action {
            EditAction::MoveCursor(direction) => self.move_cursor(direction),
            EditAction::Select(direction) => self.select(direction),
            EditAction::InsertCharacter(c) => self.insert_char(c),
            EditAction::InsertText(s) => self.insert_text(s@),
            EditAction::DeleteBackward => self.delete_backward(),
            EditAction::DeleteForward => self.delete_forward(),
            EditAction::SelectAll => self.select_all(),
        }
    }

    /// What a run of actions makes of the document, the first action first.
    pub open spec fn apply_all(self, actions: Seq<EditAction>) -> Document
        decreases actions.len(),
    {
        if actions.len() == 0 {
            self
        } else {
            self.apply_all(actions.drop_last()).apply(actions.last())
        }
    }
}


impl Document {
    /// A loaded document is well formed, and its text is the loaded text
    /// with the line terminators collapsed to `'\n'`.
    pub proof fn lemma_with_text(text: Seq<char>)
        ensures
            Document::with_text(text).wf(),
            Document::with_text(text).text() == normalize(text),
    {
        lemma_split_lines_shape(normalize(text));
        lemma_join_split(normalize(text));
    }

    /// A movement from a valid cursor ends at a valid place.
    pub proof fn lemma_target_valid(self, direction: Direction)
        requires
            self.wf(),
        ensures
            self.valid(self.target(direction)),
    {
    }

    /// Taking the selection out keeps the document well formed and leaves
    /// nothing selected.
    pub proof fn lemma_delete_selection_wf(self)
        requires
            self.wf(),
        ensures
            self.delete_selection().wf(),
            self.delete_selection().anchor is None,
    {
    }

    /// Putting in a character keeps a document without anchor well formed.
    pub proof fn lemma_put_wf(self, c: char)
        requires
            self.wf(),
            self.anchor is None,
        ensures
            self.put(c).wf(),
            self.put(c).anchor is None,
    {
    }

    /// Inserting a character keeps the document well formed.
    pub proof fn lemma_insert_char_wf(self, c: char)
        requires
            self.wf(),
        ensures
            self.insert_char(c).wf(),
            self.insert_char(c).anchor is None,
    {
        self.lemma_delete_selection_wf();
        self.delete_selection().lemma_put_wf(c);
    }

    /// Inserting a text keeps the document well formed.
    pub proof fn lemma_insert_text_wf(self, s: Seq<char>)
        requires
            self.wf(),
        ensures
            self.insert_text(s).wf(),
        decreases s.len(),
    {
        if s.len() > 0 {
            self.lemma_insert_text_wf(s.drop_last());
            self.insert_text(s.drop_last()).lemma_insert_char_wf(s.last());
        }
    }

    /// Deleting backward keeps the document well formed.
    pub proof fn lemma_delete_backward_wf(self)
        requires
            self.wf(),
        ensures
            self.delete_backward().wf(),
    {
        if self.has_selection() {
            self.lemma_delete_selection_wf();
        }
    }

    /// Deleting forward keeps the document well formed.
    pub proof fn lemma_delete_forward_wf(self)
        requires
            self.wf(),
        ensures
            self.delete_forward().wf(),
    {
        if self.has_selection() {
            self.lemma_delete_selection_wf();
        }
    }

    /// Every action keeps the document well formed.
    pub proof fn lemma_apply_wf(self, action: EditAction)
        requires
            self.wf(),
        ensures
            self.apply(action).wf(),
    {
        match action {
            EditAction::MoveCursor(direction) => self.lemma_target_valid(direction),
            EditAction::Select(direction) => self.lemma_target_valid(direction),
            EditAction::InsertCharacter(c) => self.lemma_insert_char_wf(c),
            EditAction::InsertText(s) => self.lemma_insert_text_wf(s@),
            EditAction::DeleteBackward => self.lemma_delete_backward_wf(),
            EditAction::DeleteForward => self.lemma_delete_forward_wf(),
            EditAction::SelectAll => {},
        }
    }
}

} // verus!
