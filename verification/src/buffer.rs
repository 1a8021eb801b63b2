//! The document buffer: the text of a document as a sequence of lines, a
//! cursor and a selection anchor, changed only by edit actions.

use crate::action::{Direction, EditAction};
use crate::document::{cut, Document};
use crate::position::Position;
use crate::text::{
    join_lines, lemma_split_lines_push, lemma_split_lines_shape, normalize, split_lines,
};
use vstd::prelude::*;
use vstd::std_specs::iter::IteratorSpec;

verus! {

/// The text of a document, its cursor and its selection.
///
/// A buffer always holds at least one line; an empty document is one empty
/// line. The cursor always names an existing line and a column on it or
/// just behind its last character.
#[derive(Debug)]
pub struct DocumentBuffer {
    lines: Vec<Vec<char>>,
    cursor: Position,
    anchor: Option<Position>,
}

/// The contents of a vector of lines.
pub open spec fn lines_view(lines: Seq<Vec<char>>) -> Seq<Seq<char>> {
    Seq::new(lines.len(), |i: int| lines[i]@)
}

/// Appends the characters of a line to a string.
fn push_chars(text: &mut String, chars: &Vec<char>)
    ensures
        final(text)@ == old(text)@ + chars@,
{
    let mut j: usize = 0;
    while j < chars.len()
        invariant
            j <= chars.len(),
            text@ == old(text)@ + chars@.take(j as int),
        decreases chars.len() - j,
    {
        text.push(chars[j]);
        j += 1;
    }
}

impl View for DocumentBuffer {
    type V = Document;

    closed spec fn view(&self) -> Document {
        Document {
            lines: lines_view(self.lines@),
            cursor: self.cursor@,
            anchor: match self.anchor {
                Some(a) => Some(a@),
                None => None,
            },
        }
    }
}

impl DocumentBuffer {
    /// An empty buffer: one empty line, the cursor at its start, nothing
    /// selected.
    pub fn new() -> (buffer: DocumentBuffer)
        ensures
            buffer@ == Document::empty(),
            buffer@.wf(),
    {
        let mut lines: Vec<Vec<char>> = Vec::new();
        lines.push(Vec::new());
        let buffer = DocumentBuffer { lines, cursor: Position { line: 0, column: 0 }, anchor: None };
        assert(buffer@.lines =~~= Document::empty().lines);
        buffer
    }

    /// A buffer that holds `text`, the cursor at its start and nothing
    /// selected. The text is split at its line terminators, of which
    /// `"\r\n"`, `'\r'` and `'\n'` each end one line; which of them the text
    /// used is not kept.
    pub fn with_text(text: &str) -> (buffer: DocumentBuffer)
        ensures
            buffer@ == Document::with_text(text@),
            buffer@.text() == normalize(text@),
            buffer@.wf(),
    {
        let mut lines: Vec<Vec<char>> = Vec::new();
        lines.push(Vec::new());
        let mut after_return = false;
        for c in it: text.chars()
            invariant
                it.seq() == text@,
                lines@.len() >= 1,
                lines_view(lines@) == split_lines(normalize(it.seq().take(it.index() as int))),
                after_return == (it.index() > 0 && it.seq()[it.index() - 1] == '\r'),
        {
            let ghost seen = it.seq().take(it.index() as int);
            proof {
                assert(it.seq().take(it.index() + 1) =~= seen.push(c));
                assert(seen.push(c).drop_last() =~= seen);
                lemma_split_lines_shape(normalize(seen));
            }
            if c == '\n' && after_return {
                // the second half of a "\r\n", whose line has already ended
            } else if c == '\r' || c == '\n' {
                lines.push(Vec::new());
                proof {
                    lemma_split_lines_push(normalize(seen), '\n');
                }
            } else {
                let last = lines.len() - 1;
                lines[last].push(c);
                proof {
                    lemma_split_lines_push(normalize(seen), c);
                }
            }
            after_return = c == '\r';
        }
        assert(text@.take(text@.len() as int) =~= text@);
        proof {
            Document::lemma_with_text(text@);
        }
        DocumentBuffer { lines, cursor: Position { line: 0, column: 0 }, anchor: None }
    }

    /// The whole text: the lines joined by a single `'\n'`.
    pub fn text(&self) -> (text: String)
        ensures
            text@ == self@.text(),
    {
        let mut text = String::new();
        let mut i: usize = 0;
        while i < self.lines.len()
            invariant
                i <= self.lines.len(),
                text@ == join_lines(lines_view(self.lines@).take(i as int)),
            decreases self.lines.len() - i,
        {
            let ghost next = lines_view(self.lines@).take(i + 1);
            assert(next.drop_last() =~= lines_view(self.lines@).take(i as int));
            if i > 0 {
                text.push('\n');
            }
            push_chars(&mut text, &self.lines[i]);
            i += 1;
        }
        assert(lines_view(self.lines@).take(self.lines.len() as int) =~= lines_view(self.lines@));
        text
    }

    /// The current cursor.
    pub fn cursor_position(&self) -> (position: Position)
        ensures
            position@ == self@.cursor,
    {
        self.cursor
    }

    /// The two ends of the selection in document order, where anything is
    /// selected.
    pub fn selection(&self) -> (ends: Option<(Position, Position)>)
        ensures
            ends is Some == self@.has_selection(),
            ends matches Some((start, end)) ==> start@ == self@.selection_start() && end@
                == self@.selection_end(),
    {
        match self.anchor {
            Some(anchor) => {
                if anchor.line == self.cursor.line && anchor.column == self.cursor.column {
                    None
                } else if anchor.precedes(&self.cursor) {
                    Some((anchor, self.cursor))
                } else {
                    Some((self.cursor, anchor))
                }
            },
            None => None,
        }
    }

    /// The number of lines, which is never 0 in a well-formed buffer.
    pub fn line_count(&self) -> (count: usize)
        ensures
            count == self@.lines.len(),
    {
        self.lines.len()
    }

    /// The text of the line at `index`, where there is such a line.
    pub fn line(&self, index: usize) -> (line: Option<String>)
        ensures
            line is Some == (index < self@.lines.len()),
            line matches Some(text) ==> text@ == self@.lines[index as int],
    {
        if index < self.lines.len() {
            let mut text = String::new();
            push_chars(&mut text, &self.lines[index]);
            Some(text)
        } else {
            None
        }
    }
}

impl DocumentBuffer {
    /// Where a movement takes the cursor.
    fn target(&self, direction: Direction) -> (p: Position)
        requires
            self@.wf(),
        ensures
            p@ == self@.target(direction),
    {
        let line = self.cursor.line;
        let column = self.cursor.column;
        let count = self.lines.len();
        match direction {
            Direction::Left => {
                if column > 0 {
                    Position { line, column: column - 1 }
                } else if line > 0 {
                    Position { line: line - 1, column: self.lines[line - 1].len() }
                } else {
                    self.cursor
                }
            },
            Direction::Right => {
                if column < self.lines[line].len() {
                    Position { line, column: column + 1 }
                } else if line + 1 < count {
                    Position { line: line + 1, column: 0 }
                } else {
                    self.cursor
                }
            },
            Direction::Up => {
                if line > 0 {
                    let above = self.lines[line - 1].len();
                    Position { line: line - 1, column: if column <= above { column } else { above } }
                } else {
                    self.cursor
                }
            },
            Direction::Down => {
                if line + 1 < count {
                    let below = self.lines[line + 1].len();
                    Position { line: line + 1, column: if column <= below { column } else { below } }
                } else {
                    self.cursor
                }
            },
            Direction::LineStart => Position { line, column: 0 },
            Direction::LineEnd => Position { line, column: self.lines[line].len() },
            Direction::DocumentStart => Position { line: 0, column: 0 },
            Direction::DocumentEnd => {
                Position { line: count - 1, column: self.lines[count - 1].len() }
            },
        }
    }

    /// Whether anything is selected.
    fn has_selection(&self) -> (r: bool)
        ensures
            r == self@.has_selection(),
    {
        match self.anchor {
            Some(a) => a.line != self.cursor.line || a.column != self.cursor.column,
            None => false,
        }
    }

    /// Moves the cursor and drops the selection.
    fn move_cursor(&mut self, direction: Direction)
        requires
            old(self)@.wf(),
        ensures
            final(self)@ == old(self)@.move_cursor(direction),
    {
        self.cursor = self.target(direction);
        self.anchor = None;
    }

    /// Moves the cursor and keeps, or starts, the selection.
    fn select(&mut self, direction: Direction)
        requires
            old(self)@.wf(),
        ensures
            final(self)@ == old(self)@.select(direction),
    {
        let target = self.target(direction);
        if !self.has_selection() {
            self.anchor = Some(self.cursor);
        }
        self.cursor = target;
    }

    /// Selects from the start of the document to its end.
    fn select_all(&mut self)
        requires
            old(self)@.wf(),
        ensures
            final(self)@ == old(self)@.select_all(),
    {
        let last = self.lines.len() - 1;
        self.anchor = Some(Position { line: 0, column: 0 });
        self.cursor = Position { line: last, column: self.lines[last].len() };
    }

    /// Takes the selected text out and leaves nothing selected.
    fn delete_selection(&mut self)
        requires
            old(self)@.wf(),
        ensures
            final(self)@ == old(self)@.delete_selection(),
    {
        let anchor = match self.anchor {
            Some(a) => a,
            None => {
                return ;
            },
        };
        if !self.has_selection() {
            self.anchor = None;
            return ;
        }
        let (from, to) = if anchor.precedes(&self.cursor) {
            (anchor, self.cursor)
        } else {
            (self.cursor, anchor)
        };
        let ghost before = lines_view(self.lines@);
        assert(to.line < self.lines.len());
        let mut tail = self.lines[to.line].split_off(to.column);
        self.lines[from.line].truncate(from.column);
        self.lines[from.line].append(&mut tail);
        let mut rest = self.lines.split_off(to.line + 1);
        self.lines.truncate(from.line + 1);
        self.lines.append(&mut rest);
        self.cursor = from;
        self.anchor = None;
        assert(lines_view(self.lines@) =~~= cut(before, from@, to@));
    }

    /// Puts one character in at the cursor, which ends behind it.
    fn put(&mut self, c: char)
        requires
            old(self)@.wf(),
        ensures
            final(self)@ == old(self)@.put(c),
    {
        let line = self.cursor.line;
        let column = self.cursor.column;
        let ghost before = lines_view(self.lines@);
        assert(line < self.lines.len());
        if c == '\n' {
            let tail = self.lines[line].split_off(column);
            self.lines.insert(line + 1, tail);
            self.cursor = Position { line: line + 1, column: 0 };
            assert(lines_view(self.lines@) =~~= before.update(
                line as int,
                before[line as int].take(column as int),
            ).insert(line + 1, before[line as int].skip(column as int)));
        } else {
            self.lines[line].insert(column, c);
            assert(column < self.lines@[line as int].len());
            self.cursor = Position { line, column: column + 1 };
            assert(lines_view(self.lines@) =~~= before.update(
                line as int,
                before[line as int].insert(column as int, c),
            ));
        }
    }

    /// Replaces the selection, if any, by one character.
    fn insert_char(&mut self, c: char)
        requires
            old(self)@.wf(),
        ensures
            final(self)@ == old(self)@.insert_char(c),
            final(self)@.wf(),
    {
        proof {
            self@.lemma_delete_selection_wf();
            self@.lemma_insert_char_wf(c);
        }
        self.delete_selection();
        self.put(c);
    }

    /// Inserts every character of a text in order.
    fn insert_text(&mut self, text: &str)
        requires
            old(self)@.wf(),
        ensures
            final(self)@ == old(self)@.insert_text(text@),
            final(self)@.wf(),
    {
        for c in it: text.chars()
            invariant
                it.seq() == text@,
                self@ == old(self)@.insert_text(it.seq().take(it.index() as int)),
                self@.wf(),
        {
            let ghost seen = it.seq().take(it.index() as int);
            proof {
                assert(it.seq().take(it.index() + 1) =~= seen.push(c));
                assert(seen.push(c).drop_last() =~= seen);
            }
            self.insert_char(c);
        }
        assert(text@.take(text@.len() as int) =~= text@);
    }

    /// Deletes the selection, or else the character before the cursor.
    fn delete_backward(&mut self)
        requires
            old(self)@.wf(),
        ensures
            final(self)@ == old(self)@.delete_backward(),
    {
        let line = self.cursor.line;
        let column = self.cursor.column;
        let ghost before = lines_view(self.lines@);
        if self.has_selection() {
            self.delete_selection();
        } else if column > 0 {
            self.lines[line].remove(column - 1);
            self.cursor = Position { line, column: column - 1 };
            self.anchor = None;
            assert(lines_view(self.lines@) =~~= before.update(
                line as int,
                before[line as int].remove(column - 1),
            ));
        } else if line > 0 {
            let mut current = self.lines.remove(line);
            let above = self.lines[line - 1].len();
            self.lines[line - 1].append(&mut current);
            self.cursor = Position { line: line - 1, column: above };
            self.anchor = None;
            assert(lines_view(self.lines@) =~~= before.update(
                line - 1,
                before[line - 1] + before[line as int],
            ).remove(line as int));
        }
    }

    /// Deletes the selection, or else the character after the cursor.
    fn delete_forward(&mut self)
        requires
            old(self)@.wf(),
        ensures
            final(self)@ == old(self)@.delete_forward(),
    {
        let line = self.cursor.line;
        let column = self.cursor.column;
        let ghost before = lines_view(self.lines@);
        let count = self.lines.len();
        if self.has_selection() {
            self.delete_selection();
        } else if column < self.lines[line].len() {
            self.lines[line].remove(column);
            self.anchor = None;
            assert(lines_view(self.lines@) =~~= before.update(
                line as int,
                before[line as int].remove(column as int),
            ));
        } else if line + 1 < count {
            let mut below = self.lines.remove(line + 1);
            self.lines[line].append(&mut below);
            self.anchor = None;
            assert(lines_view(self.lines@) =~~= before.update(
                line as int,
                before[line as int] + before[line + 1],
            ).remove(line + 1));
        }
    }

    /// Applies one action. No action fails: at the edges of the document
    /// a movement or a deletion that has nowhere to go changes nothing.
    pub fn apply(&mut self, action: EditAction)
        requires
            old(self)@.wf(),
        ensures
            final(self)@ == old(self)@.apply(action),
            final(self)@.wf(),
            !action.edits() ==> final(self)@.lines == old(self)@.lines,
    {
        proof {
            self@.lemma_apply_wf(action);
        }
        match action {
            EditAction::MoveCursor(direction) => self.move_cursor(direction),
            EditAction::Select(direction) => self.select(direction),
            EditAction::InsertCharacter(c) => self.insert_char(c),
            EditAction::InsertText(s) => self.insert_text(s.as_str()),
            EditAction::DeleteBackward => self.delete_backward(),
            EditAction::DeleteForward => self.delete_forward(),
            EditAction::SelectAll => self.select_all(),
        }
    }
}

} // verus!
