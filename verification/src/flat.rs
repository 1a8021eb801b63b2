//! The document as one flat text.
//!
//! A document is kept as lines, but what happens to it is easiest to say of
//! the text as a whole: the cursor stands between the text before it and
//! the text after it, an insertion lengthens the text before the cursor, a
//! deletion shortens one of the two. The laws here prove that the
//! line-wise definitions of [`crate::document`] do exactly that, across
//! line boundaries as within a line.

use crate::action::Direction;
use crate::document::{cut, Document};
use crate::position::Place;
use crate::text::{join_lines, lemma_join_concat, lemma_join_cut, lemma_join_push_tail};
use vstd::prelude::*;

verus! {

/// The text of a document is the text before a place followed by the text
/// after it.
pub proof fn lemma_text_around(doc: Document, p: Place)
    requires
        doc.valid(p),
    ensures
        doc.text() == doc.text_before(p) + doc.text_after(p),
{
    let line = doc.lines[p.line];
    let above = doc.lines.take(p.line);
    let below = doc.lines.skip(p.line + 1);
    assert(line.take(p.column) + line.skip(p.column) =~= line);
    assert(above.push(line.take(p.column) + line.skip(p.column)) + below =~= doc.lines);
    lemma_join_cut(above, line.take(p.column), line.skip(p.column), below);
}

/// Nothing comes before the start of the document, and nothing after its
/// end.
pub proof fn lemma_text_at_the_ends(doc: Document)
    requires
        doc.lines.len() >= 1,
    ensures
        doc.text_before(Place { line: 0, column: 0 }) == Seq::<char>::empty(),
        doc.text_after(doc.end()) == Seq::<char>::empty(),
        doc.text_before(doc.end()) == doc.text(),
{
    let end = doc.end();
    assert(seq![doc.lines[end.line].skip(end.column)] + doc.lines.skip(end.line + 1) =~~= seq![
        Seq::<char>::empty(),
    ]);
    assert(doc.lines[end.line].take(end.column) =~= doc.lines[end.line]);
    assert(doc.lines.take(end.line).push(doc.lines[end.line]) =~= doc.lines);
}

/// Putting in a character lengthens the text before the cursor by that
/// character and leaves the text after the cursor alone. A `'\n'` is no
/// exception.
pub proof fn lemma_put_text(doc: Document, c: char)
    requires
        doc.wf(),
    ensures
        doc.put(c).text_before(doc.put(c).cursor) == doc.text_before(doc.cursor).push(c),
        doc.put(c).text_after(doc.put(c).cursor) == doc.text_after(doc.cursor),
{
    let line = doc.cursor.line;
    let column = doc.cursor.column;
    let after = doc.put(c);
    let above = doc.lines.take(line);
    let head = doc.lines[line].take(column);
    let tail = doc.lines[line].skip(column);
    if c == '\n' {
        assert(after.lines.take(line + 1) =~= above.push(head));
        assert(after.lines[line + 1].take(0) =~= Seq::<char>::empty());
        assert(above.push(head).push(Seq::<char>::empty()).drop_last() =~= above.push(head));
        assert(after.lines[line + 1].skip(0) =~= tail);
        assert(after.lines.skip(line + 2) =~= doc.lines.skip(line + 1));
    } else {
        assert(after.lines.take(line) =~= above);
        assert(after.lines[line].take(column + 1) =~= head + seq![c]);
        lemma_join_push_tail(above, head, seq![c]);
        assert(after.lines[line].skip(column + 1) =~= tail);
        assert(after.lines.skip(line + 1) =~= doc.lines.skip(line + 1));
    }
}

/// Deleting the selection takes out exactly the text between its two ends:
/// what was before its start is now before the cursor, what was after its
/// end is now after the cursor.
pub proof fn lemma_delete_selection_text(doc: Document)
    requires
        doc.wf(),
        doc.has_selection(),
    ensures
        doc.delete_selection().text_before(doc.delete_selection().cursor) == doc.text_before(
            doc.selection_start(),
        ),
        doc.delete_selection().text_after(doc.delete_selection().cursor) == doc.text_after(
            doc.selection_end(),
        ),
{
    let from = doc.selection_start();
    let to = doc.selection_end();
    let after = doc.delete_selection();
    let head = doc.lines[from.line].take(from.column);
    let tail = doc.lines[to.line].skip(to.column);
    assert(after.lines.take(from.line) =~= doc.lines.take(from.line));
    assert(after.lines[from.line].take(from.column) =~= head);
    assert(after.lines[from.line].skip(from.column) =~= tail);
    assert(after.lines.skip(from.line + 1) =~= doc.lines.skip(to.line + 1));
}

/// Inserting a character over a selection replaces the selected text by
/// the character; with nothing selected it goes in at the cursor.
pub proof fn lemma_insert_char_text(doc: Document, c: char)
    requires
        doc.wf(),
    ensures
        doc.insert_char(c).text_before(doc.insert_char(c).cursor) == doc.text_before(
            if doc.has_selection() {
                doc.selection_start()
            } else {
                doc.cursor
            },
        ).push(c),
        doc.insert_char(c).text_after(doc.insert_char(c).cursor) == doc.text_after(
            if doc.has_selection() {
                doc.selection_end()
            } else {
                doc.cursor
            },
        ),
{
    doc.lemma_delete_selection_wf();
    lemma_put_text(doc.delete_selection(), c);
    if doc.has_selection() {
        lemma_delete_selection_text(doc);
    }
}

/// Inserting a text where nothing is selected puts the whole text in front
/// of the cursor: the cursor ends right behind what was inserted, and the
/// text after it is what it was.
pub proof fn lemma_insert_text_text(doc: Document, s: Seq<char>)
    requires
        doc.wf(),
        !doc.has_selection(),
    ensures
        doc.insert_text(s).text_before(doc.insert_text(s).cursor) == doc.text_before(doc.cursor)
            + s,
        doc.insert_text(s).text_after(doc.insert_text(s).cursor) == doc.text_after(doc.cursor),
        !doc.insert_text(s).has_selection(),
    decreases s.len(),
{
    if s.len() == 0 {
    } else {
        let front = s.drop_last();
        let middle = doc.insert_text(front);
        lemma_insert_text_text(doc, front);
        doc.lemma_insert_text_wf(front);
        lemma_insert_char_text(middle, s.last());
        middle.lemma_insert_char_wf(s.last());
        assert((doc.text_before(doc.cursor) + front).push(s.last()) =~= doc.text_before(doc.cursor)
            + s);
    }
}

/// With nothing selected, deleting backward takes the last character off
/// the text before the cursor, whether it is a character of the line or
/// the `'\n'` that ends the line above.
pub proof fn lemma_delete_backward_text(doc: Document)
    requires
        doc.wf(),
        !doc.has_selection(),
        doc.text_before(doc.cursor).len() > 0,
    ensures
        doc.delete_backward().text_before(doc.delete_backward().cursor) == doc.text_before(
            doc.cursor,
        ).drop_last(),
        doc.delete_backward().text_after(doc.delete_backward().cursor) == doc.text_after(
            doc.cursor,
        ),
{
    let line = doc.cursor.line;
    let column = doc.cursor.column;
    let after = doc.delete_backward();
    let above = doc.lines.take(line);
    let head = doc.lines[line].take(column);
    if column > 0 {
        let shorter = head.drop_last();
        assert(head =~= shorter + seq![head.last()]);
        lemma_join_push_tail(above, shorter, seq![head.last()]);
        assert(after.lines.take(line) =~= above);
        assert(after.lines[line].take(column - 1) =~= shorter);
        assert(after.lines[line].skip(column - 1) =~= doc.lines[line].skip(column));
        assert(after.lines.skip(line + 1) =~= doc.lines.skip(line + 1));
    } else if line > 0 {
        let previous = doc.lines[line - 1];
        assert(above.push(head).drop_last() =~= above);
        assert(above =~= doc.lines.take(line - 1).push(previous));
        assert(after.lines.take(line - 1) =~= doc.lines.take(line - 1));
        assert(after.lines[line - 1].take(previous.len() as int) =~= previous);
        assert(after.lines[line - 1].skip(previous.len() as int) =~= doc.lines[line].skip(0));
        assert(after.lines.skip(line) =~= doc.lines.skip(line + 1));
    }
}

/// With nothing selected, deleting forward takes the first character off
/// the text after the cursor, whether it is a character of the line or the
/// `'\n'` that ends it.
pub proof fn lemma_delete_forward_text(doc: Document)
    requires
        doc.wf(),
        !doc.has_selection(),
        doc.text_after(doc.cursor).len() > 0,
    ensures
        doc.delete_forward().text_before(doc.delete_forward().cursor) == doc.text_before(
            doc.cursor,
        ),
        doc.delete_forward().text_after(doc.delete_forward().cursor) == doc.text_after(
            doc.cursor,
        ).drop_first(),
{
    let line = doc.cursor.line;
    let column = doc.cursor.column;
    let after = doc.delete_forward();
    let tail = doc.lines[line].skip(column);
    let below = doc.lines.skip(line + 1);
    if column < doc.lines[line].len() {
        let shorter = tail.drop_first();
        assert(seq![tail] + below =~~= Seq::<Seq<char>>::empty().push(seq![tail[0]] + shorter)
            + below);
        lemma_join_cut(Seq::<Seq<char>>::empty(), seq![tail[0]], shorter, below);
        assert(after.lines[line].skip(column) =~= shorter);
        assert(after.lines.skip(line + 1) =~= below);
        assert(after.lines.take(line) =~= doc.lines.take(line));
        assert(after.lines[line].take(column) =~= doc.lines[line].take(column));
    } else if line + 1 < doc.lines.len() {
        let next = doc.lines[line + 1];
        lemma_join_concat(seq![tail], below);
        assert(below =~= seq![next] + doc.lines.skip(line + 2));
        assert(after.lines[line].skip(column) =~= next);
        assert(after.lines.skip(line + 1) =~= doc.lines.skip(line + 2));
        assert(after.lines.take(line) =~= doc.lines.take(line));
        assert(after.lines[line].take(column) =~= doc.lines[line].take(column));
    }
}

/// Moving left steps over one character of the flat text, the `'\n'`
/// between two lines included; at the start of the text the cursor stays.
pub proof fn lemma_left_steps_back(doc: Document)
    requires
        doc.wf(),
    ensures
        doc.text_before(doc.cursor).len() > 0 ==> doc.text_before(doc.target(Direction::Left))
            == doc.text_before(doc.cursor).drop_last(),
        doc.text_before(doc.cursor).len() == 0 ==> doc.target(Direction::Left) == doc.cursor,
{
    let line = doc.cursor.line;
    let column = doc.cursor.column;
    let above = doc.lines.take(line);
    let head = doc.lines[line].take(column);
    if column > 0 {
        let shorter = head.drop_last();
        assert(head =~= shorter + seq![head.last()]);
        lemma_join_push_tail(above, shorter, seq![head.last()]);
        assert(doc.lines[line].take(column - 1) =~= shorter);
    } else if line > 0 {
        let previous = doc.lines[line - 1];
        assert(above.push(head).drop_last() =~= above);
        assert(above =~= doc.lines.take(line - 1).push(previous));
        assert(previous.take(previous.len() as int) =~= previous);
        assert(doc.text_before(doc.target(Direction::Left)) =~= doc.text_before(
            doc.cursor,
        ).drop_last());
    }
}

/// Moving right steps over one character of the flat text, the `'\n'`
/// between two lines included; at the end of the text the cursor stays.
pub proof fn lemma_right_steps_on(doc: Document)
    requires
        doc.wf(),
    ensures
        doc.text_after(doc.cursor).len() > 0 ==> doc.text_before(doc.target(Direction::Right))
            == doc.text_before(doc.cursor).push(doc.text_after(doc.cursor)[0]),
        doc.text_after(doc.cursor).len() == 0 ==> doc.target(Direction::Right) == doc.cursor,
{
    let line = doc.cursor.line;
    let column = doc.cursor.column;
    let above = doc.lines.take(line);
    let head = doc.lines[line].take(column);
    let tail = doc.lines[line].skip(column);
    let below = doc.lines.skip(line + 1);
    if column < doc.lines[line].len() {
        let shorter = tail.drop_first();
        assert(seq![tail] + below =~~= Seq::<Seq<char>>::empty().push(seq![tail[0]] + shorter)
            + below);
        lemma_join_cut(Seq::<Seq<char>>::empty(), seq![tail[0]], shorter, below);
        assert(doc.lines[line].take(column + 1) =~= head + seq![tail[0]]);
        lemma_join_push_tail(above, head, seq![tail[0]]);
        assert(doc.text_before(doc.target(Direction::Right)) =~= doc.text_before(doc.cursor).push(
            tail[0],
        ));
    } else if line + 1 < doc.lines.len() {
        lemma_join_concat(seq![tail], below);
        assert(head =~= doc.lines[line]);
        assert(doc.lines.take(line + 1) =~= above.push(head));
        assert(doc.lines[line + 1].take(0) =~= Seq::<char>::empty());
        assert(above.push(head).push(Seq::<char>::empty()).drop_last() =~= above.push(head));
        assert(doc.text_before(doc.target(Direction::Right)) =~= doc.text_before(doc.cursor).push(
            '\n',
        ));
    }
}

} // verus!
