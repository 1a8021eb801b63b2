//! Plain text as a sequence of characters, and its division into lines.
//!
//! Three line terminators are recognised when text is loaded: `"\r\n"`, a
//! lone `'\r'` and `'\n'`. Loading collapses all of them to `'\n'`, so a
//! document never remembers which convention a file used.

use vstd::prelude::*;

verus! {

/// The text `s` with every line terminator collapsed to `'\n'`: each `'\r'`
/// becomes `'\n'`, and a `'\n'` that directly follows a `'\r'` is dropped.
pub open spec fn normalize(s: Seq<char>) -> Seq<char>
    decreases s.len(),
{
    if s.len() == 0 {
        s
    } else if s.last() == '\n' && s.len() >= 2 && s[s.len() - 2] == '\r' {
        normalize(s.drop_last())
    } else if s.last() == '\r' {
        normalize(s.drop_last()).push('\n')
    } else {
        normalize(s.drop_last()).push(s.last())
    }
}

/// The lines of `t`, split at every `'\n'`. The empty text is one empty
/// line, and a text that ends in `'\n'` ends in an empty line.
pub open spec fn split_lines(t: Seq<char>) -> Seq<Seq<char>>
    decreases t.len(),
{
    if t.len() == 0 {
        seq![Seq::<char>::empty()]
    } else {
        let before = split_lines(t.drop_last());
        if t.last() == '\n' {
            before.push(Seq::<char>::empty())
        } else {
            before.update(before.len() - 1, before.last().push(t.last()))
        }
    }
}

/// The lines joined by a single `'\n'` between neighbours.
pub open spec fn join_lines(lines: Seq<Seq<char>>) -> Seq<char>
    decreases lines.len(),
{
    if lines.len() == 0 {
        Seq::<char>::empty()
    } else if lines.len() == 1 {
        lines[0]
    } else {
        join_lines(lines.drop_last()) + seq!['\n'] + lines.last()
    }
}

/// No line holds a `'\n'`.
pub open spec fn no_newline(lines: Seq<Seq<char>>) -> bool {
    forall|i: int, j: int|
        0 <= i < lines.len() && 0 <= j < lines[i].len() ==> #[trigger] lines[i][j] != '\n'
}

/// The text holds no `'\r'`.
pub open spec fn no_carriage_return(s: Seq<char>) -> bool {
    forall|i: int| 0 <= i < s.len() ==> s[i] != '\r'
}

/// Splitting always yields at least one line, and no line holds a `'\n'`.
pub proof fn lemma_split_lines_shape(t: Seq<char>)
    ensures
        split_lines(t).len() >= 1,
        no_newline(split_lines(t)),
    decreases t.len(),
{
    if t.len() > 0 {
        lemma_split_lines_shape(t.drop_last());
    }
}

/// Appending one character to a text: a `'\n'` opens a new empty line, any
/// other character lengthens the last line.
pub proof fn lemma_split_lines_push(t: Seq<char>, c: char)
    ensures
        c == '\n' ==> split_lines(t.push(c)) == split_lines(t).push(Seq::<char>::empty()),
        c != '\n' ==> split_lines(t.push(c)) == split_lines(t).update(
            split_lines(t).len() - 1,
            split_lines(t).last().push(c),
        ),
{
    assert(t.push(c).drop_last() =~= t);
}

/// Joining the lines of a text gives the text back.
pub proof fn lemma_join_split(t: Seq<char>)
    ensures
        join_lines(split_lines(t)) == t,
    decreases t.len(),
{
    if t.len() > 0 {
        let head = t.drop_last();
        let before = split_lines(head);
        lemma_split_lines_shape(head);
        lemma_join_split(head);
        if t.last() == '\n' {
            assert(before.push(Seq::<char>::empty()).drop_last() =~= before);
        } else {
            lemma_join_push_char(before, t.last());
        }
    }
}

/// Joining lines with one more character at the end of the last line.
proof fn lemma_join_push_char(lines: Seq<Seq<char>>, c: char)
    requires
        lines.len() >= 1,
    ensures
        join_lines(lines.update(lines.len() - 1, lines.last().push(c))) == join_lines(lines).push(c),
{
    let after = lines.update(lines.len() - 1, lines.last().push(c));
    if lines.len() > 1 {
        assert(after.drop_last() =~= lines.drop_last());
    }
}

/// Joining lines whose last line has grown by `tail`.
pub proof fn lemma_join_push_tail(lines: Seq<Seq<char>>, line: Seq<char>, tail: Seq<char>)
    ensures
        join_lines(lines.push(line + tail)) == join_lines(lines.push(line)) + tail,
{
    assert(lines.push(line + tail).drop_last() =~= lines);
    assert(lines.push(line).drop_last() =~= lines);
}

/// Joining two runs of lines: the join of the first, a `'\n'`, and the join
/// of the second.
pub proof fn lemma_join_concat(first: Seq<Seq<char>>, second: Seq<Seq<char>>)
    requires
        first.len() >= 1,
        second.len() >= 1,
    ensures
        join_lines(first + second) == join_lines(first) + seq!['\n'] + join_lines(second),
    decreases second.len(),
{
    let all = first + second;
    if second.len() == 1 {
        assert(all.drop_last() =~= first);
    } else {
        lemma_join_concat(first, second.drop_last());
        assert(all.drop_last() =~= first + second.drop_last());
    }
}

/// A text may be cut inside a line: joining everything is joining what comes
/// before the cut, then what comes after it.
pub proof fn lemma_join_cut(
    above: Seq<Seq<char>>,
    head: Seq<char>,
    tail: Seq<char>,
    below: Seq<Seq<char>>,
)
    ensures
        join_lines(above.push(head + tail) + below) == join_lines(above.push(head)) + join_lines(
            seq![tail] + below,
        ),
{
    lemma_join_push_tail(above, head, tail);
    if below.len() > 0 {
        lemma_join_concat(above.push(head + tail), below);
        lemma_join_concat(seq![tail], below);
        assert(join_lines(above.push(head + tail) + below) =~= join_lines(above.push(head))
            + join_lines(seq![tail] + below));
    }
}

/// Splitting the join of well-shaped lines gives the lines back.
pub proof fn lemma_split_join(lines: Seq<Seq<char>>)
    requires
        lines.len() >= 1,
        no_newline(lines),
    ensures
        split_lines(join_lines(lines)) == lines,
    decreases lines.len(), lines.last().len(),
{
    let last = lines.last();
    if last.len() > 0 {
        let shorter = lines.update(lines.len() - 1, last.drop_last());
        assert(no_newline(shorter));
        lemma_split_join(shorter);
        lemma_join_push_char(shorter, last.last());
        assert(shorter.last().push(last.last()) =~= last);
        assert(shorter.update(shorter.len() - 1, last) =~= lines);
        lemma_split_lines_push(join_lines(shorter), last.last());
    } else if lines.len() == 1 {
        assert(lines[0] =~= Seq::<char>::empty());
    } else {
        let front = lines.drop_last();
        assert(no_newline(front));
        lemma_split_join(front);
        assert(join_lines(lines) =~= join_lines(front).push('\n'));
        lemma_split_lines_push(join_lines(front), '\n');
        assert(last =~= Seq::<char>::empty());
    }
}

/// A normalized text holds no `'\r'`.
pub proof fn lemma_normalize_no_carriage_return(s: Seq<char>)
    ensures
        no_carriage_return(normalize(s)),
    decreases s.len(),
{
    if s.len() > 0 {
        lemma_normalize_no_carriage_return(s.drop_last());
    }
}

/// A text without `'\r'` is its own normal form.
pub proof fn lemma_normalize_fixed(s: Seq<char>)
    requires
        no_carriage_return(s),
    ensures
        normalize(s) == s,
    decreases s.len(),
{
    if s.len() > 0 {
        lemma_normalize_fixed(s.drop_last());
    }
}

/// Normalizing twice is the same as normalizing once.
pub proof fn lemma_normalize_idempotent(s: Seq<char>)
    ensures
        normalize(normalize(s)) == normalize(s),
{
    lemma_normalize_no_carriage_return(s);
    lemma_normalize_fixed(normalize(s));
}

} // verus!
