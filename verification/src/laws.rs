//! Laws of the document model and of the session, each proved from the
//! definitions in [`crate::document`], [`crate::text`] and
//! [`crate::session`].

use crate::action::EditAction;
use crate::document::Document;
use crate::file_io::Error;
use crate::session::{next_ticket, Command, Session};
use crate::text::{lemma_normalize_idempotent, normalize};
use vstd::prelude::*;

verus! {

/// Every action of the run is a cursor movement or a selection.
pub open spec fn only_movements(actions: Seq<EditAction>) -> bool {
    forall|i: int|
        0 <= i < actions.len() ==> (#[trigger] actions[i] is MoveCursor) || actions[i] is Select
}

/// Whatever run of actions is applied to a well-formed document, the
/// document stays well formed: it keeps at least one line, no line holds a
/// `'\n'`, and cursor and anchor are valid.
pub proof fn lemma_apply_all_wf(doc: Document, actions: Seq<EditAction>)
    requires
        doc.wf(),
    ensures
        doc.apply_all(actions).wf(),
    decreases actions.len(),
{
    if actions.len() > 0 {
        lemma_apply_all_wf(doc, actions.drop_last());
        doc.apply_all(actions.drop_last()).lemma_apply_wf(actions.last());
    }
}

/// From any valid cursor, any run of movements and selections leaves the
/// cursor on an existing line, at a column on it or just behind its last
/// character, and leaves the text as it was.
pub proof fn lemma_movements_keep_cursor_valid(doc: Document, actions: Seq<EditAction>)
    requires
        doc.wf(),
        only_movements(actions),
    ensures
        doc.apply_all(actions).lines == doc.lines,
        0 <= doc.apply_all(actions).cursor.line < doc.lines.len(),
        0 <= doc.apply_all(actions).cursor.column
            <= doc.lines[doc.apply_all(actions).cursor.line].len(),
    decreases actions.len(),
{
    lemma_apply_all_wf(doc, actions);
    if actions.len() > 0 {
        assert(only_movements(actions.drop_last()));
        lemma_movements_keep_cursor_valid(doc, actions.drop_last());
    }
}

/// Loading a text and reading it back gives the text with its line
/// terminators collapsed to `'\n'`, and collapsing them again changes
/// nothing.
pub proof fn lemma_load_then_text_normalizes(s: Seq<char>)
    ensures
        Document::with_text(s).text() == normalize(s),
        normalize(normalize(s)) == normalize(s),
        Document::with_text(Document::with_text(s).text()) == Document::with_text(s),
{
    Document::lemma_with_text(s);
    lemma_normalize_idempotent(s);
}

/// With nothing selected, deleting backward right after inserting one
/// character gives back the lines and the cursor as they were. This holds
/// of every character, `'\n'` included.
pub proof fn lemma_delete_backward_undoes_insert(doc: Document, c: char)
    requires
        doc.wf(),
        !doc.has_selection(),
    ensures
        doc.apply(EditAction::InsertCharacter(c)).apply(EditAction::DeleteBackward).lines
            == doc.lines,
        doc.apply(EditAction::InsertCharacter(c)).apply(EditAction::DeleteBackward).cursor
            == doc.cursor,
{
    let inserted = doc.insert_char(c);
    let restored = inserted.delete_backward();
    assert(restored.lines =~~= doc.lines);
}

/// The run of actions types `s`: it is one `InsertCharacter` for each
/// character of `s`, in order.
pub open spec fn types(actions: Seq<EditAction>, s: Seq<char>) -> bool {
    &&& actions.len() == s.len()
    &&& forall|i: int|
        0 <= i < s.len() ==> #[trigger] actions[i] == EditAction::InsertCharacter(s[i])
}

/// Inserting a text is typing its characters one after the other.
pub proof fn lemma_insert_text_is_typing(doc: Document, s: Seq<char>, actions: Seq<EditAction>)
    requires
        types(actions, s),
    ensures
        doc.insert_text(s) == doc.apply_all(actions),
    decreases s.len(),
{
    if s.len() > 0 {
        assert(types(actions.drop_last(), s.drop_last()));
        lemma_insert_text_is_typing(doc, s.drop_last(), actions.drop_last());
        assert(actions.last() == EditAction::InsertCharacter(s.last()));
    }
}

/// The command completes a request: it is `FileOpened` or `FileSave`.
pub open spec fn completes(command: Command, ticket: u64) -> bool {
    match command {
        Command::FileOpened(t, _) => t == ticket,
        Command::FileSave(t, _) => t == ticket,
        _ => false,
    }
}

/// The command completes a request with success.
pub open spec fn succeeds(command: Command) -> bool {
    match command {
        Command::FileOpened(_, outcome) => outcome is Ok,
        Command::FileSave(_, outcome) => outcome is Ok,
        _ => false,
    }
}

/// Every command leaves a well-formed session well formed.
pub proof fn lemma_step_wf(session: Session, command: Command)
    requires
        session.wf(),
    ensures
        session.step(command).wf(),
{
    match command {
        Command::Edit(action) => session.buffer.lemma_apply_wf(action),
        Command::FileOpened(ticket, outcome) => {
            if let Ok((path, text)) = outcome {
                Document::lemma_with_text(text@);
            }
        },
        _ => {},
    }
}

/// The completion of any request but the one issued last changes nothing.
pub proof fn lemma_stale_completion_ignored(session: Session, command: Command, ticket: u64)
    requires
        completes(command, ticket),
        ticket != session.ticket,
    ensures
        session.step(command) == session,
{
}

/// Asking to open or to save issues a new ticket, so that the completion
/// of whatever was pending before is stale from then on.
pub proof fn lemma_request_outdates_pending(session: Session, command: Command, late: Command)
    requires
        command is Open || command is Save,
        completes(late, session.ticket),
    ensures
        session.step(command).ticket != session.ticket,
        session.step(command).step(late) == session.step(command),
{
}

/// A failed file operation is recorded as the last error and changes
/// nothing else: the document, its path and the dirty flag stay as they
/// were.
pub proof fn lemma_failure_keeps_document(session: Session, command: Command, error: Error)
    requires
        completes(command, session.ticket),
        command matches Command::FileOpened(_, outcome) ==> outcome == Err::<
            (String, String),
            Error,
        >(error),
        command matches Command::FileSave(_, outcome) ==> outcome == Err::<String, Error>(error),
    ensures
        session.step(command) == (Session { last_error: Some(error), ..session }),
{
}

/// The session is clean after a command only if the command completed the
/// pending request with success, or the session was clean before and the
/// command neither edited the document nor started a new one.
pub proof fn lemma_clean_only_after_success(session: Session, command: Command)
    requires
        !session.step(command).is_dirty,
    ensures
        (completes(command, session.ticket) && succeeds(command)) || (!session.is_dirty && !(
        command is New) && !(command matches Command::Edit(action) && action.edits())),
{
}

/// The session has a path after a command only if it had one before, or
/// the command completed the pending request with success.
pub proof fn lemma_path_only_after_success(session: Session, command: Command)
    requires
        session.step(command).file_path is Some,
    ensures
        session.file_path is Some || (completes(command, session.ticket) && succeeds(command)),
{
}

/// A command that changes the lines of the document leaves the session
/// dirty, unless it loaded a file.
pub proof fn lemma_changed_text_is_dirty(session: Session, command: Command)
    requires
        session.step(command).buffer.lines != session.buffer.lines,
        !(command is FileOpened),
    ensures
        session.step(command).is_dirty,
{
}

} // verus!
