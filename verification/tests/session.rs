use std::io::ErrorKind;
use text_editor::action::{Direction, EditAction};
use text_editor::file_io::Error;
use text_editor::position::Position;
use text_editor::session::{Command, EditorSession, Request};

fn started() -> EditorSession {
    let (session, _) = EditorSession::new(String::from("/project/src/main.rs"));
    session
}

fn typed(session: &mut EditorSession, text: &str) {
    for c in text.chars() {
        assert!(session.update(Command::Edit(EditAction::InsertCharacter(c))).is_none());
    }
}

fn ticket_of(request: Option<Request>) -> u64 {
    match request {
        Some(Request::PickFile(ticket)) => ticket,
        Some(Request::LoadFile(ticket, _)) => ticket,
        Some(Request::SaveFile(ticket, _, _)) => ticket,
        None => panic!("no request was made"),
    }
}

fn opened(session: &mut EditorSession, path: &str, text: &str) {
    let ticket = ticket_of(session.update(Command::Open));
    let outcome = Ok((String::from(path), String::from(text)));
    assert!(session.update(Command::FileOpened(ticket, outcome)).is_none());
}

#[test]
fn new_session_is_empty_dirty_and_asks_for_the_default_file() {
    let (session, request) = EditorSession::new(String::from("/project/src/main.rs"));
    let snapshot = session.snapshot();
    assert_eq!(snapshot.text, "");
    assert_eq!(snapshot.cursor_position, Position::new(0, 0));
    assert_eq!(snapshot.file_path, None);
    assert!(snapshot.is_dirty);
    assert_eq!(snapshot.last_error, None);
    match request {
        Request::LoadFile(ticket, path) => {
            assert_eq!(ticket, 1);
            assert_eq!(path, "/project/src/main.rs");
        }
        _ => panic!("the session did not ask for a file to be loaded"),
    }
}

#[test]
fn default_file_loads_into_the_new_session() {
    let (mut session, request) = EditorSession::new(String::from("/project/src/main.rs"));
    let (ticket, path) = match request {
        Request::LoadFile(ticket, path) => (ticket, path),
        _ => panic!("the session did not ask for a file to be loaded"),
    };
    let outcome = Ok((path, String::from("fn main() {}\n")));
    assert!(session.update(Command::FileOpened(ticket, outcome)).is_none());
    let snapshot = session.snapshot();
    assert_eq!(snapshot.text, "fn main() {}\n");
    assert_eq!(snapshot.file_path, Some(String::from("/project/src/main.rs")));
    assert!(!snapshot.is_dirty);
}

#[test]
fn open_cancelled_records_dialog_closed() {
    let mut session = started();
    opened(&mut session, "/tmp/a.txt", "kept");
    let before = session.snapshot();
    assert!(!before.is_dirty);
    let ticket = ticket_of(session.update(Command::Open));
    let outcome = Err(Error::DialogClosed);
    assert!(session.update(Command::FileOpened(ticket, outcome)).is_none());
    let after = session.snapshot();
    assert_eq!(after.last_error, Some(Error::DialogClosed));
    assert_eq!(after.text, before.text);
    assert_eq!(after.cursor_position, before.cursor_position);
    assert_eq!(after.is_dirty, before.is_dirty);
    assert_eq!(after.file_path, before.file_path);
}

#[test]
fn open_cancelled_keeps_a_dirty_document_dirty() {
    let mut session = started();
    typed(&mut session, "draft");
    let ticket = ticket_of(session.update(Command::Open));
    session.update(Command::FileOpened(ticket, Err(Error::DialogClosed)));
    let after = session.snapshot();
    assert_eq!(after.last_error, Some(Error::DialogClosed));
    assert_eq!(after.text, "draft");
    assert!(after.is_dirty);
}

#[test]
fn save_without_path_takes_the_resolved_path() {
    let mut session = started();
    typed(&mut session, "text");
    let request = session.update(Command::Save);
    let ticket = match request {
        Some(Request::SaveFile(ticket, path, text)) => {
            assert_eq!(path, None);
            assert_eq!(text, "text");
            ticket
        }
        _ => panic!("the session did not ask for the document to be saved"),
    };
    let outcome = Ok(String::from("/tmp/x.txt"));
    assert!(session.update(Command::FileSave(ticket, outcome)).is_none());
    let after = session.snapshot();
    assert_eq!(after.file_path, Some(String::from("/tmp/x.txt")));
    assert!(!after.is_dirty);
    assert_eq!(after.text, "text");
}

#[test]
fn save_with_path_asks_to_write_there() {
    let mut session = started();
    opened(&mut session, "/tmp/a.txt", "one\r\ntwo");
    typed(&mut session, "zero ");
    match session.update(Command::Save) {
        Some(Request::SaveFile(_, path, text)) => {
            assert_eq!(path, Some(String::from("/tmp/a.txt")));
            assert_eq!(text, "zero one\ntwo");
        }
        _ => panic!("the session did not ask for the document to be saved"),
    }
}

#[test]
fn save_keeps_a_path_that_is_already_set() {
    let mut session = started();
    opened(&mut session, "/tmp/a.txt", "one");
    let ticket = ticket_of(session.update(Command::Save));
    session.update(Command::FileSave(ticket, Ok(String::from("/tmp/other.txt"))));
    let after = session.snapshot();
    assert_eq!(after.file_path, Some(String::from("/tmp/a.txt")));
    assert!(!after.is_dirty);
}

#[test]
fn save_request_holds_the_text_of_its_moment() {
    let mut session = started();
    typed(&mut session, "early");
    let request = session.update(Command::Save);
    typed(&mut session, " and late");
    match request {
        Some(Request::SaveFile(_, _, text)) => assert_eq!(text, "early"),
        _ => panic!("the session did not ask for the document to be saved"),
    }
    assert_eq!(session.snapshot().text, "early and late");
}

#[test]
fn failed_save_leaves_the_document_dirty() {
    let mut session = started();
    typed(&mut session, "text");
    let ticket = ticket_of(session.update(Command::Save));
    let outcome = Err(Error::IO(ErrorKind::PermissionDenied));
    session.update(Command::FileSave(ticket, outcome));
    let after = session.snapshot();
    assert_eq!(after.last_error, Some(Error::IO(ErrorKind::PermissionDenied)));
    assert!(after.is_dirty);
    assert_eq!(after.file_path, None);
    assert_eq!(after.text, "text");
}

#[test]
fn cancelled_save_records_dialog_closed() {
    let mut session = started();
    typed(&mut session, "text");
    let ticket = ticket_of(session.update(Command::Save));
    session.update(Command::FileSave(ticket, Err(Error::DialogClosed)));
    let after = session.snapshot();
    assert_eq!(after.last_error, Some(Error::DialogClosed));
    assert!(after.is_dirty);
    assert_eq!(after.file_path, None);
}

#[test]
fn failed_load_leaves_the_buffer_untouched() {
    let mut session = started();
    typed(&mut session, "mine");
    let ticket = ticket_of(session.update(Command::Open));
    let outcome = Err(Error::IO(ErrorKind::NotFound));
    session.update(Command::FileOpened(ticket, outcome));
    let after = session.snapshot();
    assert_eq!(after.last_error, Some(Error::IO(ErrorKind::NotFound)));
    assert_eq!(after.text, "mine");
    assert_eq!(after.cursor_position, Position::new(0, 4));
    assert!(after.is_dirty);
    assert_eq!(after.file_path, None);
}

#[test]
fn opened_file_replaces_the_buffer() {
    let mut session = started();
    typed(&mut session, "old text");
    opened(&mut session, "/tmp/new.txt", "new\r\ntext\n");
    let after = session.snapshot();
    assert_eq!(after.text, "new\ntext\n");
    assert_eq!(after.cursor_position, Position::new(0, 0));
    assert_eq!(after.file_path, Some(String::from("/tmp/new.txt")));
    assert!(!after.is_dirty);
    assert_eq!(after.last_error, None);
    assert_eq!(session.buffer().line_count(), 3);
    assert_eq!(session.buffer().line(1), Some(String::from("text")));
}

#[test]
fn success_overwrites_the_last_error() {
    let mut session = started();
    let ticket = ticket_of(session.update(Command::Open));
    session.update(Command::FileOpened(ticket, Err(Error::IO(ErrorKind::NotFound))));
    assert_eq!(session.snapshot().last_error, Some(Error::IO(ErrorKind::NotFound)));
    opened(&mut session, "/tmp/a.txt", "text");
    assert_eq!(session.snapshot().last_error, None);

    let ticket = ticket_of(session.update(Command::Save));
    session.update(Command::FileSave(ticket, Err(Error::DialogClosed)));
    assert_eq!(session.snapshot().last_error, Some(Error::DialogClosed));
    let ticket = ticket_of(session.update(Command::Save));
    session.update(Command::FileSave(ticket, Ok(String::from("/tmp/a.txt"))));
    assert_eq!(session.snapshot().last_error, None);
}

#[test]
fn newer_failure_overwrites_the_last_error() {
    let mut session = started();
    let ticket = ticket_of(session.update(Command::Open));
    session.update(Command::FileOpened(ticket, Err(Error::DialogClosed)));
    let ticket = ticket_of(session.update(Command::Save));
    session.update(Command::FileSave(ticket, Err(Error::IO(ErrorKind::NotFound))));
    assert_eq!(session.snapshot().last_error, Some(Error::IO(ErrorKind::NotFound)));
}

#[test]
fn edit_marks_dirty_and_clears_the_error() {
    let mut session = started();
    opened(&mut session, "/tmp/a.txt", "text");
    let ticket = ticket_of(session.update(Command::Open));
    session.update(Command::FileOpened(ticket, Err(Error::DialogClosed)));
    assert!(!session.snapshot().is_dirty);
    assert_eq!(session.snapshot().last_error, Some(Error::DialogClosed));
    session.update(Command::Edit(EditAction::DeleteForward));
    let after = session.snapshot();
    assert!(after.is_dirty);
    assert_eq!(after.last_error, None);
    assert_eq!(after.text, "ext");
}

#[test]
fn movement_clears_the_error_and_keeps_the_document_clean() {
    let mut session = started();
    opened(&mut session, "/tmp/a.txt", "text");
    let ticket = ticket_of(session.update(Command::Open));
    session.update(Command::FileOpened(ticket, Err(Error::DialogClosed)));
    session.update(Command::Edit(EditAction::MoveCursor(Direction::LineEnd)));
    session.update(Command::Edit(EditAction::Select(Direction::Left)));
    session.update(Command::Edit(EditAction::SelectAll));
    let after = session.snapshot();
    assert!(!after.is_dirty);
    assert_eq!(after.last_error, None);
    assert_eq!(after.text, "text");
    assert_eq!(after.cursor_position, Position::new(0, 4));
}

#[test]
fn edit_that_changes_nothing_still_marks_dirty() {
    let mut session = started();
    opened(&mut session, "/tmp/a.txt", "text");
    session.update(Command::Edit(EditAction::DeleteBackward));
    let after = session.snapshot();
    assert_eq!(after.text, "text");
    assert!(after.is_dirty);
}

#[test]
fn dirty_stays_dirty_under_movement() {
    let mut session = started();
    typed(&mut session, "a");
    session.update(Command::Edit(EditAction::MoveCursor(Direction::Left)));
    assert!(session.snapshot().is_dirty);
}

#[test]
fn new_starts_an_untitled_dirty_document() {
    let mut session = started();
    opened(&mut session, "/tmp/a.txt", "text");
    assert!(session.update(Command::New).is_none());
    let after = session.snapshot();
    assert_eq!(after.text, "");
    assert_eq!(after.cursor_position, Position::new(0, 0));
    assert_eq!(after.file_path, None);
    assert!(after.is_dirty);
    assert_eq!(session.buffer().line_count(), 1);
}

#[test]
fn new_keeps_the_last_error() {
    let mut session = started();
    let ticket = ticket_of(session.update(Command::Open));
    session.update(Command::FileOpened(ticket, Err(Error::DialogClosed)));
    session.update(Command::New);
    assert_eq!(session.snapshot().last_error, Some(Error::DialogClosed));
}

#[test]
fn open_and_save_only_make_requests() {
    let mut session = started();
    typed(&mut session, "text");
    let before = session.snapshot();
    assert!(matches!(session.update(Command::Open), Some(Request::PickFile(_))));
    assert!(matches!(session.update(Command::Save), Some(Request::SaveFile(_, _, _))));
    let after = session.snapshot();
    assert_eq!(after.text, before.text);
    assert_eq!(after.cursor_position, before.cursor_position);
    assert_eq!(after.file_path, before.file_path);
    assert_eq!(after.is_dirty, before.is_dirty);
    assert_eq!(after.last_error, before.last_error);
}

#[test]
fn tickets_count_up_from_the_first_request() {
    let mut session = started();
    assert_eq!(ticket_of(session.update(Command::Open)), 2);
    assert_eq!(ticket_of(session.update(Command::Save)), 3);
    assert_eq!(ticket_of(session.update(Command::Open)), 4);
}

#[test]
fn stale_completion_changes_nothing() {
    let mut session = started();
    typed(&mut session, "mine");
    let first = ticket_of(session.update(Command::Open));
    let second = ticket_of(session.update(Command::Open));
    assert_ne!(first, second);
    let outcome = Ok((String::from("/tmp/old.txt"), String::from("old")));
    session.update(Command::FileOpened(first, outcome));
    let after = session.snapshot();
    assert_eq!(after.text, "mine");
    assert_eq!(after.file_path, None);
    assert!(after.is_dirty);
    assert_eq!(after.last_error, None);

    let outcome = Ok((String::from("/tmp/new.txt"), String::from("new")));
    session.update(Command::FileOpened(second, outcome));
    assert_eq!(session.snapshot().text, "new");

    session.update(Command::FileSave(first, Err(Error::DialogClosed)));
    session.update(Command::FileOpened(first, Err(Error::DialogClosed)));
    let after = session.snapshot();
    assert_eq!(after.last_error, None);
    assert_eq!(after.text, "new");
    assert_eq!(after.file_path, Some(String::from("/tmp/new.txt")));
}

#[test]
fn older_completion_cannot_replace_a_newer_load() {
    let mut session = started();
    let save = ticket_of(session.update(Command::Save));
    opened(&mut session, "/tmp/new.txt", "new");
    session.update(Command::FileSave(save, Ok(String::from("/tmp/x.txt"))));
    let after = session.snapshot();
    assert_eq!(after.text, "new");
    assert_eq!(after.file_path, Some(String::from("/tmp/new.txt")));
}

#[test]
fn snapshot_shows_the_cursor() {
    let mut session = started();
    typed(&mut session, "ab\ncd");
    assert_eq!(session.snapshot().cursor_position, Position::new(1, 2));
    session.update(Command::Edit(EditAction::MoveCursor(Direction::Up)));
    assert_eq!(session.snapshot().cursor_position, Position::new(0, 2));
    assert_eq!(session.buffer().cursor_position(), Position::new(0, 2));
}
