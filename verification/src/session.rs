//! The editor session: one document buffer, the path of its file, a dirty
//! flag and the last error, changed by one command at a time.
//!
//! Opening and saving take time. Each is asked for by a command, which
//! returns at once with a request for the file pipeline, and completed by a
//! later command that carries the outcome. Every request has a ticket, and
//! the session listens only to the completion of the request it issued
//! last: a completion with any other ticket is stale and changes nothing.

use crate::action::EditAction;
use crate::buffer::DocumentBuffer;
use crate::document::Document;
use crate::file_io::Error;
use crate::position::Position;
use vstd::prelude::*;

verus! {

/// What can be asked of a session.
#[derive(Debug)]
pub enum Command {
    /// Start a new, untitled document.
    New,
    /// Ask for a file to open.
    Open,
    /// Ask for the document to be saved.
    Save,
    /// Apply an action to the document.
    Edit(EditAction),
    /// The open request with this ticket has completed, with the path and
    /// the contents of the file or with the reason why there are none.
    FileOpened(u64, Result<(String, String), Error>),
    /// The save request with this ticket has completed, with the path that
    /// was written or with the reason why nothing was.
    FileSave(u64, Result<String, Error>),
}

/// What a session asks of the file pipeline.
#[derive(Debug)]
pub enum Request {
    /// Let the user pick a file, load it, and answer with `FileOpened`.
    PickFile(u64),
    /// Load the file at the given path, and answer with `FileOpened`.
    LoadFile(u64, String),
    /// Write the text to the path, or to a destination that the user picks
    /// when there is no path, and answer with `FileSave`. The text is the
    /// document as it was when saving was asked for.
    SaveFile(u64, Option<String>, String),
}

/// A read-only picture of a session, for whoever presents it.
#[derive(Debug)]
pub struct Snapshot {
    pub text: String,
    pub cursor_position: Position,
    pub file_path: Option<String>,
    pub is_dirty: bool,
    pub last_error: Option<Error>,
}

/// The state of the editor between two commands.
#[derive(Debug)]
pub struct EditorSession {
    buffer: DocumentBuffer,
    file_path: Option<String>,
    is_dirty: bool,
    last_error: Option<Error>,
    ticket: u64,
}

/// A session as contracts see it.
pub struct Session {
    pub buffer: Document,
    /// The path of the document's file; `None` until a load or a save sets it.
    pub file_path: Option<Seq<char>>,
    /// Whether the document may differ from its file.
    pub is_dirty: bool,
    /// The most recent failure of a file operation.
    pub last_error: Option<Error>,
    /// The ticket of the request that was issued last.
    pub ticket: u64,
}

/// The characters of a path, where there is one.
pub open spec fn path_view(path: Option<String>) -> Option<Seq<char>> {
    match path {
        Some(p) => Some(p@),
        None => None,
    }
}

/// The ticket that follows `ticket`. It always differs from `ticket`.
pub open spec fn next_ticket(ticket: u64) -> u64 {
    if ticket == u64::MAX {
        0
    } else {
        (ticket + 1) as u64
    }
}

impl Session {
    /// The invariant of a session: its document is well formed.
    pub open spec fn wf(self) -> bool {
        self.buffer.wf()
    }

    /// A session at its start: an empty, untitled document that counts as
    /// modified, no error, and one request issued.
    pub open spec fn initial() -> Session {
        Session {
            buffer: Document::empty(),
            file_path: None,
            is_dirty: true,
            last_error: None,
            ticket: 1,
        }
    }

    /// The session after a command.
    pub open spec fn step(self, command: Command) -> Session {
        match command {
            Command::New => Session {
                buffer: Document::empty(),
                file_path: None,
                is_dirty: true,
                ..self
            },
            Command::Open => Session { ticket: next_ticket(self.ticket), ..self },
            Command::Save => Session { ticket: next_ticket(self.ticket), ..self },
            Command::Edit(action) => Session {
                buffer: self.buffer.apply(action),
                is_dirty: self.is_dirty || action.edits(),
                last_error: None,
                ..self
            },
            Command::FileOpened(ticket, outcome) => if ticket != self.ticket {
                self
            } else {
                match outcome {
                    Ok((path, text)) => Session {
                        buffer: Document::with_text(text@),
                        file_path: Some(path@),
                        is_dirty: false,
                        last_error: None,
                        ..self
                    },
                    Err(error) => Session { last_error: Some(error), ..self },
                }
            },
            Command::FileSave(ticket, outcome) => if ticket != self.ticket {
                self
            } else {
                match outcome {
                    Ok(path) => Session {
                        file_path: if self.file_path is None {
                            Some(path@)
                        } else {
                            self.file_path
                        },
                        is_dirty: false,
                        last_error: None,
                        ..self
                    },
                    Err(error) => Session { last_error: Some(error), ..self },
                }
            },
        }
    }
}

impl View for EditorSession {
    type V = Session;

    closed spec fn view(&self) -> Session {
        Session {
            buffer: self.buffer@,
            file_path: path_view(self.file_path),
            is_dirty: self.is_dirty,
            last_error: self.last_error,
            ticket: self.ticket,
        }
    }
}

impl EditorSession {
    /// A session at its start, and the request to load the file at
    /// `default_path` into it.
    pub fn new(default_path: String) -> (start: (EditorSession, Request))
        ensures
            start.0@ == Session::initial(),
            start.0@.wf(),
            start.1 == (Request::LoadFile(1, default_path)),
    {
        let session = EditorSession {
            buffer: DocumentBuffer::new(),
            file_path: None,
            is_dirty: true,
            last_error: None,
            ticket: 1,
        };
        (session, Request::LoadFile(1, default_path))
    }

    /// The document buffer of the session.
    pub fn buffer(&self) -> (buffer: &DocumentBuffer)
        ensures
            buffer@ == self@.buffer,
    {
        &self.buffer
    }

    /// Whether the session still waits for the request with this ticket:
    /// it is the one issued last, so its completion will be listened to.
    pub fn expects(&self, ticket: u64) -> (waiting: bool)
        ensures
            waiting == (ticket == self@.ticket),
    {
        ticket == self.ticket
    }

    /// What a presenter may see of the session: the text and the cursor of
    /// the document, the path of its file, the dirty flag and the last
    /// error.
    pub fn snapshot(&self) -> (snapshot: Snapshot)
        ensures
            snapshot.text@ == self@.buffer.text(),
            snapshot.cursor_position@ == self@.buffer.cursor,
            path_view(snapshot.file_path) == self@.file_path,
            snapshot.is_dirty == self@.is_dirty,
            snapshot.last_error == self@.last_error,
    {
        Snapshot {
            text: self.buffer.text(),
            cursor_position: self.buffer.cursor_position(),
            file_path: match &self.file_path {
                Some(path) => Some(path.clone()),
                None => None,
            },
            is_dirty: self.is_dirty,
            last_error: match &self.last_error {
                Some(error) => Some(error.clone()),
                None => None,
            },
        }
    }

    /// Takes the next ticket.
    fn issue(&mut self) -> (ticket: u64)
        ensures
            ticket == next_ticket(old(self).ticket),
            *final(self) == (EditorSession { ticket, ..*old(self) }),
    {
        self.ticket = if self.ticket == u64::MAX {
            0
        } else {
            self.ticket + 1
        };
        self.ticket
    }

    /// Carries out one command and returns the request that it makes of
    /// the file pipeline, if any. No command is refused.
    pub fn update(&mut self, command: Command) -> (request: Option<Request>)
        requires
            old(self)@.wf(),
        ensures
            final(self)@ == old(self)@.step(command),
            final(self)@.wf(),
            match command {
                Command::Open => request matches Some(Request::PickFile(ticket)) && ticket
                    == final(self)@.ticket,
                Command::Save => request matches Some(Request::SaveFile(ticket, path, text))
                    && ticket == final(self)@.ticket && path_view(path) == old(self)@.file_path
                    && text@ == old(self)@.buffer.text(),
                _ => request is None,
            },
    {
        match command {
            Command::New => {
                self.buffer = DocumentBuffer::new();
                self.file_path = None;
                self.is_dirty = true;
                None
            },
            Command::Open => {
                let ticket = self.issue();
                Some(Request::PickFile(ticket))
            },
            Command::Save => {
                let ticket = self.issue();
                let path = match &self.file_path {
                    Some(p) => Some(p.clone()),
                    None => None,
                };
                Some(Request::SaveFile(ticket, path, self.buffer.text()))
            },
            Command::Edit(action) => {
                self.is_dirty = self.is_dirty || action.is_edit();
                self.buffer.apply(action);
                self.last_error = None;
                None
            },
            Command::FileOpened(ticket, outcome) => {
                if ticket == self.ticket {
                    match outcome {
                        Ok((path, text)) => {
                            self.buffer = DocumentBuffer::with_text(text.as_str());
                            self.file_path = Some(path);
                            self.is_dirty = false;
                            self.last_error = None;
                        },
                        Err(error) => {
                            self.last_error = Some(error);
                        },
                    }
                }
                None
            },
            Command::FileSave(ticket, outcome) => {
                if ticket == self.ticket {
                    match outcome {
                        Ok(path) => {
                            if self.file_path.is_none() {
                                self.file_path = Some(path);
                            }
                            self.is_dirty = false;
                            self.last_error = None;
                        },
                        Err(error) => {
                            self.last_error = Some(error);
                        },
                    }
                }
                None
            },
        }
    }
}

} // verus!
