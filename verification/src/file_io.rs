//! The decisions of the file pipeline.
//!
//! Loading and saving talk to a file dialog and to the file system, which
//! this crate does not do itself. Whoever drives the pipeline asks the
//! dialog, reads or writes the file, and hands each answer to the function
//! here that decides what it means and what comes next.

use std::io::ErrorKind;
use vstd::prelude::*;
use vstd::string::StringExecFns;

verus! {

/// Why a file operation did not complete.
#[derive(Debug, PartialEq, Eq)]
pub enum Error {
    /// The file dialog was dismissed without a choice.
    DialogClosed,
    /// The file system refused, with the operating system's classification.
    IO(ErrorKind),
}

impl Clone for Error {
    fn clone(&self) -> (copy: Error)
        ensures
            copy == *self,
    {
        match self {
            Error::DialogClosed => Error::DialogClosed,
            Error::IO(kind) => Error::IO(kind.clone()),
        }
    }
}

/// What saving has to do next.
#[derive(Debug, PartialEq, Eq)]
pub enum SaveStep {
    /// No path is known yet: ask for a destination.
    ChooseDestination,
    /// Write the text to this path.
    Write(String),
}

/// The file that is loaded when the editor starts: `src/main.rs` below the
/// given directory.
pub fn default_file(manifest_dir: &str) -> (path: String)
    ensures
        path@ == manifest_dir@ + "/src/main.rs"@,
{
    let mut path = String::from_str(manifest_dir);
    path.append("/src/main.rs");
    path
}

/// What the answer of the open dialog means: the path to load, or
/// `DialogClosed` when the dialog was dismissed.
pub fn pick_file(choice: Option<String>) -> (picked: Result<String, Error>)
    ensures
        picked == match choice {
            Some(path) => Ok::<String, Error>(path),
            None => Err(Error::DialogClosed),
        },
{
    match choice {
        Some(path) => Ok(path),
        None => Err(Error::DialogClosed),
    }
}

/// What reading the file at `path` came to: the path together with the
/// contents, or `IO` with the classification of the failure.
pub fn load_file(path: String, contents: Result<String, ErrorKind>) -> (loaded: Result<
    (String, String),
    Error,
>)
    ensures
        loaded == match contents {
            Ok(text) => Ok::<(String, String), Error>((path, text)),
            Err(kind) => Err(Error::IO(kind)),
        },
{
    match contents {
        Ok(text) => Ok((path, text)),
        Err(kind) => Err(Error::IO(kind)),
    }
}

/// How saving begins: with a known path the text is written there, without
/// one a destination has to be chosen first.
pub fn save_file(path: Option<String>) -> (step: SaveStep)
    ensures
        step == match path {
            Some(path) => SaveStep::Write(path),
            None => SaveStep::ChooseDestination,
        },
{
    match path {
        Some(path) => SaveStep::Write(path),
        None => SaveStep::ChooseDestination,
    }
}

/// What the answer of the save dialog means: the path to write to, or
/// `DialogClosed` when the dialog was dismissed, in which case nothing is
/// written.
pub fn save_destination(choice: Option<String>) -> (destination: Result<String, Error>)
    ensures
        destination == match choice {
            Some(path) => Ok::<String, Error>(path),
            None => Err(Error::DialogClosed),
        },
{
    match choice {
        Some(path) => Ok(path),
        None => Err(Error::DialogClosed),
    }
}

/// What writing the file at `path` came to: the path, or `IO` with the
/// classification of the failure.
pub fn save_written(path: String, written: Result<(), ErrorKind>) -> (saved: Result<String, Error>)
    ensures
        saved == match written {
            Ok(_) => Ok::<String, Error>(path),
            Err(kind) => Err(Error::IO(kind)),
        },
{
    match written {
        Ok(_) => Ok(path),
        Err(kind) => Err(Error::IO(kind)),
    }
}

} // verus!
