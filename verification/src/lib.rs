//! The core of a text editor: a document buffer driven by cursor actions,
//! the decisions of the file pipeline that loads and saves it, and the
//! session that ties both to a dirty flag and a last error.

pub mod action;
pub mod buffer;
pub mod document;
pub mod file_io;
pub mod flat;
pub mod laws;
pub mod position;
pub mod session;
pub mod std_specs;
pub mod text;
