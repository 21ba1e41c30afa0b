//! What the controllers ask of the file system, and what comes back: as plain values,
//! since the files themselves are for the caller to open.

use vstd::prelude::*;

verus! {

/// A file to create or truncate, and the text to put in it.
#[derive(Debug, Clone, PartialEq, Eq)]
pub struct FileWrite {
    pub path: String,
    pub contents: String,
}

/// A write as plain values.
pub struct FileWriteView {
    pub path: Seq<char>,
    pub contents: Seq<char>,
}

impl View for FileWrite {
    type V = FileWriteView;

    open spec fn view(&self) -> FileWriteView {
        FileWriteView { path: self.path@, contents: self.contents@ }
    }
}

/// Why a write did not happen, with the system's cause.
#[derive(Debug, Clone, PartialEq, Eq)]
pub enum WriteError {
    /// The file could not be created or opened for writing.
    Create(String),
    /// The file was opened, and the text could not be written.
    Write(String),
}

/// Why the first line of a file could not be had, with the system's cause.
#[derive(Debug, Clone, PartialEq, Eq)]
pub enum ReadError {
    /// The file could not be opened.
    Open(String),
    /// The file holds no line.
    Empty,
    /// The file was opened, and the line could not be read.
    Read(String),
}

} // verus!
