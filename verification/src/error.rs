//! The typed failure that every operation reports.

use vstd::prelude::*;

verus! {

/// What went wrong, by meaning.
#[derive(Clone, Copy, Debug, PartialEq, Eq, Structural)]
pub enum ErrorKind {
    /// The working directory was needed to anchor a relative path and could
    /// not be had.
    PathResolution,
    /// The path does not exist, or its metadata could not be read.
    Metadata,
    /// The path is a directory, a symlink where none is allowed, or another
    /// entry that is no regular file.
    WrongFileType,
    /// The path lacks the `.bak` extension where one is required.
    ExtensionMismatch,
    /// The destination is already there.
    AlreadyExists,
    /// Creating directories, copying or removing failed underneath.
    IoFailure,
}

/// A failure: its kind, and a message for the person at the terminal.
#[derive(Clone, Debug, PartialEq, Eq)]
pub struct OpError {
    pub kind: ErrorKind,
    pub message: String,
}

/// An `OpError` with its message as a sequence of characters.
pub struct OpErrorView {
    pub kind: ErrorKind,
    pub message: Seq<char>,
}

impl View for OpError {
    type V = OpErrorView;

    open spec fn view(&self) -> OpErrorView {
        OpErrorView { kind: self.kind, message: self.message@ }
    }
}

impl OpError {
    /// A failure of the given kind with the given message.
    pub fn new(kind: ErrorKind, message: String) -> (e: OpError)
        ensures
            e@ == (OpErrorView { kind, message: message@ }),
    {
        OpError { kind, message }
    }

    /// The kind of the failure.
    pub fn kind(&self) -> (k: ErrorKind)
        ensures
            k == self@.kind,
    {
        self.kind
    }

    /// The message of the failure.
    pub fn message(&self) -> (m: &str)
        ensures
            m@ == self@.message,
    {
        self.message.as_str()
    }
}

} // verus!
