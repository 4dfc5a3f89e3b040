//! What an operation asks of the file system, and what it is told.
//!
//! An operation never performs a request itself. Whoever drives it performs
//! the request that the operation names, and hands back the reply.

use vstd::prelude::*;
use vstd::string::*;
use crate::error::{ErrorKind, OpError, OpErrorView};
use crate::guard::FileKind;

verus! {

/// A request to the file system.
#[derive(Clone, Debug, PartialEq, Eq)]
pub enum Request {
    /// Read the metadata of the entry at `path`, without following a symlink
    /// there.
    Inspect { path: String },
    /// Create the directory `path` and every missing ancestor of it.
    MakeDirs { path: String },
    /// Tell whether `path` leads to an existing entry, following symlinks.
    Probe { path: String },
    /// Create `to`, failing if it is already there, and copy every byte of
    /// `from` into it.
    CopyNew { from: String, to: String },
    /// Remove the file at `path`.
    Remove { path: String },
}

/// A `Request` with its paths as sequences of characters.
pub enum RequestView {
    Inspect { path: Seq<char> },
    MakeDirs { path: Seq<char> },
    Probe { path: Seq<char> },
    CopyNew { from: Seq<char>, to: Seq<char> },
    Remove { path: Seq<char> },
}

impl View for Request {
    type V = RequestView;

    open spec fn view(&self) -> RequestView {
        match self {
            Request::Inspect { path } => RequestView::Inspect { path: path@ },
            Request::MakeDirs { path } => RequestView::MakeDirs { path: path@ },
            Request::Probe { path } => RequestView::Probe { path: path@ },
            Request::CopyNew { from, to } => RequestView::CopyNew { from: from@, to: to@ },
            Request::Remove { path } => RequestView::Remove { path: path@ },
        }
    }
}

/// Why a request failed, as far as an operation tells failures apart.
#[derive(Clone, Copy, Debug, PartialEq, Eq, Structural)]
pub enum Fault {
    /// The file to create was already there.
    AlreadyExists,
    /// Anything else.
    Other,
}

/// The reply to a request.
#[derive(Clone, Debug, PartialEq, Eq)]
pub enum Reply {
    /// To `Inspect`: what the entry is.
    Metadata(FileKind),
    /// To `Probe`: whether something is there.
    Exists(bool),
    /// To `MakeDirs`, `CopyNew` and `Remove`: it is done.
    Done,
    /// To any request: it failed, with the system's own words in `detail`.
    Failed { fault: Fault, detail: String },
}

/// A `Reply` with its text as a sequence of characters.
pub enum ReplyView {
    Metadata(FileKind),
    Exists(bool),
    Done,
    Failed { fault: Fault, detail: Seq<char> },
}

impl View for Reply {
    type V = ReplyView;

    open spec fn view(&self) -> ReplyView {
        match self {
            Reply::Metadata(kind) => ReplyView::Metadata(*kind),
            Reply::Exists(present) => ReplyView::Exists(*present),
            Reply::Done => ReplyView::Done,
            Reply::Failed { fault, detail } => ReplyView::Failed { fault: *fault, detail: detail@ },
        }
    }
}

/// Where an operation stands after a step.
#[derive(Debug, PartialEq, Eq)]
pub enum Step<S> {
    /// The request of this state is to be performed next.
    Perform(S),
    /// The operation succeeded; the text records what was done.
    Completed(String),
    /// The operation failed. Nothing further is requested.
    Failed(OpError),
}

/// A `Step` over the view of its state.
pub enum StepView<V> {
    Perform(V),
    Completed(Seq<char>),
    Failed(OpErrorView),
}

impl<S: View> View for Step<S> {
    type V = StepView<S::V>;

    open spec fn view(&self) -> StepView<S::V> {
        match self {
            Step::Perform(state) => StepView::Perform(state@),
            Step::Completed(event) => StepView::Completed(event@),
            Step::Failed(error) => StepView::Failed(error@),
        }
    }
}

/// A failure of the given kind with the given message.
pub open spec fn failure<V>(kind: ErrorKind, message: Seq<char>) -> StepView<V> {
    StepView::Failed(OpErrorView { kind, message })
}

/// The failure on a reply that does not answer the request made.
pub open spec fn unexpected_reply<V>() -> StepView<V> {
    failure(ErrorKind::IoFailure, "Unexpected reply to a file-system request"@)
}

/// Fails with the given kind and message.
pub fn fail<S: View>(kind: ErrorKind, message: String) -> (step: Step<S>)
    ensures
        step@ == failure::<S::V>(kind, message@),
{
    Step::Failed(OpError::new(kind, message))
}

/// Fails on a reply that does not answer the request made.
pub fn fail_unexpected<S: View>() -> (step: Step<S>)
    ensures
        step@ == unexpected_reply::<S::V>(),
{
    fail(ErrorKind::IoFailure, "Unexpected reply to a file-system request".to_owned())
}

} // verus!
