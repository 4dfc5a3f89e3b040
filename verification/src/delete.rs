//! Delete: remove a regular file that is no symlink.

use vstd::prelude::*;
use vstd::string::*;
use crate::error::ErrorKind;
use crate::guard::{not_symlink, regular_file, FileKind};
use crate::path::SanitizedPath;
use crate::protocol::{
    fail, fail_unexpected, failure, unexpected_reply, Reply, ReplyView, Request, RequestView,
    Step, StepView,
};
use crate::text::{appended, view_of_str};
use crate::utils::{cwd_unavailable, resolved, sanitize_path};

verus! {

/// A delete in progress.
#[derive(Debug, PartialEq, Eq)]
pub enum Delete {
    /// The metadata of `file` is wanted.
    Inspect { file: SanitizedPath },
    /// `file` passed the guards and is to be removed.
    Remove { file: SanitizedPath },
}

/// A `Delete` with its path as a sequence of characters.
pub enum DeleteView {
    Inspect { file: Seq<char> },
    Remove { file: Seq<char> },
}

impl View for Delete {
    type V = DeleteView;

    open spec fn view(&self) -> DeleteView {
        match self {
            Delete::Inspect { file } => DeleteView::Inspect { file: file@ },
            Delete::Remove { file } => DeleteView::Remove { file: file@ },
        }
    }
}

/// How a delete of `file` begins, with `cwd` as the working directory.
pub open spec fn delete_started(file: Seq<char>, cwd: Option<Seq<char>>) -> StepView<DeleteView> {
    match resolved(file, cwd) {
        Some(path) => StepView::Perform(DeleteView::Inspect { file: path }),
        None => StepView::Failed(cwd_unavailable()),
    }
}

impl DeleteView {
    /// The request that this state waits for.
    pub open spec fn request(self) -> RequestView {
        match self {
            DeleteView::Inspect { file } => RequestView::Inspect { path: file },
            DeleteView::Remove { file } => RequestView::Remove { path: file },
        }
    }

    /// The step that `reply` leads to. A symlink is refused before anything
    /// else is asked of the entry, so one that points at a regular file is
    /// refused too.
    pub open spec fn advance(self, reply: ReplyView) -> StepView<DeleteView> {
        match self {
            DeleteView::Inspect { file } => match reply {
                ReplyView::Metadata(kind) => if kind == FileKind::Symlink {
                    failure(ErrorKind::WrongFileType, "Refusing to delete symlink: "@ + file)
                } else if kind != FileKind::Regular {
                    failure(ErrorKind::WrongFileType, "Path is not a regular file: "@ + file)
                } else {
                    StepView::Perform(DeleteView::Remove { file })
                },
                ReplyView::Failed { detail, .. } => failure(ErrorKind::Metadata, detail),
                _ => unexpected_reply(),
            },
            DeleteView::Remove { file } => match reply {
                ReplyView::Done => StepView::Completed("Deleted file: "@ + file),
                ReplyView::Failed { detail, .. } => failure(ErrorKind::IoFailure, detail),
                _ => unexpected_reply(),
            },
        }
    }
}

impl Delete {
    /// Begins the delete of `file`. `cwd` is the working directory, `None`
    /// where it could not be determined.
    pub fn start(file: &str, cwd: Option<&str>) -> (step: Step<Delete>)
        ensures
            step@ == delete_started(file@, view_of_str(cwd)),
    {
        match sanitize_path(file, cwd) {
            Ok(path) => Step::Perform(Delete::Inspect { file: path }),
            Err(error) => Step::Failed(error),
        }
    }

    /// The request to perform in this state.
    pub fn request(&self) -> (request: Request)
        ensures
            request@ == self@.request(),
    {
        match self {
            Delete::Inspect { file } => Request::Inspect { path: file.as_str().to_owned() },
            Delete::Remove { file } => Request::Remove { path: file.as_str().to_owned() },
        }
    }

    /// Takes the reply to this state's request and decides how to go on.
    pub fn advance(self, reply: Reply) -> (step: Step<Delete>)
        ensures
            step@ == self@.advance(reply@),
    {
        match self {
            Delete::Inspect { file } => match reply {
                Reply::Metadata(kind) => if !not_symlink(kind) {
                    fail(
                        ErrorKind::WrongFileType,
                        appended("Refusing to delete symlink: ", file.as_str()),
                    )
                } else if !regular_file(kind) {
                    fail(
                        ErrorKind::WrongFileType,
                        appended("Path is not a regular file: ", file.as_str()),
                    )
                } else {
                    Step::Perform(Delete::Remove { file })
                },
                Reply::Failed { detail, .. } => fail(ErrorKind::Metadata, detail),
                _ => fail_unexpected(),
            },
            Delete::Remove { file } => match reply {
                Reply::Done => Step::Completed(appended("Deleted file: ", file.as_str())),
                Reply::Failed { detail, .. } => fail(ErrorKind::IoFailure, detail),
                _ => fail_unexpected(),
            },
        }
    }
}

} // verus!
