//! Backup: copy a regular file to a new `.bak` destination.

use vstd::prelude::*;
use vstd::string::*;
use crate::error::ErrorKind;
use crate::guard::{has_backup_extension, is_backup_artifact, regular_file, FileKind};
use crate::path::{parent, SanitizedPath};
use crate::protocol::{
    fail, fail_unexpected, failure, unexpected_reply, Fault, Reply, ReplyView, Request,
    RequestView, Step, StepView,
};
use crate::text::{appended, view_of_str};
use crate::utils::{cwd_unavailable, resolved, sanitize_path};

verus! {

/// A backup in progress.
#[derive(Debug, PartialEq, Eq)]
pub enum Backup {
    /// The metadata of `source` is wanted.
    Inspect { source: SanitizedPath, dest: SanitizedPath },
    /// The guards passed; the directory `parent` of `dest` is to be created.
    MakeDirs { source: SanitizedPath, dest: SanitizedPath, parent: String },
    /// It is to be seen whether anything is at `dest` already.
    Probe { source: SanitizedPath, dest: SanitizedPath },
    /// Nothing was seen at `dest`; `source` is to be copied there.
    Copy { source: SanitizedPath, dest: SanitizedPath },
}

/// A `Backup` with its paths as sequences of characters.
pub enum BackupView {
    Inspect { source: Seq<char>, dest: Seq<char> },
    MakeDirs { source: Seq<char>, dest: Seq<char>, parent: Seq<char> },
    Probe { source: Seq<char>, dest: Seq<char> },
    Copy { source: Seq<char>, dest: Seq<char> },
}

impl View for Backup {
    type V = BackupView;

    open spec fn view(&self) -> BackupView {
        match self {
            Backup::Inspect { source, dest } => BackupView::Inspect { source: source@, dest: dest@ },
            Backup::MakeDirs { source, dest, parent } => BackupView::MakeDirs {
                source: source@,
                dest: dest@,
                parent: parent@,
            },
            Backup::Probe { source, dest } => BackupView::Probe { source: source@, dest: dest@ },
            Backup::Copy { source, dest } => BackupView::Copy { source: source@, dest: dest@ },
        }
    }
}

/// How a backup of `source` to `dest` begins, with `cwd` as the working
/// directory: both paths are sanitized, each on its own.
pub open spec fn backup_started(
    source: Seq<char>,
    dest: Seq<char>,
    cwd: Option<Seq<char>>,
) -> StepView<BackupView> {
    match (resolved(source, cwd), resolved(dest, cwd)) {
        (Some(s), Some(d)) => StepView::Perform(BackupView::Inspect { source: s, dest: d }),
        _ => StepView::Failed(cwd_unavailable()),
    }
}

/// The record of a backup that succeeded.
pub open spec fn backup_completed(source: Seq<char>, dest: Seq<char>) -> Seq<char> {
    "Backup completed: "@ + source + " \u{2192} "@ + dest
}

impl BackupView {
    /// The request that this state waits for.
    pub open spec fn request(self) -> RequestView {
        match self {
            BackupView::Inspect { source, .. } => RequestView::Inspect { path: source },
            BackupView::MakeDirs { parent, .. } => RequestView::MakeDirs { path: parent },
            BackupView::Probe { dest, .. } => RequestView::Probe { path: dest },
            BackupView::Copy { source, dest } => RequestView::CopyNew { from: source, to: dest },
        }
    }

    /// The step that `reply` leads to. The guards come in a fixed order: the
    /// source is a regular file, going by the entry itself, so that a symlink
    /// is refused even where it points at a regular file; the destination
    /// has the extension `bak`; its directory can be made; nothing is at the
    /// destination. The exclusive creation in the copy has the last word on
    /// that.
    pub open spec fn advance(self, reply: ReplyView) -> StepView<BackupView> {
        match self {
            BackupView::Inspect { source, dest } => match reply {
                ReplyView::Metadata(kind) => if kind != FileKind::Regular {
                    failure(ErrorKind::WrongFileType, "Source is not a regular file: "@ + source)
                } else if !is_backup_artifact(dest) {
                    failure(
                        ErrorKind::ExtensionMismatch,
                        "Destination must have a `.bak` extension: "@ + dest,
                    )
                } else {
                    match parent(dest) {
                        Some(dir) => StepView::Perform(
                            BackupView::MakeDirs { source, dest, parent: dir },
                        ),
                        None => StepView::Perform(BackupView::Probe { source, dest }),
                    }
                },
                ReplyView::Failed { detail, .. } => failure(ErrorKind::Metadata, detail),
                _ => unexpected_reply(),
            },
            BackupView::MakeDirs { source, dest, .. } => match reply {
                ReplyView::Done => StepView::Perform(BackupView::Probe { source, dest }),
                ReplyView::Failed { detail, .. } => failure(ErrorKind::IoFailure, detail),
                _ => unexpected_reply(),
            },
            BackupView::Probe { source, dest } => match reply {
                ReplyView::Exists(present) => if present {
                    failure(ErrorKind::AlreadyExists, "Backup file already exists: "@ + dest)
                } else {
                    StepView::Perform(BackupView::Copy { source, dest })
                },
                ReplyView::Failed { detail, .. } => failure(ErrorKind::IoFailure, detail),
                _ => unexpected_reply(),
            },
            BackupView::Copy { source, dest } => match reply {
                ReplyView::Done => StepView::Completed(backup_completed(source, dest)),
                ReplyView::Failed { fault, detail } => if fault == Fault::AlreadyExists {
                    failure(ErrorKind::AlreadyExists, detail)
                } else {
                    failure(ErrorKind::IoFailure, detail)
                },
                _ => unexpected_reply(),
            },
        }
    }
}

impl Backup {
    /// Begins the backup of `source` to `dest`. `cwd` is the working
    /// directory, `None` where it could not be determined.
    pub fn start(source: &str, dest: &str, cwd: Option<&str>) -> (step: Step<Backup>)
        ensures
            step@ == backup_started(source@, dest@, view_of_str(cwd)),
    {
        let source: SanitizedPath = match sanitize_path(source, cwd) {
            Ok(path) => path,
            Err(error) => {
                return Step::Failed(error);
            },
        };
        match sanitize_path(dest, cwd) {
            Ok(dest) => Step::Perform(Backup::Inspect { source, dest }),
            Err(error) => Step::Failed(error),
        }
    }

    /// The request to perform in this state.
    pub fn request(&self) -> (request: Request)
        ensures
            request@ == self@.request(),
    {
        match self {
            Backup::Inspect { source, .. } => Request::Inspect {
                path: source.as_str().to_owned(),
            },
            Backup::MakeDirs { parent, .. } => Request::MakeDirs { path: parent.clone() },
            Backup::Probe { dest, .. } => Request::Probe { path: dest.as_str().to_owned() },
            Backup::Copy { source, dest } => Request::CopyNew {
                from: source.as_str().to_owned(),
                to: dest.as_str().to_owned(),
            },
        }
    }

    /// Takes the reply to this state's request and decides how to go on.
    pub fn advance(self, reply: Reply) -> (step: Step<Backup>)
        ensures
            step@ == self@.advance(reply@),
    {
        match self {
            Backup::Inspect { source, dest } => match reply {
                Reply::Metadata(kind) => if !regular_file(kind) {
                    fail(
                        ErrorKind::WrongFileType,
                        appended("Source is not a regular file: ", source.as_str()),
                    )
                } else if !has_backup_extension(&dest) {
                    fail(
                        ErrorKind::ExtensionMismatch,
                        appended("Destination must have a `.bak` extension: ", dest.as_str()),
                    )
                } else {
                    match dest.parent() {
                        Some(parent) => Step::Perform(Backup::MakeDirs { source, dest, parent }),
                        None => Step::Perform(Backup::Probe { source, dest }),
                    }
                },
                Reply::Failed { detail, .. } => fail(ErrorKind::Metadata, detail),
                _ => fail_unexpected(),
            },
            Backup::MakeDirs { source, dest, .. } => match reply {
                Reply::Done => Step::Perform(Backup::Probe { source, dest }),
                Reply::Failed { detail, .. } => fail(ErrorKind::IoFailure, detail),
                _ => fail_unexpected(),
            },
            Backup::Probe { source, dest } => match reply {
                Reply::Exists(present) => if present {
                    fail(
                        ErrorKind::AlreadyExists,
                        appended("Backup file already exists: ", dest.as_str()),
                    )
                } else {
                    Step::Perform(Backup::Copy { source, dest })
                },
                Reply::Failed { detail, .. } => fail(ErrorKind::IoFailure, detail),
                _ => fail_unexpected(),
            },
            Backup::Copy { source, dest } => match reply {
                Reply::Done => {
                    let mut event: String = appended("Backup completed: ", source.as_str());
                    event.append(" \u{2192} ");
                    event.append(dest.as_str());
                    Step::Completed(event)
                },
                Reply::Failed { fault, detail } => match fault {
                    Fault::AlreadyExists => fail(ErrorKind::AlreadyExists, detail),
                    Fault::Other => fail(ErrorKind::IoFailure, detail),
                },
                _ => fail_unexpected(),
            },
        }
    }
}

} // verus!
