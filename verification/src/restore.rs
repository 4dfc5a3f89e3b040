//! Restore: copy a `.bak` file back under its original name, into a target
//! directory.

use vstd::prelude::*;
use vstd::string::*;
use crate::error::ErrorKind;
use crate::guard::{
    backup_suffix, has_backup_extension, is_backup_artifact, not_symlink, regular_file, FileKind,
};
use crate::path::{file_name, join_paths, joined, SanitizedPath};
use crate::protocol::{
    fail, fail_unexpected, failure, unexpected_reply, Fault, Reply, ReplyView, Request,
    RequestView, Step, StepView,
};
use crate::text::{appended, has_suffix, strip_suffix, view_of, view_of_str};
use crate::utils::{cwd_unavailable, resolved, sanitize_path};

verus! {

/// The name under which a backup is restored: the file name of the backup
/// without its trailing `.bak`. `None` where the path has no file name, or
/// one that does not end so.
pub open spec fn original_name(p: Seq<char>) -> Option<Seq<char>> {
    match file_name(p) {
        Some(name) => if has_suffix(name, backup_suffix()) {
            Some(name.subrange(0, name.len() - backup_suffix().len()))
        } else {
            None
        },
        None => None,
    }
}

/// What is said of a backup path that yields no original name.
pub open spec fn no_original_name(p: Seq<char>) -> Seq<char> {
    match file_name(p) {
        Some(name) => "Filename missing `.bak` suffix: "@ + name,
        None => "Invalid backup file name"@,
    }
}

/// The record of a restore that succeeded.
pub open spec fn restore_completed(backup: Seq<char>, dest: Seq<char>) -> Seq<char> {
    "Restore completed: "@ + backup + " \u{2192} "@ + dest
}

/// A restore in progress.
#[derive(Debug, PartialEq, Eq)]
pub enum Restore {
    /// The metadata of `backup` is wanted.
    Inspect { backup: SanitizedPath, target: SanitizedPath },
    /// The guards passed; the directory `target` is to be created. `dest` is
    /// the original name taken from `target`.
    MakeDirs { backup: SanitizedPath, target: SanitizedPath, dest: String },
    /// It is to be seen whether anything is at `dest` already.
    Probe { backup: SanitizedPath, dest: String },
    /// Nothing was seen at `dest`; `backup` is to be copied there.
    Copy { backup: SanitizedPath, dest: String },
}

/// A `Restore` with its paths as sequences of characters.
pub enum RestoreView {
    Inspect { backup: Seq<char>, target: Seq<char> },
    MakeDirs { backup: Seq<char>, target: Seq<char>, dest: Seq<char> },
    Probe { backup: Seq<char>, dest: Seq<char> },
    Copy { backup: Seq<char>, dest: Seq<char> },
}

impl View for Restore {
    type V = RestoreView;

    open spec fn view(&self) -> RestoreView {
        match self {
            Restore::Inspect { backup, target } => RestoreView::Inspect {
                backup: backup@,
                target: target@,
            },
            Restore::MakeDirs { backup, target, dest } => RestoreView::MakeDirs {
                backup: backup@,
                target: target@,
                dest: dest@,
            },
            Restore::Probe { backup, dest } => RestoreView::Probe { backup: backup@, dest: dest@ },
            Restore::Copy { backup, dest } => RestoreView::Copy { backup: backup@, dest: dest@ },
        }
    }
}

/// How a restore of `backup` into `target` begins, with `cwd` as the working
/// directory: both paths are sanitized, each on its own.
pub open spec fn restore_started(
    backup: Seq<char>,
    target: Seq<char>,
    cwd: Option<Seq<char>>,
) -> StepView<RestoreView> {
    match (resolved(backup, cwd), resolved(target, cwd)) {
        (Some(b), Some(t)) => StepView::Perform(RestoreView::Inspect { backup: b, target: t }),
        _ => StepView::Failed(cwd_unavailable()),
    }
}

impl RestoreView {
    /// The request that this state waits for.
    pub open spec fn request(self) -> RequestView {
        match self {
            RestoreView::Inspect { backup, .. } => RequestView::Inspect { path: backup },
            RestoreView::MakeDirs { target, .. } => RequestView::MakeDirs { path: target },
            RestoreView::Probe { dest, .. } => RequestView::Probe { path: dest },
            RestoreView::Copy { backup, dest } => RequestView::CopyNew { from: backup, to: dest },
        }
    }

    /// The step that `reply` leads to. The guards come in a fixed order: the
    /// backup is no symlink; it is a regular file; its extension is `bak`;
    /// its file name ends in `.bak`, which is taken off; the target directory
    /// can be made; nothing is at the destination. The exclusive creation in
    /// the copy has the last word on that.
    pub open spec fn advance(self, reply: ReplyView) -> StepView<RestoreView> {
        match self {
            RestoreView::Inspect { backup, target } => match reply {
                ReplyView::Metadata(kind) => if kind == FileKind::Symlink {
                    failure(ErrorKind::WrongFileType, "Refusing to restore symlink: "@ + backup)
                } else if kind != FileKind::Regular {
                    failure(ErrorKind::WrongFileType, "Backup path is not a file: "@ + backup)
                } else if !is_backup_artifact(backup) {
                    failure(
                        ErrorKind::ExtensionMismatch,
                        "Backup file does not have a `.bak` extension: "@ + backup,
                    )
                } else {
                    match original_name(backup) {
                        Some(name) => StepView::Perform(
                            RestoreView::MakeDirs { backup, target, dest: joined(target, name) },
                        ),
                        None => failure(ErrorKind::ExtensionMismatch, no_original_name(backup)),
                    }
                },
                ReplyView::Failed { detail, .. } => failure(ErrorKind::Metadata, detail),
                _ => unexpected_reply(),
            },
            RestoreView::MakeDirs { backup, dest, .. } => match reply {
                ReplyView::Done => StepView::Perform(RestoreView::Probe { backup, dest }),
                ReplyView::Failed { detail, .. } => failure(ErrorKind::IoFailure, detail),
                _ => unexpected_reply(),
            },
            RestoreView::Probe { backup, dest } => match reply {
                ReplyView::Exists(present) => if present {
                    failure(ErrorKind::AlreadyExists, "Destination file already exists: "@ + dest)
                } else {
                    StepView::Perform(RestoreView::Copy { backup, dest })
                },
                ReplyView::Failed { detail, .. } => failure(ErrorKind::IoFailure, detail),
                _ => unexpected_reply(),
            },
            RestoreView::Copy { backup, dest } => match reply {
                ReplyView::Done => StepView::Completed(restore_completed(backup, dest)),
                ReplyView::Failed { fault, detail } => if fault == Fault::AlreadyExists {
                    failure(ErrorKind::AlreadyExists, detail)
                } else {
                    failure(ErrorKind::IoFailure, detail)
                },
                _ => unexpected_reply(),
            },
        }
    }
}

/// Derives the name under which a backup is restored.
pub fn original_name_of(path: &SanitizedPath) -> (r: Option<String>)
    ensures
        view_of(r) == original_name(path@),
{
    match path.file_name() {
        Some(name) => match strip_suffix(name.as_str(), ".bak") {
            Some(stem) => Some(stem.to_owned()),
            None => None,
        },
        None => None,
    }
}

/// Says why a backup path yields no original name.
fn describe_missing_name(path: &SanitizedPath) -> (message: String)
    ensures
        message@ == no_original_name(path@),
{
    match path.file_name() {
        Some(name) => appended("Filename missing `.bak` suffix: ", name.as_str()),
        None => "Invalid backup file name".to_owned(),
    }
}

impl Restore {
    /// Begins the restore of `backup` into `target`. `cwd` is the working
    /// directory, `None` where it could not be determined.
    pub fn start(backup: &str, target: &str, cwd: Option<&str>) -> (step: Step<Restore>)
        ensures
            step@ == restore_started(backup@, target@, view_of_str(cwd)),
    {
        let backup: SanitizedPath = match sanitize_path(backup, cwd) {
            Ok(path) => path,
            Err(error) => {
                return Step::Failed(error);
            },
        };
        match sanitize_path(target, cwd) {
            Ok(target) => Step::Perform(Restore::Inspect { backup, target }),
            Err(error) => Step::Failed(error),
        }
    }

    /// The request to perform in this state.
    pub fn request(&self) -> (request: Request)
        ensures
            request@ == self@.request(),
    {
        match self {
            Restore::Inspect { backup, .. } => Request::Inspect {
                path: backup.as_str().to_owned(),
            },
            Restore::MakeDirs { target, .. } => Request::MakeDirs {
                path: target.as_str().to_owned(),
            },
            Restore::Probe { dest, .. } => Request::Probe { path: dest.clone() },
            Restore::Copy { backup, dest } => Request::CopyNew {
                from: backup.as_str().to_owned(),
                to: dest.clone(),
            },
        }
    }

    /// Takes the reply to this state's request and decides how to go on.
    pub fn advance(self, reply: Reply) -> (step: Step<Restore>)
        ensures
            step@ == self@.advance(reply@),
    {
        match self {
            Restore::Inspect { backup, target } => match reply {
                Reply::Metadata(kind) => if !not_symlink(kind) {
                    fail(
                        ErrorKind::WrongFileType,
                        appended("Refusing to restore symlink: ", backup.as_str()),
                    )
                } else if !regular_file(kind) {
                    fail(
                        ErrorKind::WrongFileType,
                        appended("Backup path is not a file: ", backup.as_str()),
                    )
                } else if !has_backup_extension(&backup) {
                    fail(
                        ErrorKind::ExtensionMismatch,
                        appended("Backup file does not have a `.bak` extension: ", backup.as_str()),
                    )
                } else {
                    match original_name_of(&backup) {
                        Some(name) => {
                            let dest: String = join_paths(target.as_str(), name.as_str());
                            Step::Perform(Restore::MakeDirs { backup, target, dest })
                        },
                        None => fail(ErrorKind::ExtensionMismatch, describe_missing_name(&backup)),
                    }
                },
                Reply::Failed { detail, .. } => fail(ErrorKind::Metadata, detail),
                _ => fail_unexpected(),
            },
            Restore::MakeDirs { backup, dest, .. } => match reply {
                Reply::Done => Step::Perform(Restore::Probe { backup, dest }),
                Reply::Failed { detail, .. } => fail(ErrorKind::IoFailure, detail),
                _ => fail_unexpected(),
            },
            Restore::Probe { backup, dest } => match reply {
                Reply::Exists(present) => if present {
                    fail(
                        ErrorKind::AlreadyExists,
                        appended("Destination file already exists: ", dest.as_str()),
                    )
                } else {
                    Step::Perform(Restore::Copy { backup, dest })
                },
                Reply::Failed { detail, .. } => fail(ErrorKind::IoFailure, detail),
                _ => fail_unexpected(),
            },
            Restore::Copy { backup, dest } => match reply {
                Reply::Done => {
                    let mut event: String = appended("Restore completed: ", backup.as_str());
                    event.append(" \u{2192} ");
                    event.append(dest.as_str());
                    Step::Completed(event)
                },
                Reply::Failed { fault, detail } => match fault {
                    Fault::AlreadyExists => fail(ErrorKind::AlreadyExists, detail),
                    Fault::Other => fail(ErrorKind::IoFailure, detail),
                },
                _ => fail_unexpected(),
            },
        }
    }
}

} // verus!
