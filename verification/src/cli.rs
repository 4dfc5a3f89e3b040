//! The command surface: which operation to run, and on which paths.

use vstd::prelude::*;
use vstd::string::*;
use crate::backup::{backup_started, Backup, BackupView};
use crate::delete::{delete_started, Delete, DeleteView};
use crate::protocol::{Reply, ReplyView, Request, RequestView, Step, StepView};
use crate::restore::{restore_started, Restore, RestoreView};
use crate::text::view_of_str;

verus! {

/// The parsed command line.
#[derive(Clone, Debug, PartialEq, Eq)]
pub struct Cli {
    /// Which operation to perform.
    pub command: Commands,
}

/// One of the three operations, with the paths as the caller wrote them.
#[derive(Clone, Debug, PartialEq, Eq)]
pub enum Commands {
    /// Copy the file `src` to the backup file `dest`, which must end in
    /// `.bak`.
    Backup { src: String, dest: String },
    /// Restore a file from its `.bak` file `backup` into the directory
    /// `target`.
    Restore { backup: String, target: String },
    /// Delete the regular file `file`.
    Delete { file: String },
}

/// A `Commands` with its paths as sequences of characters.
pub enum CommandsView {
    Backup { src: Seq<char>, dest: Seq<char> },
    Restore { backup: Seq<char>, target: Seq<char> },
    Delete { file: Seq<char> },
}

impl View for Commands {
    type V = CommandsView;

    open spec fn view(&self) -> CommandsView {
        match self {
            Commands::Backup { src, dest } => CommandsView::Backup { src: src@, dest: dest@ },
            Commands::Restore { backup, target } => CommandsView::Restore {
                backup: backup@,
                target: target@,
            },
            Commands::Delete { file } => CommandsView::Delete { file: file@ },
        }
    }
}

/// An operation in progress, whichever of the three it is.
#[derive(Debug, PartialEq, Eq)]
pub enum Operation {
    Backup(Backup),
    Restore(Restore),
    Delete(Delete),
}

/// An `Operation` over the view of its state.
pub enum OperationView {
    Backup(BackupView),
    Restore(RestoreView),
    Delete(DeleteView),
}

impl View for Operation {
    type V = OperationView;

    open spec fn view(&self) -> OperationView {
        match self {
            Operation::Backup(state) => OperationView::Backup(state@),
            Operation::Restore(state) => OperationView::Restore(state@),
            Operation::Delete(state) => OperationView::Delete(state@),
        }
    }
}

/// A step of a backup as a step of an operation.
pub open spec fn of_backup(step: StepView<BackupView>) -> StepView<OperationView> {
    match step {
        StepView::Perform(state) => StepView::Perform(OperationView::Backup(state)),
        StepView::Completed(event) => StepView::Completed(event),
        StepView::Failed(error) => StepView::Failed(error),
    }
}

/// A step of a restore as a step of an operation.
pub open spec fn of_restore(step: StepView<RestoreView>) -> StepView<OperationView> {
    match step {
        StepView::Perform(state) => StepView::Perform(OperationView::Restore(state)),
        StepView::Completed(event) => StepView::Completed(event),
        StepView::Failed(error) => StepView::Failed(error),
    }
}

/// A step of a delete as a step of an operation.
pub open spec fn of_delete(step: StepView<DeleteView>) -> StepView<OperationView> {
    match step {
        StepView::Perform(state) => StepView::Perform(OperationView::Delete(state)),
        StepView::Completed(event) => StepView::Completed(event),
        StepView::Failed(error) => StepView::Failed(error),
    }
}

/// How the operation that `command` names begins, with `cwd` as the working
/// directory.
pub open spec fn started(command: CommandsView, cwd: Option<Seq<char>>) -> StepView<
    OperationView,
> {
    match command {
        CommandsView::Backup { src, dest } => of_backup(backup_started(src, dest, cwd)),
        CommandsView::Restore { backup, target } => of_restore(
            restore_started(backup, target, cwd),
        ),
        CommandsView::Delete { file } => of_delete(delete_started(file, cwd)),
    }
}

impl OperationView {
    /// The request that this state waits for.
    pub open spec fn request(self) -> RequestView {
        match self {
            OperationView::Backup(state) => state.request(),
            OperationView::Restore(state) => state.request(),
            OperationView::Delete(state) => state.request(),
        }
    }

    /// The step that `reply` leads to.
    pub open spec fn advance(self, reply: ReplyView) -> StepView<OperationView> {
        match self {
            OperationView::Backup(state) => of_backup(state.advance(reply)),
            OperationView::Restore(state) => of_restore(state.advance(reply)),
            OperationView::Delete(state) => of_delete(state.advance(reply)),
        }
    }
}

fn lift_backup(step: Step<Backup>) -> (lifted: Step<Operation>)
    ensures
        lifted@ == of_backup(step@),
{
    match step {
        Step::Perform(state) => Step::Perform(Operation::Backup(state)),
        Step::Completed(event) => Step::Completed(event),
        Step::Failed(error) => Step::Failed(error),
    }
}

fn lift_restore(step: Step<Restore>) -> (lifted: Step<Operation>)
    ensures
        lifted@ == of_restore(step@),
{
    match step {
        Step::Perform(state) => Step::Perform(Operation::Restore(state)),
        Step::Completed(event) => Step::Completed(event),
        Step::Failed(error) => Step::Failed(error),
    }
}

fn lift_delete(step: Step<Delete>) -> (lifted: Step<Operation>)
    ensures
        lifted@ == of_delete(step@),
{
    match step {
        Step::Perform(state) => Step::Perform(Operation::Delete(state)),
        Step::Completed(event) => Step::Completed(event),
        Step::Failed(error) => Step::Failed(error),
    }
}

impl Operation {
    /// Begins the operation that `command` names. `cwd` is the working
    /// directory, `None` where it could not be determined.
    pub fn start(command: &Commands, cwd: Option<&str>) -> (step: Step<Operation>)
        ensures
            step@ == started(command@, view_of_str(cwd)),
    {
        match command {
            Commands::Backup { src, dest } => lift_backup(
                Backup::start(src.as_str(), dest.as_str(), cwd),
            ),
            Commands::Restore { backup, target } => lift_restore(
                Restore::start(backup.as_str(), target.as_str(), cwd),
            ),
            Commands::Delete { file } => lift_delete(Delete::start(file.as_str(), cwd)),
        }
    }

    /// The request to perform in this state.
    pub fn request(&self) -> (request: Request)
        ensures
            request@ == self@.request(),
    {
        match self {
            Operation::Backup(state) => state.request(),
            Operation::Restore(state) => state.request(),
            Operation::Delete(state) => state.request(),
        }
    }

    /// Takes the reply to this state's request and decides how to go on.
    pub fn advance(self, reply: Reply) -> (step: Step<Operation>)
        ensures
            step@ == self@.advance(reply@),
    {
        match self {
            Operation::Backup(state) => lift_backup(state.advance(reply)),
            Operation::Restore(state) => lift_restore(state.advance(reply)),
            Operation::Delete(state) => lift_delete(state.advance(reply)),
        }
    }
}

impl Cli {
    /// Begins the operation that the command line asks for.
    pub fn start(&self, cwd: Option<&str>) -> (step: Step<Operation>)
        ensures
            step@ == started(self.command@, view_of_str(cwd)),
    {
        Operation::start(&self.command, cwd)
    }
}

} // verus!
