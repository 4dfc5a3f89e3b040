//! What holds of every operation, whatever the file system answers.

use vstd::prelude::*;
use vstd::string::*;
use crate::backup::{backup_completed, BackupView};
use crate::cli::{started, CommandsView, OperationView};
use crate::delete::DeleteView;
use crate::error::ErrorKind;
use crate::guard::{backup_suffix, is_backup_artifact, FileKind};
use crate::path::{
    extension, file_name, is_canonical, is_normal_name, is_segment, joined,
    lemma_file_name_is_normal, parent,
};
use crate::protocol::{failure, Fault, ReplyView, RequestView, StepView};
use crate::restore::{original_name, restore_completed, RestoreView};
use crate::text::{last_index_of, lemma_last_index_is, lemma_last_index_of};
use crate::utils::resolved;

verus! {

/// The step is a failure of the given kind.
pub open spec fn fails_with<V>(step: StepView<V>, kind: ErrorKind) -> bool {
    step matches StepView::Failed(error) && error.kind == kind
}

/// Where an operation that stood at `step` stands once the replies have been
/// handed in, in order. A step that completed or failed stays as it is: no
/// reply moves it.
pub open spec fn after(step: StepView<OperationView>, replies: Seq<ReplyView>) -> StepView<
    OperationView,
>
    decreases replies.len(),
{
    if replies.len() == 0 {
        step
    } else {
        match after(step, replies.drop_last()) {
            StepView::Perform(state) => state.advance(replies.last()),
            ended => ended,
        }
    }
}

/// Every operation begins by asking for the metadata of a path: nothing is
/// created, copied or removed before a guard has seen the entry.
pub proof fn lemma_begins_with_inspection(command: CommandsView, cwd: Option<Seq<char>>)
    ensures
        started(command, cwd) matches StepView::Perform(state) ==> state.request() is Inspect,
        !(started(command, cwd) is Completed),
{
}

/// No overwrite. A copy is requested only as the next step after a probe of
/// its destination that found nothing there; a probe that finds something
/// ends the operation with `AlreadyExists`; and so does a copy whose
/// exclusive creation finds the destination taken in the meantime. No other
/// request writes to a file.
pub proof fn lemma_never_overwrites(state: OperationView, reply: ReplyView)
    ensures
        state.advance(reply) matches StepView::Perform(next) ==> (next.request() matches
        RequestView::CopyNew { to, .. } ==> {
            &&& state.request() == (RequestView::Probe { path: to })
            &&& reply == ReplyView::Exists(false)
        }),
        state.request() is Probe && reply == ReplyView::Exists(true) ==> fails_with(
            state.advance(reply),
            ErrorKind::AlreadyExists,
        ),
        state.request() is CopyNew && (reply matches ReplyView::Failed { fault, .. } && fault
            == Fault::AlreadyExists) ==> fails_with(
            state.advance(reply),
            ErrorKind::AlreadyExists,
        ),
{
}

/// No overwrite, over whole runs. Whatever the file system answers and
/// however long the run, an operation stands at a copy only if the reply
/// just before was that of a probe of the copy's destination, and said that
/// nothing was there.
pub proof fn lemma_run_never_overwrites(
    command: CommandsView,
    cwd: Option<Seq<char>>,
    replies: Seq<ReplyView>,
)
    ensures
        after(started(command, cwd), replies) matches StepView::Perform(state) ==> (
        state.request() matches RequestView::CopyNew { to, .. } ==> {
            &&& replies.len() > 0
            &&& replies.last() == ReplyView::Exists(false)
            &&& after(started(command, cwd), replies.drop_last()) matches StepView::Perform(before)
                && before.request() == (RequestView::Probe { path: to })
        }),
{
    if replies.len() == 0 {
        lemma_begins_with_inspection(command, cwd);
    } else {
        match after(started(command, cwd), replies.drop_last()) {
            StepView::Perform(before) => {
                lemma_never_overwrites(before, replies.last());
            },
            _ => {},
        }
    }
}

/// How many requests an operation in this state may still make, this one
/// included.
pub open spec fn requests_left(state: OperationView) -> nat {
    match state.request() {
        RequestView::Inspect { .. } => 4,
        RequestView::MakeDirs { .. } => 3,
        RequestView::Probe { .. } => 2,
        RequestView::CopyNew { .. } => 1,
        RequestView::Remove { .. } => 1,
    }
}

/// Each reply brings an operation nearer to its end: there is no retry and
/// no way back to an earlier request.
pub proof fn lemma_advance_makes_progress(state: OperationView, reply: ReplyView)
    ensures
        state.advance(reply) matches StepView::Perform(next) ==> requests_left(next)
            < requests_left(state),
{
}

/// An operation ends, completed or failed, with its fourth reply at the
/// latest.
pub proof fn lemma_ends_within_four_replies(
    command: CommandsView,
    cwd: Option<Seq<char>>,
    replies: Seq<ReplyView>,
)
    ensures
        after(started(command, cwd), replies) matches StepView::Perform(state) ==> requests_left(
            state,
        ) + replies.len() <= 4,
        replies.len() >= 4 ==> !(after(started(command, cwd), replies) is Perform),
    decreases replies.len(),
{
    if replies.len() > 0 {
        lemma_ends_within_four_replies(command, cwd, replies.drop_last());
        match after(started(command, cwd), replies.drop_last()) {
            StepView::Perform(before) => {
                lemma_advance_makes_progress(before, replies.last());
            },
            _ => {},
        }
    }
}

/// Only a regular file is acted on. An operation goes on past its inspection
/// only where the entry itself is a regular file: a symlink, a directory or
/// any other entry ends it with `WrongFileType`, and nothing is requested
/// after that.
pub proof fn lemma_acts_on_regular_files_only(state: OperationView, reply: ReplyView)
    requires
        state.request() is Inspect,
    ensures
        state.advance(reply) is Perform ==> reply == ReplyView::Metadata(FileKind::Regular),
        reply matches ReplyView::Metadata(kind) && kind != FileKind::Regular ==> fails_with(
            state.advance(reply),
            ErrorKind::WrongFileType,
        ),
        !(state.advance(reply) is Completed),
{
}

/// Symlink rejection. A delete or a restore whose path is a symlink fails,
/// and says that it refuses the symlink, whatever the symlink points at.
pub proof fn lemma_symlink_refused(file: Seq<char>, backup: Seq<char>, target: Seq<char>)
    ensures
        (DeleteView::Inspect { file }).advance(ReplyView::Metadata(FileKind::Symlink)) == failure::<
            DeleteView,
        >(ErrorKind::WrongFileType, "Refusing to delete symlink: "@ + file),
        (RestoreView::Inspect { backup, target }).advance(ReplyView::Metadata(FileKind::Symlink))
            == failure::<RestoreView>(
            ErrorKind::WrongFileType,
            "Refusing to restore symlink: "@ + backup,
        ),
{
}

/// Directory rejection. A delete of a directory and a backup of one fail
/// with `WrongFileType`.
pub proof fn lemma_directory_refused(file: Seq<char>, source: Seq<char>, dest: Seq<char>)
    ensures
        (DeleteView::Inspect { file }).advance(ReplyView::Metadata(FileKind::Directory))
            == failure::<DeleteView>(
            ErrorKind::WrongFileType,
            "Path is not a regular file: "@ + file,
        ),
        (BackupView::Inspect { source, dest }).advance(ReplyView::Metadata(FileKind::Directory))
            == failure::<BackupView>(
            ErrorKind::WrongFileType,
            "Source is not a regular file: "@ + source,
        ),
{
}

/// Extension enforcement. A backup whose destination lacks the extension
/// `bak`, and a restore whose backup lacks it, never get past the
/// inspection: they fail before any directory or file is created.
pub proof fn lemma_extension_enforced(
    source: Seq<char>,
    dest: Seq<char>,
    target: Seq<char>,
    reply: ReplyView,
)
    requires
        !is_backup_artifact(dest),
    ensures
        (BackupView::Inspect { source, dest }).advance(reply) is Failed,
        (RestoreView::Inspect { backup: dest, target }).advance(reply) is Failed,
        reply == ReplyView::Metadata(FileKind::Regular) ==> fails_with(
            (BackupView::Inspect { source, dest }).advance(reply),
            ErrorKind::ExtensionMismatch,
        ) && fails_with(
            (RestoreView::Inspect { backup: dest, target }).advance(reply),
            ErrorKind::ExtensionMismatch,
        ),
{
}

/// A path with the extension `bak` has a file name that ends in `.bak`, so
/// it always yields an original name, and that name is not empty.
pub proof fn lemma_artifact_has_original_name(p: Seq<char>)
    requires
        is_backup_artifact(p),
    ensures
        original_name(p) matches Some(name) && name.len() > 0 && file_name(p) == Some(
            name + backup_suffix(),
        ),
{
    reveal_strlit("bak");
    reveal_strlit(".bak");
    let name = file_name(p).unwrap();
    let dot = last_index_of(name, '.');
    lemma_last_index_of(name, '.');
    let ext = name.subrange(dot + 1, name.len() as int);
    assert(ext == "bak"@);
    assert(ext.len() == 3);
    assert(name[dot + 1] == ext[0] && name[dot + 2] == ext[1] && name[dot + 3] == ext[2]);
    assert(name.subrange(name.len() - 4, name.len() as int) =~= ".bak"@);
    assert(name =~= name.subrange(0, name.len() - 4) + ".bak"@);
}

/// Appending `.bak` to a canonical path with a file name gives a canonical
/// path in the same directory, with the extension `bak`, whose original name
/// is the file name that was there before.
pub proof fn lemma_append_backup_suffix(f: Seq<char>)
    requires
        is_canonical(f),
        f.len() > 1,
    ensures
        is_canonical(f + backup_suffix()),
        is_backup_artifact(f + backup_suffix()),
        original_name(f + backup_suffix()) == file_name(f),
        parent(f + backup_suffix()) == parent(f),
{
    reveal_strlit("bak");
    reveal_strlit(".bak");
    let suffix = backup_suffix();
    let g = f + suffix;
    let slash = last_index_of(f, '/');
    lemma_file_name_is_normal(f);
    lemma_last_index_of(f, '/');
    assert(last_index_of(g, '/') == slash) by {
        assert(g[slash] == '/');
        assert forall|k: int| slash < k < g.len() implies g[k] != '/' by {
            if k < f.len() {
                assert(g[k] == f[k]);
            } else {
                assert(g[k] == suffix[k - f.len()]);
            }
        }
        lemma_last_index_is(g, '/', slash);
    }
    let name = f.subrange(slash + 1, f.len() as int);
    let long = g.subrange(slash + 1, g.len() as int);
    assert(long =~= name + suffix);
    assert(last_index_of(long, '.') == name.len()) by {
        assert(long[name.len() as int] == '.');
        assert forall|k: int| name.len() < k < long.len() implies long[k] != '.' by {
            assert(long[k] == suffix[k - name.len()]);
        }
        lemma_last_index_is(long, '.', name.len() as int);
    }
    assert(long.subrange(name.len() as int + 1, long.len() as int) =~= "bak"@);
    assert(long.subrange(long.len() - 4, long.len() as int) =~= suffix);
    assert(long.subrange(0, long.len() - 4) =~= name);
    assert(parent(g) == parent(f)) by {
        assert(g.subrange(0, 1) =~= f.subrange(0, 1));
        if slash > 0 {
            assert(g.subrange(0, slash) =~= f.subrange(0, slash));
        }
    }
    assert forall|i: int, j: int| #[trigger] is_segment(g, i, j) implies is_normal_name(
        g.subrange(i, j),
    ) by {
        if j < g.len() {
            assert(g[j] == '/');
            if j >= f.len() {
                assert(g[j] == suffix[j - f.len()]);
            }
            assert forall|k: int| i <= k < j implies f[k] != '/' by {
                assert(g[k] == f[k]);
            }
            assert(f[i - 1] == g[i - 1]);
            assert(f[j] == g[j]);
            assert(is_segment(f, i, j));
            assert(g.subrange(i, j) =~= f.subrange(i, j));
        } else {
            if i <= slash {
                assert(g[slash] == '/');
            }
            if i > slash + 1 {
                assert(g[i - 1] == '/');
            }
            assert(i == slash + 1);
            assert(g.subrange(i, j) == long);
            assert forall|k: int| 0 <= k < long.len() implies long[k] != '/' by {
                if k < name.len() {
                    assert(long[k] == name[k]);
                } else {
                    assert(long[k] == suffix[k - name.len()]);
                }
            }
        }
    }
}

/// Round trip, as far as paths decide it. For a canonical file path `f`, a
/// backup to `f.bak` passes its guards and asks for the directory of `f`;
/// a restore of `f.bak` into `d` passes its guards and aims at the file name
/// of `f` under `d`. That each copy moves every byte is the file system's
/// part.
pub proof fn lemma_round_trip(f: Seq<char>, d: Seq<char>)
    requires
        is_canonical(f),
        f.len() > 1,
    ensures
        (BackupView::Inspect { source: f, dest: f + backup_suffix() }).advance(
            ReplyView::Metadata(FileKind::Regular),
        ) == StepView::Perform(
            BackupView::MakeDirs {
                source: f,
                dest: f + backup_suffix(),
                parent: parent(f).unwrap(),
            },
        ),
        (RestoreView::Inspect { backup: f + backup_suffix(), target: d }).advance(
            ReplyView::Metadata(FileKind::Regular),
        ) == StepView::Perform(
            RestoreView::MakeDirs {
                backup: f + backup_suffix(),
                target: d,
                dest: joined(d, file_name(f).unwrap()),
            },
        ),
{
    lemma_append_backup_suffix(f);
}

/// Round trip, over whole runs. Where the file system finds a regular file,
/// makes the directory, sees nothing at the destination and copies, a backup
/// of the canonical path `f` to `f.bak` completes, and so does the restore of
/// `f.bak` into `d`, which has copied to the file name of `f` under `d`.
pub proof fn lemma_round_trip_completes(f: Seq<char>, d: Seq<char>)
    requires
        is_canonical(f),
        f.len() > 1,
    ensures
        after(
            StepView::Perform(
                OperationView::Backup(
                    BackupView::Inspect { source: f, dest: f + backup_suffix() },
                ),
            ),
            unhindered(),
        ) == StepView::<OperationView>::Completed(backup_completed(f, f + backup_suffix())),
        after(
            StepView::Perform(
                OperationView::Restore(
                    RestoreView::Inspect { backup: f + backup_suffix(), target: d },
                ),
            ),
            unhindered(),
        ) == StepView::<OperationView>::Completed(
            restore_completed(f + backup_suffix(), joined(d, file_name(f).unwrap())),
        ),
        after(
            StepView::Perform(
                OperationView::Restore(
                    RestoreView::Inspect { backup: f + backup_suffix(), target: d },
                ),
            ),
            unhindered().drop_last(),
        ) matches StepView::Perform(state) && state.request() == (RequestView::CopyNew {
            from: f + backup_suffix(),
            to: joined(d, file_name(f).unwrap()),
        }),
{
    lemma_round_trip(f, d);
    let r4 = unhindered();
    let r3 = r4.drop_last();
    let r2 = r3.drop_last();
    let r1 = r2.drop_last();
    assert(r1.drop_last().len() == 0);
    assert(r4.last() == ReplyView::Done);
    assert(r3.last() == ReplyView::Exists(false));
    assert(r2.last() == ReplyView::Done);
    assert(r1.last() == ReplyView::Metadata(FileKind::Regular));
    let b0 = StepView::Perform(
        OperationView::Backup(BackupView::Inspect { source: f, dest: f + backup_suffix() }),
    );
    assert(after(b0, r1.drop_last()) == b0);
    assert(after(b0, r1) is Perform);
    assert(after(b0, r2) is Perform);
    assert(after(b0, r3) is Perform);
    let s0 = StepView::Perform(
        OperationView::Restore(RestoreView::Inspect { backup: f + backup_suffix(), target: d }),
    );
    assert(after(s0, r1.drop_last()) == s0);
    assert(after(s0, r1) is Perform);
    assert(after(s0, r2) is Perform);
    assert(after(s0, r3) is Perform);
}

/// Round trip, from the commands. Where sanitizing gives `f` for the source,
/// `f.bak` for the backup path and `d` for the target directory, and the
/// file system does not hinder, the backup completes with a copy of `f` to
/// `f.bak`, and the restore completes with a copy of `f.bak` to the file
/// name of `f` under `d`.
pub proof fn lemma_round_trip_of_commands(
    source: Seq<char>,
    dest: Seq<char>,
    target: Seq<char>,
    cwd: Option<Seq<char>>,
    f: Seq<char>,
    d: Seq<char>,
)
    requires
        resolved(source, cwd) == Some(f),
        resolved(dest, cwd) == Some(f + backup_suffix()),
        resolved(target, cwd) == Some(d),
        is_canonical(f),
        f.len() > 1,
    ensures
        after(started(CommandsView::Backup { src: source, dest }, cwd), unhindered())
            == StepView::<OperationView>::Completed(backup_completed(f, f + backup_suffix())),
        after(started(CommandsView::Restore { backup: dest, target }, cwd), unhindered())
            == StepView::<OperationView>::Completed(
            restore_completed(f + backup_suffix(), joined(d, file_name(f).unwrap())),
        ),
{
    lemma_round_trip_completes(f, d);
}

/// The replies of a file system that finds a regular file, makes the
/// directory asked for, sees nothing at the destination, and copies.
pub open spec fn unhindered() -> Seq<ReplyView> {
    seq![
        ReplyView::Metadata(FileKind::Regular),
        ReplyView::Done,
        ReplyView::Exists(false),
        ReplyView::Done,
    ]
}

} // verus!
