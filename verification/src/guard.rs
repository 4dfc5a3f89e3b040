//! The guards that every operation applies to a sanitized path before it
//! acts.

use vstd::prelude::*;
use vstd::string::*;
use crate::path::{extension, SanitizedPath};
use crate::text::same_text;

verus! {

/// What the entry at a path is, going by the entry itself: a symlink is a
/// symlink, whatever it points at.
#[derive(Clone, Copy, Debug, PartialEq, Eq, Structural)]
pub enum FileKind {
    Regular,
    Directory,
    Symlink,
    Other,
}

/// The extension that marks a backup artifact.
pub open spec fn backup_extension() -> Seq<char> {
    "bak"@
}

/// The suffix that a backup artifact's file name ends with.
pub open spec fn backup_suffix() -> Seq<char> {
    ".bak"@
}

/// The path's extension is exactly `bak`.
pub open spec fn is_backup_artifact(p: Seq<char>) -> bool {
    extension(p) == Some(backup_extension())
}

/// The entry is a regular file.
pub fn regular_file(kind: FileKind) -> (ok: bool)
    ensures
        ok == (kind == FileKind::Regular),
{
    match kind {
        FileKind::Regular => true,
        _ => false,
    }
}

/// The entry is no symlink.
pub fn not_symlink(kind: FileKind) -> (ok: bool)
    ensures
        ok == (kind != FileKind::Symlink),
{
    match kind {
        FileKind::Symlink => false,
        _ => true,
    }
}

/// The path's extension is exactly `bak`, in this case.
pub fn has_backup_extension(path: &SanitizedPath) -> (ok: bool)
    ensures
        ok == is_backup_artifact(path@),
{
    match path.extension() {
        Some(ext) => same_text(ext.as_str(), "bak"),
        None => false,
    }
}

} // verus!
