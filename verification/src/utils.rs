//! Path sanitization: lexical cleaning, and anchoring at the working
//! directory.

use vstd::prelude::*;
use vstd::string::*;
use crate::error::{ErrorKind, OpError, OpErrorView};
use crate::path::{is_absolute, is_canonical, is_rooted, join_paths, joined, SanitizedPath};
use crate::text::view_of_str;

verus! {

/// What `path_clean::clean` returns for a path, on a platform whose only
/// separator is `/`: the path with repeated slashes reduced to one, `.`
/// segments dropped, and each `..` dropped together with the ordinary
/// segment before it, or alone where it follows the root.
pub uninterp spec fn cleaned(path: Seq<char>) -> Seq<char>;

/// Calls `path_clean::clean`.
///
/// Trusted, for `/`-separated paths: the result is `cleaned` of the
/// argument; it starts at the root exactly if the argument does; and a
/// result that starts at the root is canonical, since the cleaning keeps a
/// `..` only at the front of a path that does not start at the root.
#[verifier::external_body]
fn clean_text(path: &str) -> (r: String)
    ensures
        r@ == cleaned(path@),
        is_rooted(r@) <==> is_rooted(path@),
        is_rooted(path@) ==> is_canonical(r@),
{
    path_clean::clean(path).to_string_lossy().into_owned()
}

/// What `rel` names from the working directory, before any cleaning. `None`
/// where the working directory is unknown or not absolute.
pub open spec fn anchored(rel: Seq<char>, cwd: Option<Seq<char>>) -> Option<Seq<char>> {
    match cwd {
        Some(dir) => if is_rooted(dir) {
            Some(joined(dir, rel))
        } else {
            None
        },
        None => None,
    }
}

/// The sanitized form of `input`: its cleaned form where that is absolute,
/// else the cleaned form of what it names from the working directory. `None`
/// where the working directory is needed and is unknown or not absolute.
pub open spec fn resolved(input: Seq<char>, cwd: Option<Seq<char>>) -> Option<Seq<char>> {
    let first = cleaned(input);
    if is_rooted(first) {
        Some(first)
    } else {
        match anchored(first, cwd) {
            Some(path) => Some(cleaned(path)),
            None => None,
        }
    }
}

/// The failure of a sanitization that lacks the working directory.
pub open spec fn cwd_unavailable() -> OpErrorView {
    OpErrorView {
        kind: ErrorKind::PathResolution,
        message: "Cannot determine the current working directory"@,
    }
}

/// Takes `rel` from the working directory. `cwd` is the working directory,
/// `None` where it could not be determined; one that is not absolute counts
/// as undetermined.
pub fn anchor(rel: &str, cwd: Option<&str>) -> (r: Result<String, OpError>)
    ensures
        match r {
            Ok(path) => anchored(rel@, view_of_str(cwd)) == Some(path@),
            Err(e) => anchored(rel@, view_of_str(cwd)) is None && e@ == cwd_unavailable(),
        },
{
    match cwd {
        Some(dir) => {
            if is_absolute(dir) {
                return Ok(join_paths(dir, rel));
            }
        },
        None => {},
    }
    Err(
        OpError::new(
            ErrorKind::PathResolution,
            "Cannot determine the current working directory".to_owned(),
        ),
    )
}

/// Turns a caller's path into an absolute one without `.` or `..` segments.
///
/// The cleaning is lexical: nothing is looked up, no symlink is followed.
/// `cwd` is the working directory, `None` where it could not be determined;
/// it is consulted only for a path that is still relative once cleaned, and
/// what it then gives is cleaned again.
pub fn sanitize_path(input: &str, cwd: Option<&str>) -> (r: Result<SanitizedPath, OpError>)
    ensures
        match r {
            Ok(p) => resolved(input@, view_of_str(cwd)) == Some(p@) && is_canonical(p@),
            Err(e) => resolved(input@, view_of_str(cwd)) is None && e@ == cwd_unavailable(),
        },
{
    let first: String = clean_text(input);
    if is_absolute(first.as_str()) {
        return Ok(SanitizedPath::from_canonical(first));
    }
    match anchor(first.as_str(), cwd) {
        Ok(path) => Ok(SanitizedPath::from_canonical(clean_text(path.as_str()))),
        Err(error) => Err(error),
    }
}

} // verus!
