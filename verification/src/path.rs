//! The model of a path, and the sanitized path.
//!
//! A path is a sequence of characters in which `/` separates the segments.
//! The functions here agree with the standard library's `Path` on canonical
//! paths, the only ones the guards ever see.

use vstd::prelude::*;
use vstd::string::*;
use crate::text::{appended, find_last, last_index_of, lemma_last_index_of, view_of};

verus! {

/// The path starts at the root.
pub open spec fn is_rooted(p: Seq<char>) -> bool {
    p.len() > 0 && p[0] == '/'
}

/// `p[i..j]` is a whole segment of `p`: a `/` stands before it, a `/` or the
/// end of the path after it, and none inside it.
pub open spec fn is_segment(p: Seq<char>, i: int, j: int) -> bool {
    &&& 0 < i <= j <= p.len()
    &&& p[i - 1] == '/'
    &&& j < p.len() ==> p[j] == '/'
    &&& forall|k: int| i <= k < j ==> p[k] != '/'
}

/// The name is `..`.
pub open spec fn is_dot_dot(n: Seq<char>) -> bool {
    n.len() == 2 && n[0] == '.' && n[1] == '.'
}

/// The name is `.`.
pub open spec fn is_dot(n: Seq<char>) -> bool {
    n.len() == 1 && n[0] == '.'
}

/// An ordinary name: not empty, neither `.` nor `..`, and without a `/`.
pub open spec fn is_normal_name(n: Seq<char>) -> bool {
    &&& n.len() > 0
    &&& !is_dot(n)
    &&& !is_dot_dot(n)
    &&& forall|k: int| 0 <= k < n.len() ==> n[k] != '/'
}

/// The path is absolute and lexically normal: it is the root alone, or the
/// root followed by ordinary names with a single `/` between them. No segment
/// is empty, `.` or `..`, and no `/` ends the path.
pub open spec fn is_canonical(p: Seq<char>) -> bool {
    &&& is_rooted(p)
    &&& p.len() > 1 ==> forall|i: int, j: int| #[trigger]
        is_segment(p, i, j) ==> is_normal_name(p.subrange(i, j))
}

/// The last segment of a canonical path; the root has none.
pub open spec fn file_name(p: Seq<char>) -> Option<Seq<char>> {
    if p.len() > 1 {
        Some(p.subrange(last_index_of(p, '/') + 1, p.len() as int))
    } else {
        None
    }
}

/// The extension of a file name: what follows its last `.`, unless the name
/// holds no `.`, holds its only `.` in front, or is `..`.
pub open spec fn name_extension(name: Seq<char>) -> Option<Seq<char>> {
    let dot = last_index_of(name, '.');
    if dot <= 0 || is_dot_dot(name) {
        None
    } else {
        Some(name.subrange(dot + 1, name.len() as int))
    }
}

/// The extension of a canonical path: that of its file name.
pub open spec fn extension(p: Seq<char>) -> Option<Seq<char>> {
    match file_name(p) {
        Some(name) => name_extension(name),
        None => None,
    }
}

/// The directory that holds the last segment of a canonical path; the root
/// has none.
pub open spec fn parent(p: Seq<char>) -> Option<Seq<char>> {
    if p.len() > 1 {
        let slash = last_index_of(p, '/');
        if slash <= 0 {
            Some(p.subrange(0, 1))
        } else {
            Some(p.subrange(0, slash))
        }
    } else {
        None
    }
}

/// `rel` taken from `base`: a rooted `rel` replaces `base`; otherwise it is
/// appended, after a `/` unless `base` is empty or ends with one.
pub open spec fn joined(base: Seq<char>, rel: Seq<char>) -> Seq<char> {
    if is_rooted(rel) {
        rel
    } else if base.len() == 0 || base.last() == '/' {
        base + rel
    } else {
        base + seq!['/'] + rel
    }
}

/// The last segment of a canonical path other than the root is an ordinary
/// name, and the path's last `/` stands right before it.
pub proof fn lemma_file_name_is_normal(p: Seq<char>)
    requires
        is_canonical(p),
        p.len() > 1,
    ensures
        0 <= last_index_of(p, '/') < p.len() - 1,
        is_normal_name(p.subrange(last_index_of(p, '/') + 1, p.len() as int)),
{
    lemma_last_index_of(p, '/');
    let slash = last_index_of(p, '/');
    assert(slash >= 0) by {
        if slash < 0 {
            assert(p[0] != '/');
        }
    }
    assert(is_segment(p, slash + 1, p.len() as int));
}

/// Whether the path starts at the root.
pub fn is_absolute(path: &str) -> (r: bool)
    ensures
        r == is_rooted(path@),
{
    !path.is_empty() && path.get_char(0) == '/'
}

/// Takes `rel` from `base`, as `Path::join` does with `/` as the separator.
pub fn join_paths(base: &str, rel: &str) -> (r: String)
    ensures
        r@ == joined(base@, rel@),
{
    if is_absolute(rel) {
        return rel.to_owned();
    }
    let n: usize = base.unicode_len();
    if n == 0 || base.get_char(n - 1) == '/' {
        appended(base, rel)
    } else {
        proof {
            reveal_strlit("/");
            assert("/"@ =~= seq!['/']);
        }
        let mut s: String = appended(base, "/");
        s.append(rel);
        s
    }
}

/// An absolute path without `.` or `..` segments, as text.
#[derive(Debug, PartialEq, Eq)]
pub struct SanitizedPath {
    text: String,
}

impl View for SanitizedPath {
    type V = Seq<char>;

    closed spec fn view(&self) -> Seq<char> {
        self.text@
    }
}

impl SanitizedPath {
    #[verifier::type_invariant]
    spec fn well_formed(&self) -> bool {
        is_canonical(self.text@)
    }

    /// Wraps text that is known to be canonical.
    pub(crate) fn from_canonical(text: String) -> (p: SanitizedPath)
        requires
            is_canonical(text@),
        ensures
            p@ == text@,
    {
        SanitizedPath { text }
    }

    /// The path as text.
    pub fn as_str(&self) -> (s: &str)
        ensures
            s@ == self@,
            is_canonical(self@),
    {
        proof {
            use_type_invariant(self);
        }
        self.text.as_str()
    }

    /// The last segment of the path; `None` for the root.
    pub fn file_name(&self) -> (r: Option<String>)
        ensures
            view_of(r) == file_name(self@),
    {
        let s: &str = self.as_str();
        let n: usize = s.unicode_len();
        if n <= 1 {
            return None;
        }
        proof {
            lemma_file_name_is_normal(s@);
        }
        match find_last(s, '/') {
            Some(k) => Some(s.substring_char(k + 1, n).to_owned()),
            None => None,
        }
    }

    /// The extension of the path's last segment, if it has one.
    pub fn extension(&self) -> (r: Option<String>)
        ensures
            view_of(r) == extension(self@),
    {
        let name: String = match self.file_name() {
            Some(n) => n,
            None => {
                return None;
            },
        };
        proof {
            use_type_invariant(self);
            lemma_file_name_is_normal(self@);
            lemma_last_index_of(name@, '.');
        }
        let n: usize = name.as_str().unicode_len();
        match find_last(name.as_str(), '.') {
            Some(dot) => if dot == 0 {
                None
            } else {
                Some(name.as_str().substring_char(dot + 1, n).to_owned())
            },
            None => None,
        }
    }

    /// The directory that holds the path's last segment; `None` for the root.
    pub fn parent(&self) -> (r: Option<String>)
        ensures
            view_of(r) == parent(self@),
    {
        let s: &str = self.as_str();
        let n: usize = s.unicode_len();
        if n <= 1 {
            return None;
        }
        proof {
            lemma_file_name_is_normal(s@);
        }
        match find_last(s, '/') {
            Some(k) => if k == 0 {
                Some(s.substring_char(0, 1).to_owned())
            } else {
                Some(s.substring_char(0, k).to_owned())
            },
            None => None,
        }
    }
}

} // verus!
