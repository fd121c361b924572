//! File paths as the builder reads them through `std::path` and
//! `pathdiff`. How a path splits into components depends on the platform
//! (Windows also splits at `\`, and reads drive and UNC prefixes), so the
//! claims made here are exact only on paths that every platform splits the
//! same way, at `/`.

use vstd::prelude::*;

use crate::text::occurs_in;

verus! {

/// The index of the last `c` in `s`, or -1 where `s` has none.
pub open spec fn last_index_of(s: Seq<char>, c: char) -> int
    decreases s.len(),
{
    if s.len() == 0 {
        -1
    } else if s.last() == c {
        s.len() - 1
    } else {
        last_index_of(s.drop_last(), c)
    }
}

/// The last `/`-separated segment of `p`: all of it where it has no `/`.
pub open spec fn last_segment(p: Seq<char>) -> Seq<char> {
    p.skip(last_index_of(p, '/') + 1)
}

/// The text of `p` before its last `/`: empty where it has none.
pub open spec fn dir_part(p: Seq<char>) -> Seq<char> {
    if last_index_of(p, '/') < 0 {
        Seq::empty()
    } else {
        p.take(last_index_of(p, '/'))
    }
}

/// The stem of the file name `n` (std's rule): all of it where it has no
/// `.` or its only `.` is the first character; otherwise what comes before
/// its last `.` (`a.b.c` gives `a.b`, `.profile` stays `.profile`).
pub open spec fn bare_stem(n: Seq<char>) -> Seq<char> {
    if last_index_of(n, '.') <= 0 {
        n
    } else {
        n.take(last_index_of(n, '.'))
    }
}

/// Whether every platform reads the last `/`-separated segment of `p` as
/// its file name: `p` has no `\` and no `:` (so no Windows prefix), does
/// not start with `//` (a UNC prefix on Windows), and its last segment is
/// not empty (no trailing `/`), `.` or `..`. Empty and `.` segments before
/// it (`./src/a.ecsact`, `a//b`) are allowed.
pub open spec fn named_path(p: Seq<char>) -> bool {
    &&& !p.contains('\\')
    &&& !p.contains(':')
    &&& !(p.len() >= 2 && p[0] == '/' && p[1] == '/')
    &&& last_segment(p).len() > 0
    &&& last_segment(p) != "."@
    &&& last_segment(p) != ".."@
}

/// Whether `p` is a named path whose parent every platform reads as the
/// text before its last `/`: that `/` is not the root, and the segment
/// before it is neither empty nor a `.` that follows a `/` (both of which
/// the parent drops). A leading `./` is allowed (`./a` has the parent `.`).
pub open spec fn simple_path(p: Seq<char>) -> bool {
    let k = last_index_of(p, '/');
    &&& named_path(p)
    &&& k != 0
    &&& k > 0 ==> p[k - 1] != '/'
    &&& k >= 2 ==> !(p[k - 1] == '.' && p[k - 2] == '/')
}

/// Whether `b` has a `..` segment.
pub open spec fn has_dotdot_segment(b: Seq<char>) -> bool {
    exists|i: int|
        0 <= i && i + 1 < b.len() && #[trigger] b[i] == '.' && b[i + 1] == '.' && (i == 0 || b[i - 1]
            == '/') && (i + 2 == b.len() || b[i + 2] == '/')
}

/// Whether `b` is a directory path whose components every platform reads
/// the same way: not empty, no `\` or `:` (no Windows prefix), not starting
/// with `//` (a UNC prefix on Windows), and not the root alone.
pub open spec fn plain_base(b: Seq<char>) -> bool {
    &&& b.len() > 0
    &&& !b.contains('\\')
    &&& !b.contains(':')
    &&& !(b.len() >= 2 && b[0] == '/' && b[1] == '/')
    &&& exists|i: int| 0 <= i < b.len() && #[trigger] b[i] != '/'
}

/// Whether `t` is a single file name on every platform: not empty, not `.`
/// or `..`, and without `/`, `\` or `:`.
pub open spec fn is_bare_file_name(t: Seq<char>) -> bool {
    &&& t.len() > 0
    &&& t != "."@
    &&& t != ".."@
    &&& !t.contains('/')
    &&& !t.contains('\\')
    &&& !t.contains(':')
}

/// The name under `base` that `path` is, where `path` is `base`, a `/` and
/// more.
pub open spec fn child_name(path: Seq<char>, base: Seq<char>) -> Option<Seq<char>> {
    if path.len() > base.len() + 1 && path.take(base.len() as int) == base && path[base.len() as int]
        == '/' {
        Some(path.skip(base.len() + 1 as int))
    } else {
        None
    }
}

/// Whether `t` is a relative path that every platform splits into the same
/// components at its `/` alone, each one kept as written: not empty, no `\\`
/// or `:`, no `/` at either end, no empty segment and no `.` segment.
pub open spec fn clean_rel(t: Seq<char>) -> bool {
    &&& t.len() > 0
    &&& !t.contains('\\')
    &&& !t.contains(':')
    &&& t[0] != '/'
    &&& t.last() != '/'
    &&& forall|i: int| 0 <= i < t.len() - 1 && #[trigger] t[i] == '/' ==> t[i + 1] != '/'
    &&& forall|i: int|
        0 <= i < t.len() && #[trigger] t[i] == '.' && (i == 0 || t[i - 1] == '/') ==> i + 1 < t.len()
            && t[i + 1] != '/'
}

/// Whether `r` is `t` with each `/` possibly written as the other
/// separator, `\\` (the platform's separator, on Windows).
pub open spec fn same_but_separators(r: Seq<char>, t: Seq<char>) -> bool {
    &&& r.len() == t.len()
    &&& forall|i: int|
        0 <= i < t.len() ==> if t[i] == '/' {
            r[i] == '/' || r[i] == '\\'
        } else {
            #[trigger] r[i] == t[i]
        }
}

/// A relative path written like `t` leads from `base` to where `t` leads:
/// `base`, a `/`, then the relative path, is `base`, `/`, `t` with some
/// separators written as `\\`.
pub proof fn lemma_relative_path_joins(base: Seq<char>, rel: Seq<char>, t: Seq<char>)
    requires
        same_but_separators(rel, t),
    ensures
        same_but_separators(base + "/"@ + rel, base + "/"@ + t),
{
    reveal_strlit("/");
    let x = base + "/"@ + rel;
    let y = base + "/"@ + t;
    assert forall|i: int| 0 <= i < y.len() implies if y[i] == '/' {
        x[i] == '/' || x[i] == '\\'
    } else {
        #[trigger] x[i] == y[i]
    } by {
        if i > base.len() {
            assert(x[i] == rel[i - base.len() - 1]);
            assert(y[i] == t[i - base.len() - 1]);
        }
    }
}

/// `pathdiff::diff_paths`: the path that leads from `base` to `path`,
/// written with the platform's separators. Claimed: from a path to itself
/// the relative path is empty (every component pair is equal and skipped,
/// on every platform); from a plain directory to a file name directly
/// under it, the relative path is that name (the components of `base` are
/// skipped, then the one left is written); from a plain directory to a
/// path under it whose remainder has only plain segments, the relative path
/// is that remainder, each `/` written as the platform's separator (the
/// components left are pushed one by one onto an empty `PathBuf`); between
/// two plain paths that are both rooted or both relative, where `base` has
/// no `..` segment, there is a relative path (pathdiff gives up only on
/// reaching a `..` of `base`, or on a relative `path` and an absolute
/// `base`). Which separator is written depends on the platform, and only
/// that it is `/` or `\\` is claimed.
#[verifier::external_body]
pub(crate) fn diff_paths(path: &str, base: &str) -> (r: Option<String>)
    ensures
        path@ == base@ ==> r is Some && r.unwrap()@ == Seq::<char>::empty(),
        plain_base(base@) && child_name(path@, base@) is Some && is_bare_file_name(
            child_name(path@, base@).unwrap(),
        ) ==> r is Some && r.unwrap()@ == child_name(path@, base@).unwrap(),
        plain_base(base@) && plain_base(path@) && (path@[0] == '/') == (base@[0] == '/')
            && !has_dotdot_segment(base@) ==> r is Some,
        plain_base(base@) && child_name(path@, base@) is Some && clean_rel(
            child_name(path@, base@).unwrap(),
        ) ==> r is Some && same_but_separators(r.unwrap()@, child_name(path@, base@).unwrap()),
{
    pathdiff::diff_paths(path, base).map(|p| p.to_string_lossy().into_owned())
}

/// `Path::file_stem`: the file name of `p` without its extension. Claimed
/// on every platform: a stem is a non-empty part of `p`; on a named path
/// (one whose last `/`-separated segment every platform reads as its file
/// name) it is the stem of that segment. Which part is the stem of other paths depends on the platform
/// (a Windows verbatim path splits at `\` only), and is not claimed.
#[verifier::external_body]
pub(crate) fn path_file_stem(p: &str) -> (r: Option<String>)
    ensures
        r is Some ==> occurs_in(p@, r.unwrap()@) && r.unwrap()@.len() > 0,
        named_path(p@) ==> r is Some && r.unwrap()@ == bare_stem(last_segment(p@)),
{
    std::path::Path::new(p).file_stem().map(|s| s.to_string_lossy().into_owned())
}

/// `Path::parent`: `p` without its last component. Claimed on every
/// platform: the parent is a beginning of `p`; on a simple path it is the
/// text before the last `/` (empty where there is none). Where other paths
/// split depends on the platform's separators and prefixes, and is not
/// claimed.
#[verifier::external_body]
pub(crate) fn path_parent(p: &str) -> (r: Option<String>)
    ensures
        r is Some ==> r.unwrap()@.len() <= p@.len() && r.unwrap()@ == p@.take(
            r.unwrap()@.len() as int,
        ),
        simple_path(p@) ==> r is Some && r.unwrap()@ == dir_part(p@),
{
    std::path::Path::new(p).parent().map(|d| d.to_string_lossy().into_owned())
}

} // verus!
