//! Slash-separated file system paths held as strings.
//!
//! Joining follows the documented rule of `PathBuf::push` and is proved here.
//! The final component and the parent of a path come from `std::path::Path`;
//! their results are named below and the library is proved against those
//! names.
use vstd::prelude::*;

use crate::text::{concat, opt_view, to_chars};

verus! {

/// What `Path::parent` gives for a path, as a string.
pub uninterp spec fn parent_of(p: Seq<char>) -> Option<Seq<char>>;

/// What `Path::file_name` gives for a path, as a string.
pub uninterp spec fn file_name_of(p: Seq<char>) -> Option<Seq<char>>;

/// A name that `Path` takes as a normal final component: not empty, free
/// of `/`, and neither `.` nor `..`.
pub open spec fn plain_name(n: Seq<char>) -> bool {
    &&& n.len() > 0
    &&& forall|i: int| 0 <= i < n.len() ==> n[i] != '/'
    &&& n != seq!['.']
    &&& n != seq!['.', '.']
}

/// The path `d/n`: a directory and a name with one `/` between them.
pub open spec fn child_path(d: Seq<char>, n: Seq<char>) -> Seq<char> {
    d + seq!['/'] + n
}

/// A folder path that `Path` gives back as written when it is the parent of
/// a file in it: not empty, not ending in `/`, and neither `.` nor ending
/// in `/.`.
pub open spec fn plain_dir(d: Seq<char>) -> bool {
    &&& d.len() > 0
    &&& d.last() != '/'
    &&& d != seq!['.']
    &&& !(d.len() >= 2 && d[d.len() - 2] == '/' && d.last() == '.')
}

/// A folder path followed by a plain name is again such a folder path.
pub proof fn lemma_child_is_plain_dir(d: Seq<char>, n: Seq<char>)
    requires
        plain_name(n),
    ensures
        plain_dir(child_path(d, n)),
{
    let c = child_path(d, n);
    assert(c.last() == n.last());
    assert(n.last() != '/');
    if c.len() >= 2 && c[c.len() - 2] == '/' && c.last() == '.' {
        if n.len() == 1 {
            assert(n =~= seq!['.']);
        } else {
            assert(c[c.len() - 2] == n[n.len() - 2]);
        }
    }
}

/// `Path::parent`: the path without its final component, or `None` for a
/// root or an empty path. Of what `Path::parent` returns in general, only
/// its name is stated; of a path `d/n` with `d` a plain folder path and
/// `n` a plain name, it is `d`.
#[verifier::external_body]
pub(crate) fn path_parent(p: &str) -> (r: Option<String>)
    ensures
        opt_view(r) == parent_of(p@),
        forall|d: Seq<char>, n: Seq<char>|
            p@ == #[trigger] child_path(d, n) && plain_dir(d) && plain_name(n) ==> opt_view(r) == Some(d),
{
    std::path::Path::new(p).parent().map(|q| q.display().to_string())
}

/// `Path::file_name`: the final component when it is a normal name. Of
/// what `Path::file_name` returns in general, only its name is stated; of
/// a path `d/n` ending in a plain name `n`, it is `n`.
#[verifier::external_body]
pub(crate) fn path_file_name(p: &str) -> (r: Option<String>)
    ensures
        opt_view(r) == file_name_of(p@),
        forall|d: Seq<char>, n: Seq<char>|
            p@ == #[trigger] child_path(d, n) && plain_name(n) ==> opt_view(r) == Some(n),
{
    std::path::Path::new(p).file_name().and_then(|n| n.to_str()).map(|n| n.to_string())
}

/// `Path::join`: an absolute `b` replaces `a`; otherwise `b` is appended,
/// with a `/` in between unless `a` is empty or already ends in one.
pub open spec fn join(a: Seq<char>, b: Seq<char>) -> Seq<char> {
    if b.len() > 0 && b[0] == '/' {
        b
    } else if a.len() == 0 || a.last() == '/' {
        a + b
    } else {
        a + seq!['/'] + b
    }
}

/// `Path::join` on string paths.
pub fn path_join(a: &str, b: &str) -> (r: String)
    ensures
        r@ == join(a@, b@),
{
    let av = to_chars(a);
    let bv = to_chars(b);
    if bv.len() > 0 && bv[0] == '/' {
        return crate::text::owned(b);
    }
    if av.len() == 0 || av[av.len() - 1] == '/' {
        return concat(a, b);
    }
    let with_sep = concat(a, "/");
    proof {
        reveal_strlit("/");
    }
    concat(with_sep.as_str(), b)
}

} // verus!
