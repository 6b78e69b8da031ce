//! Questions put to the file system by the caller: a probe is a closure
//! that answers, for a path, whether it is a file (or a directory). What is
//! proved of a function that asks holds whatever the probe answers.
use vstd::prelude::*;

use crate::text::{lit, strs_view};

verus! {

/// A file-system probe answered `answer` for `path`.
pub open spec fn answered<F: Fn(String) -> bool>(probe: F, path: Seq<char>, answer: bool) -> bool {
    exists|s: String| s@ == path && call_ensures(probe, (s,), answer)
}

/// The probe can be asked about any path.
pub open spec fn total_probe<F: Fn(String) -> bool>(probe: F) -> bool {
    forall|s: String| call_requires(probe, (s,))
}

/// Asks the probe about one path.
pub fn ask<F: Fn(String) -> bool>(probe: &F, path: &str) -> (b: bool)
    requires
        total_probe(*probe),
    ensures
        answered(*probe, path@, b),
{
    let s = lit(path);
    let b = probe(s);
    proof {
        assert(call_ensures(*probe, (s,), b));
    }
    b
}

/// The first path of `paths` that the probe accepts, all before it having
/// been refused.
pub open spec fn first_accepted_spec<F: Fn(String) -> bool>(
    probe: F,
    paths: Seq<Seq<char>>,
    r: Option<usize>,
) -> bool {
    match r {
        Some(i) => i < paths.len() && answered(probe, paths[i as int], true) && forall|j: int|
            0 <= j < i ==> answered(probe, #[trigger] paths[j], false),
        None => forall|j: int| 0 <= j < paths.len() ==> answered(probe, #[trigger] paths[j], false),
    }
}

/// Asks the probe about each path in turn and stops at the first accepted.
pub fn first_accepted<F: Fn(String) -> bool>(probe: &F, paths: &Vec<String>) -> (r: Option<usize>)
    requires
        total_probe(*probe),
    ensures
        first_accepted_spec(*probe, strs_view(paths@), r),
{
    let mut i: usize = 0;
    while i < paths.len()
        invariant
            i <= paths.len(),
            total_probe(*probe),
            forall|j: int| 0 <= j < i ==> answered(*probe, #[trigger] strs_view(paths@)[j], false),
        decreases paths.len() - i,
    {
        if ask(probe, paths[i].as_str()) {
            return Some(i);
        }
        i += 1;
    }
    None
}

} // verus!
