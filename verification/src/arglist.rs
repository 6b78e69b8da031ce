//! Flags and their values in command-line argument lists.
use vstd::prelude::*;

use crate::text::{str_eq, strs_view};

verus! {

/// The first index at or after `i` where `args` holds `key`.
pub open spec fn index_from(args: Seq<Seq<char>>, key: Seq<char>, i: int) -> Option<int>
    decreases args.len() - i,
{
    if i < 0 || i >= args.len() {
        None
    } else if args[i] == key {
        Some(i)
    } else {
        index_from(args, key, i + 1)
    }
}

/// The first index where `args` holds `key` (`iter().position`).
pub open spec fn first_index(args: Seq<Seq<char>>, key: Seq<char>) -> Option<int> {
    index_from(args, key, 0)
}

/// The argument that follows the first occurrence of `key`, if both exist.
pub open spec fn value_after(args: Seq<Seq<char>>, key: Seq<char>) -> Option<Seq<char>> {
    match first_index(args, key) {
        Some(i) => if i + 1 < args.len() {
            Some(args[i + 1])
        } else {
            None
        },
        None => None,
    }
}

/// What `index_from` finds lies in range, holds the key, and nothing before
/// it (from `i` on) does.
pub proof fn lemma_index_from(args: Seq<Seq<char>>, key: Seq<char>, i: int)
    requires
        0 <= i,
    ensures
        match index_from(args, key, i) {
            Some(j) => i <= j < args.len() && args[j] == key && forall|m: int|
                i <= m < j ==> args[m] != key,
            None => forall|m: int| i <= m < args.len() ==> args[m] != key,
        },
    decreases args.len() - i,
{
    if i < args.len() && args[i] != key {
        lemma_index_from(args, key, i + 1);
    }
}

/// If `key` does not occur at all, `index_from` finds nothing; if it occurs
/// at `j` and not before, `index_from` finds `j`.
pub proof fn lemma_index_from_at(args: Seq<Seq<char>>, key: Seq<char>, i: int, j: int)
    requires
        0 <= i <= j < args.len(),
        args[j] == key,
        forall|m: int| i <= m < j ==> args[m] != key,
    ensures
        index_from(args, key, i) == Some(j),
    decreases j - i,
{
    if i < j {
        lemma_index_from_at(args, key, i + 1, j);
    }
}

/// The position of the first `key` in `args`.
pub fn position_of(args: &Vec<String>, key: &str) -> (r: Option<usize>)
    ensures
        match r {
            Some(i) => first_index(strs_view(args@), key@) == Some(i as int),
            None => first_index(strs_view(args@), key@) is None,
        },
{
    let ghost a = strs_view(args@);
    let mut i: usize = 0;
    while i < args.len()
        invariant
            i <= args.len(),
            a == strs_view(args@),
            first_index(a, key@) == index_from(a, key@, i as int),
        decreases args.len() - i,
    {
        assert(a[i as int] == args@[i as int]@);
        if str_eq(args[i].as_str(), key) {
            return Some(i);
        }
        i += 1;
    }
    None
}

/// The argument that follows the first `key` in `args`.
pub fn arg_value(args: &Vec<String>, key: &str) -> (r: Option<String>)
    ensures
        crate::text::opt_view(r) == value_after(strs_view(args@), key@),
{
    let pos = position_of(args, key);
    proof {
        lemma_index_from(strs_view(args@), key@, 0);
    }
    match pos {
        Some(i) => if i < args.len() - 1 {
            Some(args[i + 1].clone())
        } else {
            None
        },
        None => None,
    }
}

/// Whether `args` contains `key`.
pub fn has_arg(args: &Vec<String>, key: &str) -> (r: bool)
    ensures
        r == strs_view(args@).contains(key@),
{
    let r = position_of(args, key);
    proof {
        lemma_index_from(strs_view(args@), key@, 0);
        if r is None {
            assert forall|m: int| 0 <= m < args@.len() implies strs_view(args@)[m] != key@ by {}
        } else {
            let i = r.unwrap() as int;
            assert(strs_view(args@)[i] == key@);
        }
    }
    r.is_some()
}

} // verus!
