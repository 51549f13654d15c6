//! Matches of a target in a sequence, and the linear scan that finds the
//! first one in a range.

use crate::order::{is_total_order, lemma_operators_compute, same};
use vstd::prelude::*;

verus! {

/// `at` is the first position in `[left, right)` whose element equals `x`.
pub open spec fn is_first_match_in<T: Ord>(s: Seq<T>, x: T, left: int, right: int, at: int) -> bool {
    &&& left <= at < right
    &&& same(s[at], x)
    &&& forall|j: int| left <= j < at ==> !same(#[trigger] s[j], x)
}

/// No position in `[left, right)` holds an element equal to `x`.
pub open spec fn no_match_in<T: Ord>(s: Seq<T>, x: T, left: int, right: int) -> bool {
    forall|j: int| left <= j < right ==> !same(#[trigger] s[j], x)
}

/// The first position in `[left, right)` whose element equals `x`, if there is
/// one.
pub open spec fn first_match_in<T: Ord>(s: Seq<T>, x: T, left: int, right: int) -> Option<int> {
    if exists|at: int| is_first_match_in(s, x, left, right, at) {
        Some(choose|at: int| is_first_match_in(s, x, left, right, at))
    } else {
        None
    }
}

/// The first position of `s` whose element equals `x`, if there is one.
pub open spec fn first_match<T: Ord>(s: Seq<T>, x: T) -> Option<int> {
    first_match_in(s, x, 0, s.len() as int)
}

/// What every search of this library answers for `x` in `s`: a position that
/// holds an element equal to `x`, or nothing, and nothing exactly when no
/// position holds such an element.
pub open spec fn is_outcome<T: Ord>(s: Seq<T>, x: T, found: Option<usize>) -> bool {
    &&& found matches Some(at) ==> at < s.len() && same(s[at as int], x)
    &&& found is None <==> no_match_in(s, x, 0, s.len() as int)
}

/// A search result as a position of the sequence.
pub open spec fn position(found: Option<usize>) -> Option<int> {
    match found {
        Some(at) => Some(at as int),
        None => None,
    }
}

/// A range has one first match at most, and `first_match_in` names it.
pub proof fn lemma_first_match_in_is<T: Ord>(s: Seq<T>, x: T, left: int, right: int, at: int)
    requires
        is_first_match_in(s, x, left, right, at),
    ensures
        first_match_in(s, x, left, right) == Some(at),
{
    let chosen = choose|k: int| is_first_match_in(s, x, left, right, k);
    assert(is_first_match_in(s, x, left, right, chosen));
    if chosen < at {
        assert(!same(s[chosen], x));
    }
    if at < chosen {
        assert(!same(s[at], x));
    }
}

/// A range without a match has no first match.
pub proof fn lemma_first_match_in_none<T: Ord>(s: Seq<T>, x: T, left: int, right: int)
    requires
        no_match_in(s, x, left, right),
    ensures
        first_match_in(s, x, left, right) is None,
{
    if exists|at: int| is_first_match_in(s, x, left, right, at) {
        let at = choose|at: int| is_first_match_in(s, x, left, right, at);
        assert(!same(s[at], x));
    }
}

/// A range that ends in a match has a first match.
pub proof fn lemma_first_match_exists<T: Ord>(s: Seq<T>, x: T, left: int, at: int)
    requires
        left <= at,
        same(s[at], x),
    ensures
        first_match_in(s, x, left, at + 1) matches Some(first) && is_first_match_in(
            s,
            x,
            left,
            at + 1,
            first,
        ),
    decreases at - left,
{
    if exists|j: int| left <= j < at && same(s[j], x) {
        let j = choose|j: int| left <= j < at && same(s[j], x);
        lemma_first_match_exists(s, x, left, j);
        let first = first_match_in(s, x, left, j + 1).unwrap();
        lemma_first_match_in_is(s, x, left, at + 1, first);
    } else {
        lemma_first_match_in_is(s, x, left, at + 1, at);
    }
}

/// Scans `collection[left..right]` from the left for an element equal to
/// `item` and returns the position of the first one.
pub fn linear_search<T: Ord>(collection: &Vec<T>, item: &T, left: usize, right: usize) -> (found:
    Option<usize>)
    requires
        is_total_order::<T>(),
        left <= right <= collection@.len(),
    ensures
        position(found) == first_match_in(collection@, *item, left as int, right as int),
        match found {
            Some(at) => is_first_match_in(collection@, *item, left as int, right as int, at as int),
            None => no_match_in(collection@, *item, left as int, right as int),
        },
{
    let mut at: usize = left;
    while at < right
        invariant
            is_total_order::<T>(),
            left <= at <= right <= collection@.len(),
            no_match_in(collection@, *item, left as int, at as int),
        decreases right - at,
    {
        proof {
            lemma_operators_compute::<T>();
        }
        if collection[at] == *item {
            proof {
                lemma_first_match_in_is(collection@, *item, left as int, right as int, at as int);
            }
            return Some(at);
        }
        at += 1;
    }
    proof {
        lemma_first_match_in_none(collection@, *item, left as int, right as int);
    }
    None
}

} // verus!
