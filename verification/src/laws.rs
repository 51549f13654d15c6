//! What holds of the searches together.

use crate::dispatch::{binary_search_preferred, is_find_result};
use crate::jump::jump_search;
use crate::order::same;
use crate::scan::{
    first_match, first_match_in, is_first_match_in, is_outcome, lemma_first_match_exists,
    lemma_first_match_in_is, no_match_in, position,
};
use crate::stride::optimal_stride;
use vstd::prelude::*;

verus! {

/// No two positions of `s` hold an element equal to `x`.
pub open spec fn matches_once_at_most<T: Ord>(s: Seq<T>, x: T) -> bool {
    forall|i: int, j: int|
        0 <= i < s.len() && 0 <= j < s.len() && same(#[trigger] s[i], x) && same(
            #[trigger] s[j],
            x,
        ) ==> i == j
}

/// A jump search, whatever its stride, answers with a position that holds an
/// element equal to the target if there is such an element, and with nothing
/// if there is none.
pub proof fn lemma_jump_search_finds_what_is_there<T: Ord>(s: Seq<T>, x: T, stride: int)
    ensures
        jump_search(s, x, stride) matches Some(at) ==> 0 <= at < s.len() && same(s[at], x),
        jump_search(s, x, stride) is None <==> no_match_in(s, x, 0, s.len() as int),
{
    let len = s.len() as int;
    match first_match(s, x) {
        Some(first) => {
            assert(is_first_match_in(s, x, 0, len, first));
        },
        None => {
            assert forall|j: int| 0 <= j < len implies !same(#[trigger] s[j], x) by {
                if same(s[j], x) {
                    lemma_first_match_exists(s, x, 0, j);
                    let first = first_match_in(s, x, 0, j + 1).unwrap();
                    lemma_first_match_in_is(s, x, 0, len, first);
                }
            }
        },
    }
}

/// `find` and `find_jump` agree on whether the target is there: given what
/// each of them ensures of its answer, both find or both miss.
pub proof fn lemma_find_agrees_with_find_jump<T: Ord>(
    s: Seq<T>,
    x: T,
    by_find: Option<usize>,
    by_jump: Option<usize>,
)
    requires
        is_outcome(s, x, by_find),
        position(by_jump) == jump_search(s, x, optimal_stride(s.len()) as int),
    ensures
        by_find is Some <==> by_jump is Some,
{
    lemma_jump_search_finds_what_is_there(s, x, optimal_stride(s.len()) as int);
}

/// Two calls of `find_jump` with the same sequence and target give the same
/// answer.
pub proof fn lemma_find_jump_repeats<T: Ord>(
    s: Seq<T>,
    x: T,
    first: Option<usize>,
    second: Option<usize>,
)
    requires
        position(first) == jump_search(s, x, optimal_stride(s.len()) as int),
        position(second) == jump_search(s, x, optimal_stride(s.len()) as int),
    ensures
        first == second,
{
}

/// Two calls of `find_with_hint` with the same sequence, target and hint both
/// find or both miss. They give the same position where the hint lets the
/// search jump, and where no more than one position holds an element equal
/// to the target.
pub proof fn lemma_find_with_hint_repeats<T: Ord>(
    s: Seq<T>,
    x: T,
    hint: Option<u64>,
    first: Option<usize>,
    second: Option<usize>,
)
    requires
        is_find_result(s, x, hint, first),
        is_find_result(s, x, hint, second),
    ensures
        first is Some <==> second is Some,
        !binary_search_preferred(hint, optimal_stride(s.len())) ==> first == second,
        matches_once_at_most(s, x) ==> first == second,
{
}

/// Two calls of `find` with the same sequence and target both find or both
/// miss, and give the same position where no more than one position holds an
/// element equal to the target.
pub proof fn lemma_find_repeats<T: Ord>(
    s: Seq<T>,
    x: T,
    first: Option<usize>,
    second: Option<usize>,
)
    requires
        is_outcome(s, x, first),
        is_outcome(s, x, second),
    ensures
        first is Some <==> second is Some,
        matches_once_at_most(s, x) ==> first == second,
{
}

/// In an empty sequence every search misses.
pub proof fn lemma_outcome_in_empty<T: Ord>(s: Seq<T>, x: T, found: Option<usize>)
    requires
        s.len() == 0,
        is_outcome(s, x, found),
    ensures
        found is None,
{
}

/// In a sequence of one element every search finds position 0 if the element
/// equals the target, and misses if it does not.
pub proof fn lemma_outcome_in_single<T: Ord>(s: Seq<T>, x: T, found: Option<usize>)
    requires
        s.len() == 1,
        is_outcome(s, x, found),
    ensures
        same(s[0], x) ==> found == Some(0usize),
        !same(s[0], x) ==> found is None,
{
}

} // verus!
