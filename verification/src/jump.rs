//! Jump search: probe a sorted sequence at every multiple of a stride, then
//! scan the one block that can hold the target.

use crate::order::{
    above, below, is_total_order, lemma_operators_compute, lemma_sorted_prefix_below,
    lemma_sorted_suffix_above, lemma_trichotomy, same, sorted,
};
use crate::scan::{
    first_match, first_match_in, is_first_match_in, is_outcome, lemma_first_match_in_is,
    lemma_first_match_exists, lemma_first_match_in_none, linear_search, no_match_in, position,
};
use crate::stride::{get_optimal_jump_size, optimal_stride};
use vstd::prelude::*;

verus! {

/// A jump search with stride `stride` probes the positive multiples of
/// `stride`. This is the first of them that stands at or after position `at`.
pub open spec fn probe_from(at: int, stride: int) -> int {
    if at <= stride {
        stride
    } else {
        stride * (1 + (at - 1) / stride)
    }
}

/// What a jump search with stride `stride` answers for `x` in a sorted `s`.
///
/// Nothing, when no element equals `x`. Otherwise the search walks the probes
/// until one is not less than `x`, which is the first probe at or after the
/// first match. When that probe itself equals `x`, it is the answer, even
/// where earlier elements equal `x` too. In every other case the answer is
/// the first match: the probe is greater than `x` or lies past the end, and
/// the block before it is scanned from the left. With stride 0 there are no
/// probes and the whole sequence is scanned.
pub open spec fn jump_search<T: Ord>(s: Seq<T>, x: T, stride: int) -> Option<int> {
    match first_match(s, x) {
        None => None,
        Some(first) => {
            let probe = probe_from(first, stride);
            if stride > 0 && probe < s.len() && same(s[probe], x) {
                Some(probe)
            } else {
                Some(first)
            }
        },
    }
}

/// Every position of the block that begins at `start`, after `blocks` whole
/// strides, has the end of the block as its probe; the start itself belongs
/// to the block only where the block is the first.
proof fn lemma_probe_from_block(at: int, stride: int, blocks: int, start: int)
    requires
        stride > 0,
        blocks >= 0,
        start == blocks * stride,
        start <= at <= start + stride,
        start > 0 ==> start < at,
    ensures
        probe_from(at, stride) == start + stride,
{
    if at <= stride {
        assert(blocks == 0) by (nonlinear_arith)
            requires
                stride > 0,
                blocks >= 0,
                at <= stride,
                blocks * stride <= at,
                blocks * stride > 0 ==> blocks * stride < at,
        ;
    } else {
        assert(blocks > 0) by (nonlinear_arith)
            requires
                blocks >= 0,
                at > stride,
                at <= blocks * stride + stride,
        ;
        assert(blocks * stride > 0) by (nonlinear_arith)
            requires
                blocks > 0,
                stride > 0,
        ;
        assert((at - 1) / stride == blocks) by (nonlinear_arith)
            requires
                stride > 0,
                blocks * stride <= at - 1 < blocks * stride + stride,
        ;
        assert(stride * (1 + blocks) == blocks * stride + stride) by (nonlinear_arith);
    }
}

/// When everything up to the start of a block is less than `x`, a first match
/// within the block is the first match of the whole sequence, and lies behind
/// the block's start unless the block is the first.
proof fn lemma_first_match_of_block<T: Ord>(s: Seq<T>, x: T, start: int, end: int, at: int)
    requires
        is_total_order::<T>(),
        sorted(s),
        0 <= start <= end <= s.len(),
        start > 0 ==> below(s[start], x),
        is_first_match_in(s, x, start, end, at),
    ensures
        is_first_match_in(s, x, 0, s.len() as int, at),
        first_match(s, x) == Some(at),
        start > 0 ==> start < at,
{
    if start > 0 {
        lemma_sorted_prefix_below(s, x, start);
    }
    assert forall|j: int| 0 <= j < at implies !same(#[trigger] s[j], x) by {
        lemma_trichotomy(s[j], x);
    }
    lemma_trichotomy(s[start], x);
    lemma_first_match_in_is(s, x, 0, s.len() as int, at);
}

/// When everything up to the start of a block is less than `x` and everything
/// from its end on is greater, a block without a match leaves the sequence
/// without one.
proof fn lemma_no_match_beside_block<T: Ord>(s: Seq<T>, x: T, start: int, end: int)
    requires
        is_total_order::<T>(),
        sorted(s),
        0 <= start <= end <= s.len(),
        start > 0 ==> start < s.len() && below(s[start], x),
        end < s.len() ==> below(x, s[end]),
        no_match_in(s, x, start, end),
    ensures
        no_match_in(s, x, 0, s.len() as int),
        first_match(s, x) is None,
{
    if start > 0 {
        lemma_sorted_prefix_below(s, x, start);
    }
    if end < s.len() {
        lemma_sorted_suffix_above(s, x, end);
    }
    assert forall|j: int| 0 <= j < s.len() implies !same(#[trigger] s[j], x) by {
        lemma_trichotomy(s[j], x);
    }
    lemma_first_match_in_none(s, x, 0, s.len() as int);
}

/// A probe that equals `x`, reached after probes that were all less than `x`,
/// is what the search answers.
proof fn lemma_answer_at_probe<T: Ord>(s: Seq<T>, x: T, start: int, stride: int, blocks: int)
    requires
        is_total_order::<T>(),
        sorted(s),
        stride > 0,
        blocks >= 0,
        start == blocks * stride,
        0 <= start,
        start + stride < s.len(),
        start > 0 ==> below(s[start], x),
        same(s[start + stride], x),
    ensures
        jump_search(s, x, stride) == Some(start + stride),
{
    let probe = start + stride;
    lemma_first_match_exists(s, x, start, probe);
    let first = first_match_in(s, x, start, probe + 1).unwrap();
    lemma_first_match_of_block(s, x, start, probe + 1, first);
    lemma_probe_from_block(first, stride, blocks, start);
}

/// The scan of the block that the probes have singled out gives what the
/// search answers: the block starts behind probes that were all less than
/// `x`, and ends at a probe greater than `x` or at the end of the sequence.
proof fn lemma_answer_in_block<T: Ord>(
    s: Seq<T>,
    x: T,
    start: int,
    end: int,
    stride: int,
    blocks: int,
    found: Option<usize>,
)
    requires
        is_total_order::<T>(),
        sorted(s),
        stride > 0,
        blocks >= 0,
        start == blocks * stride,
        0 <= start <= end <= s.len(),
        end <= start + stride,
        start > 0 ==> start < s.len() && below(s[start], x),
        end < s.len() ==> end == start + stride && above(s[end], x),
        match found {
            Some(at) => is_first_match_in(s, x, start, end, at as int),
            None => no_match_in(s, x, start, end),
        },
    ensures
        is_outcome(s, x, found),
        position(found) == jump_search(s, x, stride),
{
    if end < s.len() {
        lemma_trichotomy(s[end], x);
    }
    match found {
        Some(at) => {
            lemma_first_match_of_block(s, x, start, end, at as int);
            lemma_probe_from_block(at as int, stride, blocks, start);
        },
        None => {
            lemma_no_match_beside_block(s, x, start, end);
        },
    }
}

/// Jump search for `item` in the sorted `collection` with stride `jump_size`.
pub fn find_jump_with_size<T: Ord>(collection: &Vec<T>, item: &T, jump_size: usize) -> (found:
    Option<usize>)
    requires
        is_total_order::<T>(),
        sorted(collection@),
    ensures
        is_outcome(collection@, *item, found),
        position(found) == jump_search(collection@, *item, jump_size as int),
{
    let len = collection.len();
    if jump_size == 0 {
        return linear_search(collection, item, 0, len);
    }
    let mut start: usize = 0;
    let ghost mut blocks: int = 0;
    while jump_size < len - start
        invariant
            is_total_order::<T>(),
            sorted(collection@),
            len == collection@.len(),
            jump_size > 0,
            blocks >= 0,
            start == blocks * jump_size,
            start <= len,
            start > 0 ==> start < len && below(collection@[start as int], *item),
        decreases len - start,
    {
        let probe: usize = start + jump_size;
        proof {
            lemma_operators_compute::<T>();
            lemma_trichotomy(collection@[probe as int], *item);
        }
        if collection[probe] == *item {
            proof {
                lemma_answer_at_probe(collection@, *item, start as int, jump_size as int, blocks);
            }
            return Some(probe);
        }
        if collection[probe] > *item {
            let found = linear_search(collection, item, start, probe);
            proof {
                lemma_answer_in_block(
                    collection@,
                    *item,
                    start as int,
                    probe as int,
                    jump_size as int,
                    blocks,
                    found,
                );
            }
            return found;
        }
        start = probe;
        proof {
            blocks = blocks + 1;
            assert((blocks - 1) * jump_size + jump_size == blocks * jump_size) by (nonlinear_arith);
        }
    }
    let found = linear_search(collection, item, start, len);
    proof {
        lemma_answer_in_block(
            collection@,
            *item,
            start as int,
            len as int,
            jump_size as int,
            blocks,
            found,
        );
    }
    found
}

/// Jump search for `item` in the sorted `collection`, with the stride that
/// suits its length.
pub fn find_jump<T: Ord>(collection: &Vec<T>, item: &T) -> (found: Option<usize>)
    requires
        is_total_order::<T>(),
        sorted(collection@),
    ensures
        is_outcome(collection@, *item, found),
        position(found) == jump_search(
            collection@,
            *item,
            optimal_stride(collection@.len()) as int,
        ),
{
    find_jump_with_size(collection, item, get_optimal_jump_size(collection))
}

} // verus!
