//! The choice between binary search and jump search, by the capacity of the
//! level-two data cache.

use crate::cache::{
    is_smallest_capacity, none_serves, read_cache_geometry, smallest_capacity, CacheGeometry,
    CacheKind,
};
use crate::jump::{find_jump_with_size, jump_search};
use crate::order::{below, is_total_order, lemma_trichotomy, same, sorted};
use crate::scan::{is_outcome, position};
use crate::stride::{get_optimal_jump_size, optimal_stride};
use vstd::prelude::*;

verus! {

/// The level of the cache whose capacity decides.
pub const HINT_LEVEL: u8 = 2;

/// Binary search is preferred where a capacity is known and does not exceed
/// the stride; a capacity equal to the stride still prefers it.
pub open spec fn binary_search_preferred(hint: Option<u64>, stride: nat) -> bool {
    hint matches Some(capacity) && capacity <= stride
}

/// What `find_with_hint` may answer for `x` in a sorted `s` under the capacity
/// hint `hint`: where jump search is used, its answer; where binary search
/// is, any position that holds an element equal to `x`.
pub open spec fn is_find_result<T: Ord>(
    s: Seq<T>,
    x: T,
    hint: Option<u64>,
    found: Option<usize>,
) -> bool {
    let stride = optimal_stride(s.len());
    &&& is_outcome(s, x, found)
    &&& !binary_search_preferred(hint, stride) ==> position(found) == jump_search(
        s,
        x,
        stride as int,
    )
}

/// Whether a search with stride `stride` should be a binary search, given
/// the capacity hint.
pub fn prefers_binary_search(hint: Option<u64>, stride: usize) -> (binary: bool)
    ensures
        binary == binary_search_preferred(hint, stride as nat),
{
    match hint {
        Some(capacity) => capacity <= stride as u64,
        None => false,
    }
}

/// `binary_search` of std's slices, on a sorted vector. As its documentation
/// says: `Ok` holds the position of an element equal to `item`, any one of
/// them where there are several; `Err` holds the position at which `item`
/// could be inserted with the order kept, and comes when no element equals
/// `item`, so that all before that position are less and all from it on
/// are greater.
#[verifier::external_body]
fn binary_search<T: Ord>(collection: &Vec<T>, item: &T) -> (answer: Result<usize, usize>)
    requires
        is_total_order::<T>(),
        sorted(collection@),
    ensures
        match answer {
            Ok(at) => at < collection@.len() && same(collection@[at as int], *item),
            Err(at) => {
                &&& at <= collection@.len()
                &&& forall|i: int| 0 <= i < at ==> below(#[trigger] collection@[i], *item)
                &&& forall|i: int|
                    at <= i < collection@.len() ==> below(*item, #[trigger] collection@[i])
            },
        },
{
    collection.binary_search(item)
}

/// `hint` is the capacity hint that a report of the processor's caches
/// gives: the least capacity among the level-two data caches that the report
/// lists, and nothing where the report is absent or lists no such cache.
pub open spec fn is_capacity_hint(report: Option<Vec<CacheGeometry>>, hint: Option<u64>) -> bool {
    match hint {
        Some(total) => report matches Some(caches) && is_smallest_capacity(
            caches@,
            HINT_LEVEL,
            CacheKind::Data,
            total as nat,
        ),
        None => report matches Some(caches) ==> none_serves(caches@, HINT_LEVEL, CacheKind::Data),
    }
}

/// The capacity hint that a report of the processor's caches gives.
pub fn capacity_hint(report: &Option<Vec<CacheGeometry>>) -> (hint: Option<u64>)
    ensures
        is_capacity_hint(*report, hint),
{
    match report {
        Some(caches) => smallest_capacity(caches, HINT_LEVEL, CacheKind::Data),
        None => None,
    }
}

/// The capacity hint of the machine: the hint that the report of its
/// processor gives. What the processor reports is not known before it is
/// asked, so the hint is tied to some report and to no particular one.
fn machine_capacity_hint() -> (hint: Option<u64>)
    ensures
        exists|report: Option<Vec<CacheGeometry>>| is_capacity_hint(report, hint),
{
    let report = read_cache_geometry();
    capacity_hint(&report)
}

/// Searches the sorted `collection` for `item`, by binary search where the
/// hint prefers it and by jump search otherwise.
pub fn find_with_hint<T: Ord>(collection: &Vec<T>, item: &T, hint: Option<u64>) -> (found: Option<
    usize,
>)
    requires
        is_total_order::<T>(),
        sorted(collection@),
    ensures
        is_find_result(collection@, *item, hint, found),
{
    let jump_size = get_optimal_jump_size(collection);
    if prefers_binary_search(hint, jump_size) {
        match binary_search(collection, item) {
            Ok(at) => Some(at),
            Err(_) => {
                proof {
                    assert forall|i: int| 0 <= i < collection@.len() implies !same(
                        #[trigger] collection@[i],
                        *item,
                    ) by {
                        lemma_trichotomy(collection@[i], *item);
                    }
                }
                None
            },
        }
    } else {
        find_jump_with_size(collection, item, jump_size)
    }
}

/// Searches the sorted `collection` for `item` with the strategy that suits
/// the caches of the machine. A machine that does not tell its caches gets
/// jump search.
pub fn find<T: Ord>(collection: &Vec<T>, item: &T) -> (found: Option<usize>)
    requires
        is_total_order::<T>(),
        sorted(collection@),
    ensures
        is_outcome(collection@, *item, found),
{
    find_with_hint(collection, item, machine_capacity_hint())
}

} // verus!
