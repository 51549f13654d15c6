//! The order on the elements, as the contracts of the searches speak of it.

use core::cmp::Ordering;
use vstd::laws_cmp::{
    obeys_cmp, obeys_cmp_ord, obeys_cmp_partial_ord, obeys_partial_cmp_spec_properties,
};
use vstd::laws_eq::obeys_eq_spec_properties;
use vstd::prelude::*;
use vstd::std_specs::cmp::{PartialEqSpec, PartialOrdSpec};

verus! {

/// The comparisons of `T` form a total order, `==` on `T` holds of exactly the
/// pairs that the order does not separate, and the operators compute what
/// their specifications say.
pub open spec fn is_total_order<T: Ord>() -> bool {
    obeys_cmp::<T>()
}

/// `a == b`, as `T` decides it.
pub open spec fn same<T: Ord>(a: T, b: T) -> bool {
    a.eq_spec(&b)
}

/// `a < b`, as `T` decides it.
pub open spec fn below<T: Ord>(a: T, b: T) -> bool {
    a.partial_cmp_spec(&b) == Some(Ordering::Less)
}

/// `a > b`, as `T` decides it.
pub open spec fn above<T: Ord>(a: T, b: T) -> bool {
    a.partial_cmp_spec(&b) == Some(Ordering::Greater)
}

/// Ascending order: no element is less than one that stands before it.
pub open spec fn sorted<T: Ord>(s: Seq<T>) -> bool {
    forall|i: int, j: int| 0 <= i <= j < s.len() ==> !below(s[j], s[i])
}

/// The operators `==`, `<` and `>` of `T` compute `same`, `below` and `above`.
pub proof fn lemma_operators_compute<T: Ord>()
    requires
        is_total_order::<T>(),
    ensures
        T::obeys_eq_spec(),
        T::obeys_partial_cmp_spec(),
{
    reveal(obeys_cmp_partial_ord);
}

/// Of `a < b`, `a == b` and `b < a` exactly one holds; `==` is symmetric, and
/// `a > b` says that `b < a`.
pub proof fn lemma_trichotomy<T: Ord>(a: T, b: T)
    requires
        is_total_order::<T>(),
    ensures
        below(a, b) || same(a, b) || below(b, a),
        !(below(a, b) && same(a, b)),
        !(below(b, a) && same(a, b)),
        !(below(a, b) && below(b, a)),
        same(a, b) == same(b, a),
        above(a, b) == below(b, a),
{
    reveal(obeys_cmp_partial_ord);
    reveal(obeys_cmp_ord);
    reveal(obeys_partial_cmp_spec_properties);
    reveal(obeys_eq_spec_properties);
}

/// `a <= b` and `b < c` give `a < c`.
pub proof fn lemma_below_after_at_most<T: Ord>(a: T, b: T, c: T)
    requires
        is_total_order::<T>(),
        !below(b, a),
        below(b, c),
    ensures
        below(a, c),
{
    lemma_trichotomy(a, b);
    lemma_trichotomy(a, c);
    lemma_trichotomy(b, c);
    reveal(obeys_partial_cmp_spec_properties);
    reveal(obeys_eq_spec_properties);
}

/// `a < b` and `b <= c` give `a < c`.
pub proof fn lemma_below_before_at_most<T: Ord>(a: T, b: T, c: T)
    requires
        is_total_order::<T>(),
        below(a, b),
        !below(c, b),
    ensures
        below(a, c),
{
    lemma_trichotomy(b, c);
    lemma_trichotomy(a, c);
    lemma_trichotomy(a, b);
    reveal(obeys_partial_cmp_spec_properties);
    reveal(obeys_eq_spec_properties);
}

/// In a sorted sequence, whatever stands at or before an element less than `x`
/// is less than `x`.
pub proof fn lemma_sorted_prefix_below<T: Ord>(s: Seq<T>, x: T, at: int)
    requires
        is_total_order::<T>(),
        sorted(s),
        0 <= at < s.len(),
        below(s[at], x),
    ensures
        forall|i: int| 0 <= i <= at ==> below(#[trigger] s[i], x),
{
    assert forall|i: int| 0 <= i <= at implies below(#[trigger] s[i], x) by {
        lemma_below_after_at_most(s[i], s[at], x);
    }
}

/// In a sorted sequence, whatever stands at or after an element greater than
/// `x` is greater than `x`.
pub proof fn lemma_sorted_suffix_above<T: Ord>(s: Seq<T>, x: T, at: int)
    requires
        is_total_order::<T>(),
        sorted(s),
        0 <= at < s.len(),
        below(x, s[at]),
    ensures
        forall|i: int| at <= i < s.len() ==> below(x, #[trigger] s[i]),
{
    assert forall|i: int| at <= i < s.len() implies below(x, #[trigger] s[i]) by {
        lemma_below_before_at_most(x, s[at], s[i]);
    }
}

} // verus!
