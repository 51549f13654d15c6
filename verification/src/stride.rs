//! The stride of a jump search: the integer square root of the length.

use vstd::prelude::*;

verus! {

/// `root` is the integer square root of `n`: the largest number whose square
/// does not exceed `n`.
pub open spec fn is_floor_sqrt(n: nat, root: nat) -> bool {
    root * root <= n < (root + 1) * (root + 1)
}

/// The integer square root of `n`.
pub open spec fn floor_sqrt(n: nat) -> nat {
    choose|root: nat| is_floor_sqrt(n, root)
}

/// The stride that a jump search over `len` elements uses: the integer square
/// root of `len`, except that a sequence of fewer than two elements gets the
/// stride 0 and is scanned in one pass.
pub open spec fn optimal_stride(len: nat) -> nat {
    if len <= 1 {
        0
    } else {
        floor_sqrt(len)
    }
}

/// A number has at most one integer square root.
pub proof fn lemma_floor_sqrt_unique(n: nat, a: nat, b: nat)
    requires
        is_floor_sqrt(n, a),
        is_floor_sqrt(n, b),
    ensures
        a == b,
{
    if a < b {
        assert((a + 1) * (a + 1) <= b * b) by (nonlinear_arith)
            requires
                a + 1 <= b,
        ;
    }
    if b < a {
        assert((b + 1) * (b + 1) <= a * a) by (nonlinear_arith)
            requires
                b + 1 <= a,
        ;
    }
}

/// Every number has an integer square root, and `floor_sqrt` names it.
pub proof fn lemma_floor_sqrt_exists(n: nat)
    ensures
        is_floor_sqrt(n, floor_sqrt(n)),
    decreases n,
{
    if n == 0 {
        assert(is_floor_sqrt(0, 0)) by (nonlinear_arith);
    } else {
        let below = (n - 1) as nat;
        lemma_floor_sqrt_exists(below);
        let r = floor_sqrt(below);
        if (r + 1) * (r + 1) <= n {
            assert((r + 2) * (r + 2) > (r + 1) * (r + 1)) by (nonlinear_arith);
            assert(is_floor_sqrt(n, r + 1));
        } else {
            assert(is_floor_sqrt(n, r));
        }
    }
}

/// The stride for a sequence of `len` elements.
pub fn jump_size(len: usize) -> (stride: usize)
    ensures
        stride == optimal_stride(len as nat),
{
    if len <= 1 {
        return 0;
    }
    let mut low: usize = 1;
    let mut high: usize = len;
    assert(len * len > len) by (nonlinear_arith)
        requires
            len >= 2,
    ;
    while high - low > 1
        invariant
            1 <= low < high <= len,
            low * low <= len < high * high,
        decreases high - low,
    {
        let mid: usize = low + (high - low) / 2;
        assert(mid * mid <= u128::MAX) by (nonlinear_arith)
            requires
                mid <= u64::MAX,
        ;
        let square: u128 = (mid as u128) * (mid as u128);
        if square <= len as u128 {
            low = mid;
        } else {
            high = mid;
        }
    }
    proof {
        assert(is_floor_sqrt(len as nat, low as nat));
        lemma_floor_sqrt_exists(len as nat);
        lemma_floor_sqrt_unique(len as nat, low as nat, floor_sqrt(len as nat));
    }
    low
}

/// The stride for a jump search over `collection`.
pub fn get_optimal_jump_size<T>(collection: &Vec<T>) -> (stride: usize)
    ensures
        stride == optimal_stride(collection@.len()),
{
    jump_size(collection.len())
}

} // verus!
