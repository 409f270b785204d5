//! Integer square roots, for chord lengths.

use vstd::prelude::*;

verus! {

/// `r` is the floor of the square root of `x`.
pub open spec fn is_sqrt_floor(x: int, r: int) -> bool {
    0 <= r && r * r <= x && x < (r + 1) * (r + 1)
}

/// The floor of the square root of `x`: for `x >= 0` an integer
/// satisfying [`is_sqrt_floor`] exists ([`lemma_sqrt_exists`]) and only
/// one does ([`lemma_sqrt_floor_is`]).
pub open spec fn sqrt_floor(x: int) -> int {
    choose|r: int| #[trigger] is_sqrt_floor(x, r)
}

/// Every nonnegative integer has a square-root floor.
pub proof fn lemma_sqrt_exists(x: int)
    requires
        0 <= x,
    ensures
        exists|r: int| #[trigger] is_sqrt_floor(x, r),
    decreases x,
{
    if x == 0 {
        assert(is_sqrt_floor(0, 0));
    } else {
        lemma_sqrt_exists(x - 1);
        let r = choose|r: int| #[trigger] is_sqrt_floor(x - 1, r);
        if (r + 1) * (r + 1) <= x {
            assert((r + 1) * (r + 1) < (r + 2) * (r + 2)) by (nonlinear_arith)
                requires
                    r >= 0,
            ;
            assert(is_sqrt_floor(x, r + 1));
        } else {
            assert(is_sqrt_floor(x, r));
        }
    }
}

/// A value satisfying the square-root-floor characterization is the
/// square-root floor: the characterization pins a single integer down.
pub proof fn lemma_sqrt_floor_is(x: int, r: int)
    requires
        is_sqrt_floor(x, r),
    ensures
        sqrt_floor(x) == r,
{
    let c = sqrt_floor(x);
    assert(is_sqrt_floor(x, c));
    if r < c {
        assert((r + 1) * (r + 1) <= c * c) by (nonlinear_arith)
            requires
                0 <= r + 1 <= c,
        ;
    }
    if c < r {
        assert((c + 1) * (c + 1) <= r * r) by (nonlinear_arith)
            requires
                0 <= c + 1 <= r,
        ;
    }
}

/// The floor of the square root of `x`, by binary search.
pub fn isqrt(x: u64) -> (r: u64)
    requires
        x <= 0x7fff_ffff_ffff_ffff,
    ensures
        is_sqrt_floor(x as int, r as int),
        r == sqrt_floor(x as int),
        r <= 3_037_000_499,
{
    let mut lo: u64 = 0;
    let mut hi: u64 = 3_037_000_500;
    proof {
        assert(3_037_000_500 * 3_037_000_500 > 0x7fff_ffff_ffff_ffff) by (nonlinear_arith);
    }
    while lo + 1 < hi
        invariant
            x <= 0x7fff_ffff_ffff_ffff,
            lo < hi <= 3_037_000_500,
            lo * lo <= x,
            x < hi * hi,
        decreases hi - lo,
    {
        let mid: u64 = lo + (hi - lo) / 2;
        proof {
            assert(mid * mid <= 3_037_000_500 * 3_037_000_500) by (nonlinear_arith)
                requires
                    0 <= mid <= 3_037_000_500,
            ;
            assert(3_037_000_500 * 3_037_000_500 <= u64::MAX) by (nonlinear_arith);
        }
        if mid * mid <= x {
            lo = mid;
        } else {
            hi = mid;
        }
    }
    proof {
        lemma_sqrt_floor_is(x as int, lo as int);
    }
    lo
}

} // verus!
