//! 16.16 fixed-point scalars: the numeric carrier for all geometry.
//!
//! A coordinate of one pixel is `FX_ONE` units; normalized device
//! coordinates use the same scale, so `-FX_ONE..FX_ONE` spans the surface.
//! Division truncates toward zero, like Rust's `/` on signed integers.

use vstd::prelude::*;

verus! {

use vstd::arithmetic::div_mod::lemma_div_multiples_vanish;
use vstd::arithmetic::div_mod::lemma_div_is_ordered;

/// Fixed-point units per whole unit (16 fractional bits).
pub const FX_ONE: i64 = 65536;

/// Largest magnitude a caller-supplied coordinate or extent may have,
/// in fixed-point units (about 16 million pixels). Keeping inputs inside
/// this bound keeps every intermediate product of the assembler inside
/// `i64`.
pub const COORD_LIMIT: i64 = 0x100_0000_0000;

/// Truncating division (toward zero), the rounding used throughout the
/// geometry. For a non-negative dividend it agrees with Euclidean
/// division.
pub open spec fn div_trunc(a: int, d: int) -> int
    recommends
        d >= 1,
{
    if a >= 0 {
        a / d
    } else {
        -((-a) / d)
    }
}

/// `div_trunc` is exact on multiples: `(d * x) / d == x`.
pub proof fn lemma_div_trunc_exact(x: int, d: int)
    requires
        d >= 1,
    ensures
        div_trunc(d * x, d) == x,
{
    if x >= 0 {
        lemma_div_multiples_vanish(x, d);
    } else {
        lemma_div_multiples_vanish(-x, d);
        assert(-(d * x) == d * (-x)) by (nonlinear_arith);
    }
}

/// The magnitude of a truncated quotient is bounded by the magnitude of
/// the dividend divided by `d`, so in particular `|a| <= b * d` gives
/// `|div_trunc(a, d)| <= b`.
pub proof fn lemma_div_trunc_bound(a: int, d: int, b: int)
    requires
        d >= 1,
        b >= 0,
        -(b * d) <= a <= b * d,
    ensures
        -b <= div_trunc(a, d) <= b,
{
    lemma_div_multiples_vanish(b, d);
    if a >= 0 {
        lemma_div_is_ordered(a, b * d, d);
        lemma_div_is_ordered(0, a, d);
    } else {
        lemma_div_is_ordered(-a, b * d, d);
        lemma_div_is_ordered(0, -a, d);
    }
}

/// Truncating division of `a` by a positive divisor `d`, computed on
/// magnitudes so that both signs are covered by unsigned machine division.
pub fn fx_div(a: i64, d: i64) -> (q: i64)
    requires
        1 <= d,
        -0x4000_0000_0000_0000 <= a <= 0x4000_0000_0000_0000,
    ensures
        q == div_trunc(a as int, d as int),
{
    if a >= 0 {
        ((a as u64) / (d as u64)) as i64
    } else {
        let m: u64 = (-a) as u64;
        let neg_q: u64 = m / (d as u64);
        proof {
            lemma_div_is_ordered(neg_q as int, m as int, 1);
            assert(neg_q <= m) by {
                lemma_div_nonincreasing_u64(m, d as u64);
            }
        }
        -(neg_q as i64)
    }
}

proof fn lemma_div_nonincreasing_u64(x: u64, d: u64)
    requires
        d >= 1,
    ensures
        x as int / d as int <= x as int,
{
    vstd::arithmetic::div_mod::lemma_div_nonincreasing(x as int, d as int);
}

} // verus!
