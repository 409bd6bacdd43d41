//! Fixed-point trigonometry for rotation about a centroid.
//!
//! Angles are taken in millidegrees and reduced modulo one full turn, so
//! rotation is periodic by construction. The sine on a half turn uses
//! Bhaskara I's rational approximation, which is exact at 0, 30, 90, 150
//! and 180 degrees and within a fraction of a percent elsewhere — ample
//! for assembling screen-space triangles, and free of floating point.

use vstd::prelude::*;

verus! {

use crate::fixed::div_trunc;
use vstd::arithmetic::div_mod::{
    lemma_fundamental_div_mod,
    lemma_fundamental_div_mod_converse,
    lemma_mod_add_multiples_vanish,
    lemma_div_multiples_vanish,
    lemma_div_is_ordered,
    lemma_mod_division_less_than_divisor,
};

/// Millidegrees in one full turn.
pub const MILLIDEG_TURN: u64 = 360_000;

/// Millidegrees in half a turn.
pub const MILLIDEG_HALF: u64 = 180_000;

/// Millidegrees in a quarter turn.
pub const MILLIDEG_QUARTER: i64 = 90_000;

/// An angle reduced to `[0, 360000)` by Euclidean remainder.
pub open spec fn reduced_millideg(a: int) -> int {
    a % 360000
}

/// Bhaskara I's sine on `[0, 180000]` millidegrees, scaled to `FX_ONE`:
/// `sin(m) = FX_ONE * 4m(180000 - m) / (40500e6 - m(180000 - m))`.
pub open spec fn sin_half_turn(m: int) -> int
    recommends
        0 <= m <= 180000,
{
    (4 * (m * (180000 - m)) * 65536) / (40_500_000_000 - m * (180000 - m))
}

/// Sine of a reduced angle, scaled to `FX_ONE`: the second half turn is
/// the negated first.
pub open spec fn sin_reduced(m: int) -> int
    recommends
        0 <= m < 360000,
{
    if m < 180000 {
        sin_half_turn(m)
    } else {
        -sin_half_turn(m - 180000)
    }
}

/// Sine of an arbitrary angle in millidegrees, scaled to `FX_ONE`.
pub open spec fn sin_millideg(a: int) -> int {
    sin_reduced(reduced_millideg(a))
}

/// Cosine as the sine shifted a quarter turn.
pub open spec fn cos_millideg(a: int) -> int {
    sin_millideg(a + 90000)
}

/// A 2x2 rotation matrix, determined by the fixed-point cosine and sine
/// of its angle.
#[derive(Clone, Copy, Debug, PartialEq, Eq, Structural)]
pub struct Rotation {
    pub cos: i64,
    pub sin: i64,
}

impl Rotation {
    /// Both entries are honest fixed-point values in `[-FX_ONE, FX_ONE]`.
    pub open spec fn wf(self) -> bool {
        &&& -65536 <= self.cos <= 65536
        &&& -65536 <= self.sin <= 65536
    }
}

/// The rotation a given angle denotes.
pub open spec fn spec_rotation(a: int) -> Rotation {
    Rotation { cos: cos_millideg(a) as i64, sin: sin_millideg(a) as i64 }
}

/// Reduces an angle in millidegrees to its Euclidean remainder in
/// `[0, 360000)`, working on magnitudes so that only unsigned machine
/// arithmetic is needed.
pub fn reduce_millideg(a: i64) -> (r: u64)
    requires
        a > i64::MIN,
    ensures
        r == reduced_millideg(a as int),
        r < 360000,
{
    if a >= 0 {
        let r = (a as u64) % MILLIDEG_TURN;
        proof {
            lemma_mod_u64_matches(a as u64, 360000);
        }
        r
    } else {
        let m: u64 = ((-a) as u64) % MILLIDEG_TURN;
        proof {
            lemma_mod_u64_matches((-a) as u64, 360000);
            lemma_neg_mod(a as int, m as int);
        }
        if m == 0 {
            0
        } else {
            MILLIDEG_TURN - m
        }
    }
}

proof fn lemma_mod_u64_matches(x: u64, d: u64)
    requires
        d >= 1,
    ensures
        (x % d) as int == (x as int) % (d as int),
{
}

/// For `a < 0` with `m == (-a) % 360000`: the Euclidean remainder of `a`
/// is `0` when `m == 0` and `360000 - m` otherwise.
proof fn lemma_neg_mod(a: int, m: int)
    requires
        a < 0,
        m == (-a) % 360000,
    ensures
        m == 0 ==> a % 360000 == 0,
        m != 0 ==> a % 360000 == 360000 - m,
{
    let q = (-a) / 360000;
    lemma_fundamental_div_mod(-a, 360000);
    assert(-a == 360000 * q + m);
    if m == 0 {
        assert(a == 360000 * (-q)) by (nonlinear_arith)
            requires
                -a == 360000 * q,
        ;
        lemma_fundamental_div_mod_converse(a, 360000, -q, 0);
    } else {
        lemma_mod_division_less_than_divisor(-a, 360000);
        assert(a == 360000 * (-q - 1) + (360000 - m)) by (nonlinear_arith)
            requires
                -a == 360000 * q + m,
        ;
        lemma_fundamental_div_mod_converse(a, 360000, -q - 1, 360000 - m);
    }
}

/// Bhaskara's sine on the first half turn; the result is a fixed-point
/// value in `[0, FX_ONE]`.
pub fn sin_half(m: u64) -> (s: u64)
    requires
        m <= 180_000,
    ensures
        s == sin_half_turn(m as int),
        s <= 65536,
{
    proof {
        lemma_half_turn_product_bound(m as int);
    }
    let p: u64 = m * (180_000 - m);
    let num: u64 = 4 * p * 65536;
    let den: u64 = 40_500_000_000 - p;
    let s = num / den;
    proof {
        lemma_mod_u64_matches(num, den);
        assert(num as int / den as int <= 65536) by {
            // num <= 65536 * den because 4p <= 40500e6 - p.
            lemma_div_multiples_vanish(65536, den as int);
            lemma_div_is_ordered(num as int, 65536 * den, den as int);
        }
    }
    s
}

/// `m * (180000 - m)` peaks at the quarter turn: it never exceeds
/// `8_100_000_000`, so Bhaskara's denominator stays positive and large.
proof fn lemma_half_turn_product_bound(m: int)
    requires
        0 <= m <= 180000,
    ensures
        0 <= m * (180000 - m) <= 8_100_000_000,
{
    assert(0 <= m * (180000 - m) <= 8_100_000_000) by (nonlinear_arith)
        requires
            0 <= m <= 180000,
    ;
}

/// Sine of an arbitrary angle in millidegrees, as a fixed-point value.
pub fn sin_fx(a: i64) -> (s: i64)
    requires
        a > i64::MIN,
    ensures
        s == sin_millideg(a as int),
        -65536 <= s <= 65536,
{
    let m = reduce_millideg(a);
    if m < MILLIDEG_HALF {
        sin_half(m) as i64
    } else {
        -(sin_half(m - MILLIDEG_HALF) as i64)
    }
}

/// Cosine of an arbitrary angle in millidegrees, as a fixed-point value.
pub fn cos_fx(a: i64) -> (c: i64)
    requires
        a > i64::MIN,
        a <= i64::MAX - 90_000,
    ensures
        c == cos_millideg(a as int),
        -65536 <= c <= 65536,
{
    sin_fx(a + MILLIDEG_QUARTER)
}

/// The rotation matrix of an angle given in millidegrees.
pub fn rotation_from_millidegrees(a: i64) -> (r: Rotation)
    requires
        a > i64::MIN,
        a <= i64::MAX - 90_000,
    ensures
        r == spec_rotation(a as int),
        r.wf(),
{
    Rotation { cos: cos_fx(a), sin: sin_fx(a) }
}

/// Where a rotated point lands: the matrix row `(cos, -sin)` applied to
/// `(x, y)`, scaled back down by `FX_ONE`.
pub open spec fn rotate_x(rot: Rotation, x: int, y: int) -> int {
    div_trunc(rot.cos * x - rot.sin * y, 65536)
}

/// The matrix row `(sin, cos)` applied to `(x, y)`, scaled back down.
pub open spec fn rotate_y(rot: Rotation, x: int, y: int) -> int {
    div_trunc(rot.sin * x + rot.cos * y, 65536)
}

/// Applies a rotation matrix to a point given relative to the rotation
/// center; the result stays within twice the input range.
pub fn rotate_point(rot: Rotation, x: i64, y: i64) -> (p: (i64, i64))
    requires
        rot.wf(),
        -0x200_0000_0000 <= x <= 0x200_0000_0000,
        -0x200_0000_0000 <= y <= 0x200_0000_0000,
    ensures
        p.0 == rotate_x(rot, x as int, y as int),
        p.1 == rotate_y(rot, x as int, y as int),
        -0x400_0000_0000 <= p.0 <= 0x400_0000_0000,
        -0x400_0000_0000 <= p.1 <= 0x400_0000_0000,
{
    proof {
        lemma_rotate_terms_bounded(rot, x as int, y as int);
    }
    let xs: i64 = rot.cos * x - rot.sin * y;
    let ys: i64 = rot.sin * x + rot.cos * y;
    let px = crate::fixed::fx_div(xs, 65536);
    let py = crate::fixed::fx_div(ys, 65536);
    proof {
        crate::fixed::lemma_div_trunc_bound(xs as int, 65536, 0x400_0000_0000);
        crate::fixed::lemma_div_trunc_bound(ys as int, 65536, 0x400_0000_0000);
    }
    (px, py)
}

/// Each matrix entry has magnitude at most `FX_ONE`, so both linear
/// combinations stay within `2 * FX_ONE * COORD_LIMIT`.
proof fn lemma_rotate_terms_bounded(rot: Rotation, x: int, y: int)
    requires
        rot.wf(),
        -0x200_0000_0000 <= x <= 0x200_0000_0000,
        -0x200_0000_0000 <= y <= 0x200_0000_0000,
    ensures
        -0x200_0000_0000 * 65536 <= rot.cos * x <= 0x200_0000_0000 * 65536,
        -0x200_0000_0000 * 65536 <= rot.sin * y <= 0x200_0000_0000 * 65536,
        -0x200_0000_0000 * 65536 <= rot.sin * x <= 0x200_0000_0000 * 65536,
        -0x200_0000_0000 * 65536 <= rot.cos * y <= 0x200_0000_0000 * 65536,
        -0x400_0000_0000 * 65536 <= rot.cos * x - rot.sin * y <= 0x400_0000_0000 * 65536,
        -0x400_0000_0000 * 65536 <= rot.sin * x + rot.cos * y <= 0x400_0000_0000 * 65536,
{
    assert(-0x200_0000_0000 * 65536 <= rot.cos * x <= 0x200_0000_0000 * 65536) by (nonlinear_arith)
        requires
            -65536 <= rot.cos <= 65536,
            -0x200_0000_0000 <= x <= 0x200_0000_0000,
    ;
    assert(-0x200_0000_0000 * 65536 <= rot.sin * y <= 0x200_0000_0000 * 65536) by (nonlinear_arith)
        requires
            -65536 <= rot.sin <= 65536,
            -0x200_0000_0000 <= y <= 0x200_0000_0000,
    ;
    assert(-0x200_0000_0000 * 65536 <= rot.sin * x <= 0x200_0000_0000 * 65536) by (nonlinear_arith)
        requires
            -65536 <= rot.sin <= 65536,
            -0x200_0000_0000 <= x <= 0x200_0000_0000,
    ;
    assert(-0x200_0000_0000 * 65536 <= rot.cos * y <= 0x200_0000_0000 * 65536) by (nonlinear_arith)
        requires
            -65536 <= rot.cos <= 65536,
            -0x200_0000_0000 <= y <= 0x200_0000_0000,
    ;
}

/// Rotation is periodic: a full turn more denotes the same matrix.
pub proof fn lemma_rotation_full_turn(a: int)
    ensures
        spec_rotation(a + 360000) == spec_rotation(a),
{
    lemma_mod_add_multiples_vanish(a, 360000);
    lemma_mod_add_multiples_vanish(a + 90000, 360000);
    assert(reduced_millideg(a + 360000) == reduced_millideg(a));
    assert((a + 360000 + 90000) % 360000 == (a + 90000) % 360000);
}

/// The zero angle denotes the identity matrix: cosine `FX_ONE`, sine `0`.
pub proof fn lemma_rotation_zero_is_identity()
    ensures
        spec_rotation(0) == (Rotation { cos: 65536 as i64, sin: 0 as i64 }),
{
    assert(reduced_millideg(0) == 0);
    assert(reduced_millideg(90000) == 90000);
    assert(sin_half_turn(0) == 0);
    // sin(90000): the quarter-turn product is exactly 8_100_000_000 and
    // Bhaskara's quotient collapses to FX_ONE.
    assert(90000 * (180000 - 90000) == 8_100_000_000);
    assert(4 * 8_100_000_000 * 65536 == 65536 * (40_500_000_000 - 8_100_000_000));
    lemma_div_multiples_vanish(65536, 40_500_000_000 - 8_100_000_000);
    assert(sin_half_turn(90000) == 65536);
}

} // verus!
