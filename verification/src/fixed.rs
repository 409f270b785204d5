//! Fixed-point arithmetic in milli-units.
//!
//! One chart unit is `SCALE` milli-units. A ratio is also carried in
//! milli-units: `SCALE` stands for the ratio one. All scaling is done with
//! exact integer arithmetic, truncating toward zero.

use vstd::prelude::*;

verus! {

/// Milli-units in one chart unit; also the fixed-point ratio standing for one.
pub const SCALE: i64 = 1000;

/// Bound on the magnitude of every coordinate, radius and data value
/// (in milli-units) that enters the geometry.
pub const MAX_COORD: i64 = 1_000_000_000;

/// Bound on the products that [`milli_scale`] accepts; wide enough for a
/// chord length (at most `2 * MAX_COORD` on each axis) times a ratio.
pub const MAX_PRODUCT: i64 = 4_000_000_000_000;

/// Magnitude bound on a data value in milli-units; wide enough for any
/// chart and narrow enough that every derived product fits in an `i64`.
pub const MAX_VALUE: i64 = 1_000_000_000_000_000;

/// The product `a * u` scaled down by `SCALE`, truncating toward zero.
/// This is the meaning of "multiply by the fixed-point factor `u / SCALE`".
pub open spec fn spec_milli_scale(a: int, u: int) -> int {
    if a * u >= 0 {
        (a * u) / (SCALE as int)
    } else {
        -((-(a * u)) / (SCALE as int))
    }
}

/// The ratio `value / max_value` clamped into `[0, 1]`, in milli-units:
/// `0` at or below zero, `SCALE` at or above `max_value`, and the exact
/// truncated quotient in between.
pub open spec fn spec_clamp_ratio(value: int, max_value: int) -> int {
    if value <= 0 {
        0
    } else if value >= max_value {
        SCALE as int
    } else {
        value * (SCALE as int) / max_value
    }
}

/// The radius at which a data value renders: the outer radius scaled by the
/// clamped ratio of the value against the scale maximum.
pub open spec fn spec_scaled_radius(radius: int, value: int, max_value: int) -> int {
    spec_milli_scale(radius, spec_clamp_ratio(value, max_value))
}

/// Scaling by a factor of magnitude at most one cannot grow the magnitude
/// of the scaled quantity.
pub proof fn lemma_milli_scale_unit_bound(a: int, u: int)
    requires
        -(SCALE as int) <= u <= SCALE as int,
    ensures
        a >= 0 ==> -a <= spec_milli_scale(a, u) <= a,
        a < 0 ==> a <= spec_milli_scale(a, u) <= -a,
{
    let p = a * u;
    let m = if a >= 0 {
        a
    } else {
        -a
    };
    assert(-(m * (SCALE as int)) <= p <= m * (SCALE as int)) by (nonlinear_arith)
        requires
            -(SCALE as int) <= u <= SCALE as int,
            p == a * u,
            m == (if a >= 0 {
                a
            } else {
                -a
            }),
    ;
    assert(m * (SCALE as int) / (SCALE as int) == m) by (nonlinear_arith)
        requires
            m >= 0,
    ;
    if p >= 0 {
        assert(p / (SCALE as int) <= m * (SCALE as int) / (SCALE as int)) by (nonlinear_arith)
            requires
                0 <= p <= m * (SCALE as int),
        ;
        assert(p / (SCALE as int) >= 0) by (nonlinear_arith)
            requires
                p >= 0,
        ;
    } else {
        assert((-p) / (SCALE as int) <= m * (SCALE as int) / (SCALE as int)) by (nonlinear_arith)
            requires
                0 <= -p <= m * (SCALE as int),
        ;
        assert((-p) / (SCALE as int) >= 0) by (nonlinear_arith)
            requires
                -p >= 0,
        ;
    }
}

/// Multiplies `a` by the fixed-point factor `u / SCALE`, truncating toward zero.
pub fn milli_scale(a: i64, u: i64) -> (r: i64)
    requires
        -MAX_PRODUCT <= a * u <= MAX_PRODUCT,
    ensures
        r == spec_milli_scale(a as int, u as int),
        -MAX_PRODUCT <= r <= MAX_PRODUCT,
{
    let p: i64 = a * u;
    if p >= 0 {
        ((p as u64) / (SCALE as u64)) as i64
    } else {
        let q: u64 = ((-p) as u64) / (SCALE as u64);
        -(q as i64)
    }
}

/// Clamps `value / max_value` into `[0, 1]` and returns it in milli-units.
pub fn clamp_ratio(value: i64, max_value: i64) -> (r: i64)
    requires
        0 < max_value <= MAX_VALUE,
    ensures
        r == spec_clamp_ratio(value as int, max_value as int),
        0 <= r <= SCALE,
{
    if value <= 0 {
        0
    } else if value >= max_value {
        SCALE
    } else {
        proof {
            assert(value * (SCALE as int) / (max_value as int) < SCALE) by (nonlinear_arith)
                requires
                    0 < value < max_value,
            ;
            assert(0 <= value * (SCALE as int) <= MAX_VALUE * (SCALE as int)) by (nonlinear_arith)
                requires
                    0 < value <= MAX_VALUE,
            ;
        }
        let num: u64 = (value as u64) * (SCALE as u64);
        (num / (max_value as u64)) as i64
    }
}

/// The radius at which a data value renders, see [`spec_scaled_radius`].
pub fn scaled_radius(radius: i64, value: i64, max_value: i64) -> (r: i64)
    requires
        0 <= radius <= MAX_COORD,
        0 < max_value <= MAX_VALUE,
    ensures
        r == spec_scaled_radius(radius as int, value as int, max_value as int),
        0 <= r <= radius,
{
    let ratio: i64 = clamp_ratio(value, max_value);
    proof {
        assert(0 <= radius * ratio <= MAX_PRODUCT) by (nonlinear_arith)
            requires
                0 <= radius <= MAX_COORD,
                0 <= ratio <= SCALE as int,
        ;
        lemma_milli_scale_unit_bound(radius as int, ratio as int);
    }
    milli_scale(radius, ratio)
}

/// A value at or above the scale maximum renders exactly at the outer radius,
/// a value at or below zero renders exactly at the center, and in particular
/// twice the maximum renders at the same radius as the maximum itself:
/// saturation never overshoots the grid boundary.
pub proof fn lemma_clamp_saturates(radius: int, value: int, max_value: int)
    requires
        0 <= radius,
        0 < max_value,
    ensures
        value >= max_value ==> spec_scaled_radius(radius, value, max_value) == radius,
        value <= 0 ==> spec_scaled_radius(radius, value, max_value) == 0,
        spec_scaled_radius(radius, 2 * max_value, max_value) == spec_scaled_radius(
            radius,
            max_value,
            max_value,
        ),
{
    assert(radius * (SCALE as int) >= 0) by (nonlinear_arith)
        requires
            0 <= radius,
    ;
    assert(radius * (SCALE as int) / (SCALE as int) == radius) by (nonlinear_arith)
        requires
            0 <= radius,
    ;
    assert(radius * 0 == 0) by (nonlinear_arith);
}

} // verus!
