//! Axis angles.
//!
//! With `n` axes, axis `i` sits at `-90° + i * 360° / n`: the first axis
//! points straight up and the rest follow clockwise. The quotient
//! `360 / n` is rarely a whole number of degrees, so an angle is kept as
//! an exact rational: `num / den` degrees with `den == n`.

use vstd::prelude::*;

verus! {

/// Most axes a chart accepts; keeps every angle numerator small.
pub const MAX_AXES: usize = 100_000;

/// An angle in degrees, as the exact rational `num / den`.
#[derive(Clone, Copy, PartialEq, Eq, Structural, Debug)]
pub struct AxisAngle {
    pub num: i64,
    pub den: i64,
}

/// The numerator of the angle of axis `i` among `n`, over denominator `n`:
/// `(-90 + i * 360 / n)` degrees written as `(-90 * n + 360 * i) / n`.
pub open spec fn spec_axis_angle_num(i: int, n: int) -> int {
    -90 * n + 360 * i
}

/// The angle of axis `i` among `n` axes.
pub fn axis_angle(i: usize, n: usize) -> (a: AxisAngle)
    requires
        1 <= n <= MAX_AXES,
        i <= n,
    ensures
        a.num == spec_axis_angle_num(i as int, n as int),
        a.den == n,
{
    AxisAngle { num: -90 * (n as i64) + 360 * (i as i64), den: n as i64 }
}

/// Axis angles are evenly spaced by `360° / n`, starting at `-90°`: axis `0`
/// sits at exactly `-90°`, and each step adds exactly `360 / n` degrees
/// (numerators a fixed `360` apart over the common denominator `n`).
pub proof fn lemma_axis_angles_evenly_spaced(i: int, n: int)
    requires
        1 <= n,
        0 <= i < n,
    ensures
        spec_axis_angle_num(0, n) == -90 * n,
        spec_axis_angle_num(i + 1, n) - spec_axis_angle_num(i, n) == 360,
{
}

} // verus!
