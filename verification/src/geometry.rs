//! Polar-to-Cartesian projection.
//!
//! Screen coordinates: `x` grows to the right, `y` grows downward. A
//! direction is a cosine/sine pair in milli-units, so the angle convention
//! is fixed once here and every builder shares it: at angle `-90°` the
//! direction is `(0, -SCALE)`, straight up.

use vstd::prelude::*;

use crate::fixed::MAX_COORD;
use crate::fixed::MAX_PRODUCT;
use crate::fixed::SCALE;
use crate::fixed::milli_scale;
use crate::fixed::spec_milli_scale;
use crate::fixed::lemma_milli_scale_unit_bound;

verus! {

/// A point or displacement in milli-units of screen space.
#[derive(Clone, Copy, PartialEq, Eq, Structural, Debug)]
pub struct Vec2 {
    pub x: i64,
    pub y: i64,
}

/// A direction: the cosine and sine of its angle, in milli-units.
#[derive(Clone, Copy, PartialEq, Eq, Structural, Debug)]
pub struct UnitDir {
    pub ux: i64,
    pub uy: i64,
}

/// Both components of `p` have magnitude at most `b`.
pub open spec fn vec2_bounded(p: Vec2, b: int) -> bool {
    -b <= p.x <= b && -b <= p.y <= b
}

/// A well-formed point: inside the coordinate bound.
pub open spec fn vec2_wf(p: Vec2) -> bool {
    vec2_bounded(p, MAX_COORD as int)
}

/// A well-formed direction: each component has magnitude at most `SCALE`,
/// as a cosine/sine pair scaled by `SCALE` does.
pub open spec fn dir_wf(d: UnitDir) -> bool {
    -(SCALE as int) <= d.ux <= SCALE as int && -(SCALE as int) <= d.uy <= SCALE as int
}

/// The projection of a polar position: the center displaced by `radius`
/// along `dir`, each axis scaled by the fixed-point factor.
pub open spec fn spec_polar(radius: int, dir: UnitDir, center: Vec2) -> Vec2 {
    Vec2 {
        x: (center.x + spec_milli_scale(radius, dir.ux as int)) as i64,
        y: (center.y + spec_milli_scale(radius, dir.uy as int)) as i64,
    }
}

/// Converts polar coordinates to Cartesian coordinates.
pub fn polar_to_cartesian(radius: i64, dir: UnitDir, center: Vec2) -> (p: Vec2)
    requires
        0 <= radius <= MAX_COORD,
        dir_wf(dir),
        vec2_wf(center),
    ensures
        p == spec_polar(radius as int, dir, center),
        vec2_bounded(p, 2 * MAX_COORD as int),
        center.x - radius <= p.x <= center.x + radius,
        center.y - radius <= p.y <= center.y + radius,
{
    proof {
        assert(-MAX_PRODUCT <= radius * dir.ux <= MAX_PRODUCT) by (nonlinear_arith)
            requires
                0 <= radius <= MAX_COORD,
                -(SCALE as int) <= dir.ux <= SCALE as int,
        ;
        assert(-MAX_PRODUCT <= radius * dir.uy <= MAX_PRODUCT) by (nonlinear_arith)
            requires
                0 <= radius <= MAX_COORD,
                -(SCALE as int) <= dir.uy <= SCALE as int,
        ;
        lemma_milli_scale_unit_bound(radius as int, dir.ux as int);
        lemma_milli_scale_unit_bound(radius as int, dir.uy as int);
    }
    let dx: i64 = milli_scale(radius, dir.ux);
    let dy: i64 = milli_scale(radius, dir.uy);
    Vec2 { x: center.x + dx, y: center.y + dy }
}

/// The direction turned a quarter turn clockwise on screen (angle plus 90
/// degrees): the tangent direction leaving a point of the curve.
pub open spec fn spec_rot_quarter(d: UnitDir) -> UnitDir {
    UnitDir { ux: (-(d.uy as int)) as i64, uy: d.ux }
}

/// The direction turned a quarter turn counterclockwise on screen (angle
/// minus 90 degrees): the tangent direction arriving at a point of the curve.
pub open spec fn spec_rot_back_quarter(d: UnitDir) -> UnitDir {
    UnitDir { ux: d.uy, uy: (-(d.ux as int)) as i64 }
}

/// Turns a direction by a quarter turn, angle plus 90 degrees.
pub fn rot_quarter(d: UnitDir) -> (r: UnitDir)
    requires
        dir_wf(d),
    ensures
        r == spec_rot_quarter(d),
        dir_wf(r),
{
    UnitDir { ux: -d.uy, uy: d.ux }
}

/// Turns a direction by a quarter turn, angle minus 90 degrees.
pub fn rot_back_quarter(d: UnitDir) -> (r: UnitDir)
    requires
        dir_wf(d),
    ensures
        r == spec_rot_back_quarter(d),
        dir_wf(r),
{
    UnitDir { ux: d.uy, uy: -d.ux }
}

/// The four cardinal directions on screen.
#[derive(Clone, Copy, PartialEq, Eq, Structural, Debug)]
pub enum Cardinal {
    /// Angle `0`.
    Right,
    /// Angle `-90°`.
    Up,
    /// Angle `180°`.
    Left,
    /// Angle `90°`.
    Down,
}

/// The exact direction of a cardinal: its cosine and sine are `0` or `±1`.
pub open spec fn spec_cardinal_dir(c: Cardinal) -> UnitDir {
    match c {
        Cardinal::Right => UnitDir { ux: SCALE, uy: 0 },
        Cardinal::Up => UnitDir { ux: 0, uy: (-(SCALE as int)) as i64 },
        Cardinal::Left => UnitDir { ux: (-(SCALE as int)) as i64, uy: 0 },
        Cardinal::Down => UnitDir { ux: 0, uy: SCALE },
    }
}

/// Returns the exact direction of a cardinal.
pub fn cardinal_dir(c: Cardinal) -> (d: UnitDir)
    ensures
        d == spec_cardinal_dir(c),
        dir_wf(d),
{
    match c {
        Cardinal::Right => UnitDir { ux: SCALE, uy: 0 },
        Cardinal::Up => UnitDir { ux: 0, uy: -SCALE },
        Cardinal::Left => UnitDir { ux: -SCALE, uy: 0 },
        Cardinal::Down => UnitDir { ux: 0, uy: SCALE },
    }
}

/// Scaling by the fixed-point factor one (or minus one) is exact.
proof fn lemma_milli_scale_one(a: int)
    requires
        a >= 0,
    ensures
        spec_milli_scale(a, SCALE as int) == a,
        spec_milli_scale(a, -(SCALE as int)) == -a,
        spec_milli_scale(a, 0) == 0,
{
    assert(a * (SCALE as int) >= 0) by (nonlinear_arith)
        requires
            a >= 0,
    ;
    assert(a * (SCALE as int) / (SCALE as int) == a) by (nonlinear_arith)
        requires
            a >= 0,
    ;
    assert(a * (-(SCALE as int)) == -(a * (SCALE as int))) by (nonlinear_arith);
    assert(a * 0 == 0) by (nonlinear_arith);
}

/// Projection along the four cardinal directions lands exactly one radius
/// to the right of, above, left of and below the center, respectively.
pub proof fn lemma_polar_cardinal(radius: int, center: Vec2)
    requires
        0 <= radius,
    ensures
        spec_polar(radius, spec_cardinal_dir(Cardinal::Right), center) == (Vec2 {
            x: (center.x + radius) as i64,
            y: center.y,
        }),
        spec_polar(radius, spec_cardinal_dir(Cardinal::Up), center) == (Vec2 {
            x: center.x,
            y: (center.y - radius) as i64,
        }),
        spec_polar(radius, spec_cardinal_dir(Cardinal::Left), center) == (Vec2 {
            x: (center.x - radius) as i64,
            y: center.y,
        }),
        spec_polar(radius, spec_cardinal_dir(Cardinal::Down), center) == (Vec2 {
            x: center.x,
            y: (center.y + radius) as i64,
        }),
{
    lemma_milli_scale_one(radius);
}

} // verus!
