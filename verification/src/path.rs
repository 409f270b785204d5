//! Smoothed closed curve paths.
//!
//! A curve's outline is one closed subpath: a move to point `0`, one cubic
//! Bezier segment per consecutive pair of points (wrapping back to point
//! `0`), and a close. The two control points of a segment leave each
//! endpoint along the local tangent — the axis direction turned a quarter
//! turn — at three tenths of the chord length between the pair.

use vstd::prelude::*;

use crate::fixed::MAX_COORD;
use crate::fixed::MAX_PRODUCT;
use crate::fixed::SCALE;
use crate::fixed::milli_scale;
use crate::fixed::spec_milli_scale;
use crate::fixed::lemma_milli_scale_unit_bound;
use crate::geometry::UnitDir;
use crate::geometry::Vec2;
use crate::geometry::dir_wf;
use crate::geometry::rot_back_quarter;
use crate::geometry::rot_quarter;
use crate::geometry::spec_rot_back_quarter;
use crate::geometry::spec_rot_quarter;
use crate::geometry::vec2_bounded;
use crate::geometry::vec2_wf;
use crate::sqrt::is_sqrt_floor;
use crate::sqrt::isqrt;
use crate::sqrt::sqrt_floor;

verus! {

/// Control-point distance as a fixed-point fraction of the chord length:
/// three tenths.
pub const CURVE_FACTOR: i64 = 300;

/// One drawing command of a path.
#[derive(Clone, Copy, PartialEq, Eq, Structural, Debug)]
pub enum PathCmd {
    /// Begin a subpath at a point.
    MoveTo(Vec2),
    /// A cubic Bezier segment to `end` with control points `c1` and `c2`.
    CubicTo { c1: Vec2, c2: Vec2, end: Vec2 },
    /// Close the subpath back to where it began.
    ClosePath,
}

/// The squared Euclidean distance between two points.
pub open spec fn spec_dist2(p: Vec2, q: Vec2) -> int {
    (q.x - p.x) * (q.x - p.x) + (q.y - p.y) * (q.y - p.y)
}

/// The chord length between two points: the square-root floor of the
/// squared distance.
pub open spec fn spec_chord(p: Vec2, q: Vec2) -> int {
    sqrt_floor(spec_dist2(p, q))
}

/// The control-point distance for a pair of points: `CURVE_FACTOR / SCALE`
/// of the chord length.
pub open spec fn spec_control_dist(p: Vec2, q: Vec2) -> int {
    spec_milli_scale(spec_chord(p, q), CURVE_FACTOR as int)
}

/// A point displaced by `dist` along direction `t`.
pub open spec fn spec_offset(p: Vec2, dist: int, t: UnitDir) -> Vec2 {
    Vec2 {
        x: (p.x + spec_milli_scale(dist, t.ux as int)) as i64,
        y: (p.y + spec_milli_scale(dist, t.uy as int)) as i64,
    }
}

/// The cubic segment from point `i` of the curve to the next point
/// (wrapping to point `0`): the first control point leaves the outgoing
/// endpoint along its axis direction turned a quarter turn forward, the
/// second arrives at the incoming endpoint along its axis direction turned
/// a quarter turn back, both at the control-point distance of the pair.
pub open spec fn spec_cubic(pts: Seq<Vec2>, dirs: Seq<UnitDir>, i: int) -> PathCmd {
    let n = pts.len() as int;
    let j = if i + 1 == n {
        0
    } else {
        i + 1
    };
    let p = pts[i];
    let q = pts[j];
    let d = spec_control_dist(p, q);
    PathCmd::CubicTo {
        c1: spec_offset(p, d, spec_rot_quarter(dirs[i])),
        c2: spec_offset(q, d, spec_rot_back_quarter(dirs[j])),
        end: q,
    }
}

/// The whole smoothed closed path of a curve with points `pts` on axis
/// directions `dirs`: a move to point `0`, one cubic segment per point,
/// and a close.
pub open spec fn spec_smooth_path(pts: Seq<Vec2>, dirs: Seq<UnitDir>) -> Seq<PathCmd> {
    let n = pts.len() as int;
    Seq::new((n + 2) as nat, |j: int|
        if j == 0 {
            PathCmd::MoveTo(pts[0])
        } else if j <= n {
            spec_cubic(pts, dirs, j - 1)
        } else {
            PathCmd::ClosePath
        },
    )
}

/// The chord length between two in-bounds points.
fn chord_len(p: Vec2, q: Vec2) -> (r: i64)
    requires
        vec2_wf(p),
        vec2_wf(q),
    ensures
        r == spec_chord(p, q),
        0 <= r <= 3_000_000_000,
{
    let dx: i64 = q.x - p.x;
    let dy: i64 = q.y - p.y;
    proof {
        assert(0 <= dx * dx <= 4_000_000_000_000_000_000
            && (dx * dx == (q.x - p.x) * (q.x - p.x))) by (nonlinear_arith)
            requires
                -(2 * MAX_COORD as int) <= dx <= 2 * MAX_COORD as int,
                dx == q.x - p.x,
        ;
        assert(0 <= dy * dy <= 4_000_000_000_000_000_000
            && (dy * dy == (q.y - p.y) * (q.y - p.y))) by (nonlinear_arith)
            requires
                -(2 * MAX_COORD as int) <= dy <= 2 * MAX_COORD as int,
                dy == q.y - p.y,
        ;
    }
    let d2: i64 = dx * dx + dy * dy;
    let root: u64 = isqrt(d2 as u64);
    proof {
        assert(is_sqrt_floor(d2 as int, root as int));
        assert(root * root <= d2 ==> root <= 3_000_000_000) by (nonlinear_arith)
            requires
                0 <= d2 <= 8_000_000_000_000_000_000,
        ;
    }
    root as i64
}

/// A control point of the segment between `p` and `q`: the endpoint `at`
/// displaced along tangent `t` by the control-point distance of the pair.
fn control_point(at: Vec2, p: Vec2, q: Vec2, t: UnitDir) -> (r: Vec2)
    requires
        vec2_wf(p),
        vec2_wf(q),
        vec2_wf(at),
        dir_wf(t),
    ensures
        r == spec_offset(at, spec_control_dist(p, q), t),
        vec2_bounded(r, 2 * MAX_COORD as int),
{
    let chord: i64 = chord_len(p, q);
    proof {
        assert(-MAX_PRODUCT <= chord * CURVE_FACTOR <= MAX_PRODUCT) by (nonlinear_arith)
            requires
                0 <= chord <= 3_000_000_000,
        ;
        lemma_milli_scale_unit_bound(chord as int, CURVE_FACTOR as int);
    }
    let cdist: i64 = milli_scale(chord, CURVE_FACTOR);
    proof {
        assert(-MAX_PRODUCT <= cdist * t.ux <= MAX_PRODUCT && -MAX_PRODUCT <= cdist * t.uy
            <= MAX_PRODUCT) by (nonlinear_arith)
            requires
                0 <= cdist <= 3_000_000_000,
                -(SCALE as int) <= t.ux <= SCALE as int,
                -(SCALE as int) <= t.uy <= SCALE as int,
        ;
        lemma_milli_scale_unit_bound(cdist as int, t.ux as int);
        lemma_milli_scale_unit_bound(cdist as int, t.uy as int);
    }
    let ox: i64 = milli_scale(cdist, t.ux);
    let oy: i64 = milli_scale(cdist, t.uy);
    Vec2 { x: at.x + ox, y: at.y + oy }
}

/// Builds the smoothed closed path of a curve: one subpath that starts and
/// ends at point `0`, with exactly one cubic segment per point.
pub fn build_smooth_path(pts: &Vec<Vec2>, dirs: &Vec<UnitDir>) -> (cmds: Vec<PathCmd>)
    requires
        pts.len() >= 1,
        dirs.len() == pts.len(),
        forall|i: int| 0 <= i < pts.len() ==> vec2_wf(#[trigger] pts[i]),
        forall|i: int| 0 <= i < dirs.len() ==> dir_wf(#[trigger] dirs[i]),
    ensures
        cmds@ == spec_smooth_path(pts@, dirs@),
{
    let n: usize = pts.len();
    let mut cmds: Vec<PathCmd> = Vec::new();
    cmds.push(PathCmd::MoveTo(pts[0]));
    let mut i: usize = 0;
    while i < n
        invariant
            n == pts.len(),
            dirs.len() == n,
            1 <= n,
            i <= n,
            forall|k: int| 0 <= k < n ==> vec2_wf(#[trigger] pts@[k]),
            forall|k: int| 0 <= k < n ==> dir_wf(#[trigger] dirs@[k]),
            cmds@.len() == i + 1,
            cmds@[0] == PathCmd::MoveTo(pts@[0]),
            forall|k: int| 0 <= k < i ==> cmds@[k + 1] == spec_cubic(pts@, dirs@, k),
        decreases n - i,
    {
        let j: usize = if i + 1 == n {
            0
        } else {
            i + 1
        };
        let p: Vec2 = pts[i];
        let q: Vec2 = pts[j];
        let t1: UnitDir = rot_quarter(dirs[i]);
        let t2: UnitDir = rot_back_quarter(dirs[j]);
        let c1: Vec2 = control_point(p, p, q, t1);
        let c2: Vec2 = control_point(q, p, q, t2);
        cmds.push(PathCmd::CubicTo { c1, c2, end: q });
        i = i + 1;
    }
    cmds.push(PathCmd::ClosePath);
    proof {
        assert(cmds@ =~= spec_smooth_path(pts@, dirs@));
    }
    cmds
}

/// The smoothed path of `n` points is a single closed subpath: it begins
/// with a move to point `0`, carries exactly `n` cubic segments, the last
/// of which ends back at point `0`, and finishes with a close.
pub proof fn lemma_smooth_path_closed(pts: Seq<Vec2>, dirs: Seq<UnitDir>)
    requires
        pts.len() >= 1,
        dirs.len() == pts.len(),
    ensures
        spec_smooth_path(pts, dirs).len() == pts.len() + 2,
        spec_smooth_path(pts, dirs)[0] == PathCmd::MoveTo(pts[0]),
        forall|j: int|
            1 <= j <= pts.len() ==> (#[trigger] spec_smooth_path(pts, dirs)[j]) matches
                PathCmd::CubicTo { c1, c2, end },
        spec_smooth_path(pts, dirs)[pts.len() as int] matches PathCmd::CubicTo {
            c1,
            c2,
            end,
        } && end == pts[0],
        spec_smooth_path(pts, dirs)[pts.len() as int + 1] == PathCmd::ClosePath,
{
    let n = pts.len() as int;
    assert forall|j: int| 1 <= j <= n implies (#[trigger] spec_smooth_path(pts, dirs)[j]) matches
        PathCmd::CubicTo { c1, c2, end } by {
        assert(spec_smooth_path(pts, dirs)[j] == spec_cubic(pts, dirs, j - 1));
    }
    assert(spec_smooth_path(pts, dirs)[n] == spec_cubic(pts, dirs, n - 1));
}

} // verus!
