//! Concentric reference rings with labeled scale values.
//!
//! Level `k` of `levels` draws a ring at `k / levels` of the rim radius,
//! labeled with `k / levels` of the scale maximum; the label sits at the
//! top of its ring. Zero levels mean no rings.

use vstd::prelude::*;

use crate::fixed::MAX_VALUE;
use crate::fixed::MAX_COORD;
use crate::geometry::Vec2;
use crate::geometry::vec2_wf;

verus! {

/// Most grid levels a chart accepts.
pub const MAX_GRID_LEVELS: u32 = 1000;

/// How many reference rings a chart draws unless told otherwise.
pub const DEFAULT_GRID_LEVELS: u32 = 5;

/// One reference ring: its radius, the scale value it stands for, and
/// where its label sits (at the top of the ring).
#[derive(Clone, Copy, PartialEq, Eq, Structural, Debug)]
pub struct GridRing {
    pub radius: i64,
    pub value: i64,
    pub label_pos: Vec2,
}

/// Ring `k` of `levels`: radius and value at `k / levels` of the whole,
/// the label straight above the center at the ring's radius.
pub open spec fn spec_grid_ring(
    k: int,
    levels: int,
    radius: int,
    max_value: int,
    center: Vec2,
) -> GridRing {
    let ring_radius = radius * k / levels;
    GridRing {
        radius: ring_radius as i64,
        value: (max_value * k / levels) as i64,
        label_pos: Vec2 { x: center.x, y: (center.y - ring_radius) as i64 },
    }
}

/// Builds the reference rings, innermost first: ring `k` (one-based) of
/// `levels`. With zero levels there are no rings.
pub fn build_grid(center: Vec2, radius: i64, max_value: i64, levels: u32) -> (rings: Vec<
    GridRing,
>)
    requires
        vec2_wf(center),
        0 <= radius <= MAX_COORD,
        0 <= max_value <= MAX_VALUE,
        levels <= MAX_GRID_LEVELS,
    ensures
        rings@.len() == levels,
        forall|k: int|
            0 <= k < levels ==> (#[trigger] rings@[k]) == spec_grid_ring(
                k + 1,
                levels as int,
                radius as int,
                max_value as int,
                center,
            ),
{
    let mut rings: Vec<GridRing> = Vec::new();
    let mut level: u32 = 1;
    while level <= levels
        invariant
            1 <= level <= levels + 1,
            levels <= MAX_GRID_LEVELS,
            vec2_wf(center),
            0 <= radius <= MAX_COORD,
            0 <= max_value <= MAX_VALUE,
            rings@.len() == level - 1,
            forall|k: int|
                0 <= k < level - 1 ==> (#[trigger] rings@[k]) == spec_grid_ring(
                    k + 1,
                    levels as int,
                    radius as int,
                    max_value as int,
                    center,
                ),
        decreases levels + 1 - level,
    {
        proof {
            assert(0 <= radius * level <= MAX_COORD * MAX_GRID_LEVELS) by (nonlinear_arith)
                requires
                    0 <= radius <= MAX_COORD,
                    0 < level <= MAX_GRID_LEVELS,
            ;
            assert(0 <= max_value * level <= MAX_VALUE * MAX_GRID_LEVELS) by (nonlinear_arith)
                requires
                    0 <= max_value <= MAX_VALUE,
                    0 < level <= MAX_GRID_LEVELS,
            ;
            assert(radius * level / (levels as int) <= radius) by (nonlinear_arith)
                requires
                    0 <= radius,
                    0 < level <= levels,
            ;
        }
        let ring_radius: i64 = (((radius as u64) * (level as u64)) / (levels as u64)) as i64;
        let ring_value: i64 = (((max_value as u64) * (level as u64)) / (levels as u64)) as i64;
        rings.push(
            GridRing {
                radius: ring_radius,
                value: ring_value,
                label_pos: Vec2 { x: center.x, y: center.y - ring_radius },
            },
        );
        level = level + 1;
    }
    rings
}

} // verus!
