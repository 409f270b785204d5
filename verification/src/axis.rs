//! Radial axis spokes and label placement.
//!
//! Each axis draws a spoke from the center out to the rim and puts its
//! label a tenth further out along the same direction. The label's text
//! anchor and vertical alignment follow the label's position against the
//! center, with a five-unit dead zone on either side so near-vertical and
//! near-horizontal axes do not jitter between anchors.

use vstd::prelude::*;

use crate::fixed::MAX_COORD;
use crate::fixed::MAX_PRODUCT;
use crate::fixed::milli_scale;
use crate::fixed::spec_milli_scale;
use crate::geometry::UnitDir;
use crate::geometry::Vec2;
use crate::geometry::dir_wf;
use crate::geometry::polar_to_cartesian;
use crate::geometry::spec_polar;
use crate::geometry::vec2_wf;

verus! {

/// Label radius as a fixed-point fraction of the rim radius: eleven tenths.
pub const LABEL_RADIUS_FACTOR: i64 = 1100;

/// Half-width of the anchor dead zone, in milli-units: five chart units.
pub const ANCHOR_DEAD_ZONE: i64 = 5000;

/// Upper bound on a rim radius, so the label radius still fits the
/// coordinate bound.
pub const MAX_RADIUS: i64 = 900_000_000;

/// Horizontal anchoring of an axis label.
#[derive(Clone, Copy, PartialEq, Eq, Structural, Debug)]
pub enum TextAnchor {
    Start,
    Middle,
    End,
}

/// Vertical alignment of an axis label.
#[derive(Clone, Copy, PartialEq, Eq, Structural, Debug)]
pub enum VertAlign {
    /// Raised above the point (half a line up).
    Above,
    /// Vertically centered on the point.
    Middle,
    /// Dropped below the point (a line down).
    Below,
}

/// The mathematical content of one axis spoke.
pub ghost struct SpokeView {
    pub end: Vec2,
    pub label_pos: Vec2,
    pub anchor: TextAnchor,
    pub valign: VertAlign,
    pub label: Seq<char>,
}

/// One axis: its spoke's far end, its label and where and how the label
/// sits. The spoke's near end is the chart center.
pub struct AxisSpoke {
    pub end: Vec2,
    pub label_pos: Vec2,
    pub anchor: TextAnchor,
    pub valign: VertAlign,
    pub label: String,
}

impl View for AxisSpoke {
    type V = SpokeView;

    open spec fn view(&self) -> SpokeView {
        SpokeView {
            end: self.end,
            label_pos: self.label_pos,
            anchor: self.anchor,
            valign: self.valign,
            label: self.label@,
        }
    }
}

/// Labels left of the dead zone anchor at their end, labels right of it
/// at their start, labels inside it in their middle.
pub open spec fn spec_text_anchor(label_x: int, center_x: int) -> TextAnchor {
    if label_x < center_x - ANCHOR_DEAD_ZONE {
        TextAnchor::End
    } else if label_x > center_x + ANCHOR_DEAD_ZONE {
        TextAnchor::Start
    } else {
        TextAnchor::Middle
    }
}

/// Labels above the dead zone rise, labels below it drop, labels inside
/// it center vertically.
pub open spec fn spec_vert_align(label_y: int, center_y: int) -> VertAlign {
    if label_y < center_y - ANCHOR_DEAD_ZONE {
        VertAlign::Above
    } else if label_y > center_y + ANCHOR_DEAD_ZONE {
        VertAlign::Below
    } else {
        VertAlign::Middle
    }
}

/// The label radius: eleven tenths of the rim radius.
pub open spec fn spec_label_radius(radius: int) -> int {
    spec_milli_scale(radius, LABEL_RADIUS_FACTOR as int)
}

/// The spoke of one axis: its end on the rim, its label a tenth past the
/// rim, anchored against the center.
pub open spec fn spec_axis_spoke(
    label: Seq<char>,
    dir: UnitDir,
    center: Vec2,
    radius: int,
) -> SpokeView {
    let end = spec_polar(radius, dir, center);
    let label_pos = spec_polar(spec_label_radius(radius), dir, center);
    SpokeView {
        end,
        label_pos,
        anchor: spec_text_anchor(label_pos.x as int, center.x as int),
        valign: spec_vert_align(label_pos.y as int, center.y as int),
        label,
    }
}

/// Resolves the horizontal anchor of a label, see [`spec_text_anchor`].
pub fn text_anchor(label_x: i64, center_x: i64) -> (r: TextAnchor)
    requires
        -MAX_COORD <= center_x <= MAX_COORD,
    ensures
        r == spec_text_anchor(label_x as int, center_x as int),
{
    if label_x < center_x - ANCHOR_DEAD_ZONE {
        TextAnchor::End
    } else if label_x > center_x + ANCHOR_DEAD_ZONE {
        TextAnchor::Start
    } else {
        TextAnchor::Middle
    }
}

/// Resolves the vertical alignment of a label, see [`spec_vert_align`].
pub fn vert_align(label_y: i64, center_y: i64) -> (r: VertAlign)
    requires
        -MAX_COORD <= center_y <= MAX_COORD,
    ensures
        r == spec_vert_align(label_y as int, center_y as int),
{
    if label_y < center_y - ANCHOR_DEAD_ZONE {
        VertAlign::Above
    } else if label_y > center_y + ANCHOR_DEAD_ZONE {
        VertAlign::Below
    } else {
        VertAlign::Middle
    }
}

/// Builds the spokes of all axes: axis `i` runs along `dirs[i]` and wears
/// `labels[i]`.
pub fn build_axes(
    labels: &Vec<String>,
    dirs: &Vec<UnitDir>,
    center: Vec2,
    radius: i64,
) -> (spokes: Vec<AxisSpoke>)
    requires
        dirs.len() == labels.len(),
        forall|i: int| 0 <= i < dirs.len() ==> dir_wf(#[trigger] dirs[i]),
        vec2_wf(center),
        0 <= radius <= MAX_RADIUS,
    ensures
        spokes@.len() == labels@.len(),
        forall|i: int|
            0 <= i < labels@.len() ==> (#[trigger] spokes@[i])@ == spec_axis_spoke(
                labels@[i]@,
                dirs@[i],
                center,
                radius as int,
            ),
{
    proof {
        assert(0 <= radius * LABEL_RADIUS_FACTOR <= MAX_PRODUCT) by (nonlinear_arith)
            requires
                0 <= radius <= MAX_RADIUS,
        ;
        assert(radius * LABEL_RADIUS_FACTOR / 1000 <= MAX_COORD) by (nonlinear_arith)
            requires
                0 <= radius <= MAX_RADIUS,
        ;
    }
    let label_radius: i64 = milli_scale(radius, LABEL_RADIUS_FACTOR);
    let n: usize = labels.len();
    let mut spokes: Vec<AxisSpoke> = Vec::new();
    let mut i: usize = 0;
    while i < n
        invariant
            i <= n,
            n == labels@.len(),
            dirs@.len() == n,
            forall|k: int| 0 <= k < n ==> dir_wf(#[trigger] dirs@[k]),
            vec2_wf(center),
            0 <= radius <= MAX_RADIUS,
            0 <= label_radius <= MAX_COORD,
            label_radius == spec_label_radius(radius as int),
            spokes@.len() == i,
            forall|k: int|
                0 <= k < i ==> (#[trigger] spokes@[k])@ == spec_axis_spoke(
                    labels@[k]@,
                    dirs@[k],
                    center,
                    radius as int,
                ),
        decreases n - i,
    {
        let end: Vec2 = polar_to_cartesian(radius, dirs[i], center);
        let label_pos: Vec2 = polar_to_cartesian(label_radius, dirs[i], center);
        let anchor: TextAnchor = text_anchor(label_pos.x, center.x);
        let valign: VertAlign = vert_align(label_pos.y, center.y);
        spokes.push(
            AxisSpoke { end, label_pos, anchor, valign, label: labels[i].clone() },
        );
        i = i + 1;
    }
    spokes
}

} // verus!
