//! Rendering one curve into scene primitives.
//!
//! A curve with the right number of points becomes a smoothed closed
//! path plus one marker per data point; a curve whose point count does
//! not match the axis count degrades to a diagnostic marker, and only
//! that curve — the rest of the chart is unaffected. Each marker names
//! the data point it stands for, draws at `POINT_RADIUS` and catches the
//! pointer out to the larger invisible `HIT_RADIUS`.

use vstd::prelude::*;

use crate::data::CurveView;
use crate::fixed::MAX_VALUE;
use crate::data::RadarCurve;
use crate::data::curve_wf;
use crate::fixed::MAX_COORD;
use crate::fixed::scaled_radius;
use crate::fixed::spec_scaled_radius;
use crate::geometry::UnitDir;
use crate::geometry::Vec2;
use crate::geometry::dir_wf;
use crate::geometry::polar_to_cartesian;
use crate::geometry::spec_polar;
use crate::geometry::vec2_wf;
use crate::path::PathCmd;
use crate::path::build_smooth_path;
use crate::path::spec_smooth_path;

verus! {

/// Radius of a point's visible marker, in milli-units: four chart units.
pub const POINT_RADIUS: i64 = 4000;

/// Radius of a point's invisible hit target, in milli-units: ten chart
/// units, enlarging the pointer target without enlarging the mark.
pub const HIT_RADIUS: i64 = 10_000;

/// The mathematical content of a point marker.
pub ghost struct MarkerView {
    pub curve_index: int,
    pub point_index: int,
    pub pos: Vec2,
}

/// A point's hit target: where it draws and which data point it stands
/// for, so pointer events find their way back to the data.
pub struct PointMarker {
    pub curve_index: usize,
    pub point_index: usize,
    pub pos: Vec2,
}

impl View for PointMarker {
    type V = MarkerView;

    open spec fn view(&self) -> MarkerView {
        MarkerView {
            curve_index: self.curve_index as int,
            point_index: self.point_index as int,
            pos: self.pos,
        }
    }
}

/// The mathematical content of a rendered curve.
pub ghost enum CurveRenderView {
    Path { name: Seq<char>, color: Seq<char>, cmds: Seq<PathCmd>, markers: Seq<MarkerView> },
    Diagnostic { name: Seq<char> },
}

/// One curve as it renders: its smoothed path and markers, or a
/// diagnostic stand-in when its point count does not match the axes.
pub enum CurveRender {
    Path { name: String, color: String, cmds: Vec<PathCmd>, markers: Vec<PointMarker> },
    Diagnostic { name: String },
}

impl View for CurveRender {
    type V = CurveRenderView;

    open spec fn view(&self) -> CurveRenderView {
        match self {
            CurveRender::Path { name, color, cmds, markers } => CurveRenderView::Path {
                name: name@,
                color: color@,
                cmds: cmds@,
                markers: markers@.map_values(|m: PointMarker| m@),
            },
            CurveRender::Diagnostic { name } => CurveRenderView::Diagnostic { name: name@ },
        }
    }
}

/// A center and radius from which every projected point, control point
/// and label stays inside the coordinate bound.
pub open spec fn frame_wf(center: Vec2, radius: int) -> bool {
    &&& vec2_wf(center)
    &&& 0 <= radius
    &&& -MAX_COORD <= center.x - radius
    &&& center.x + radius <= MAX_COORD
    &&& -MAX_COORD <= center.y - radius
    &&& center.y + radius <= MAX_COORD
}

/// The projected points of a curve: point `i` sits along `dirs[i]` at the
/// clamped share of the rim radius its value earns.
pub open spec fn spec_curve_points(
    c: CurveView,
    dirs: Seq<UnitDir>,
    center: Vec2,
    radius: int,
    max_value: int,
) -> Seq<Vec2> {
    Seq::new(c.points.len(), |i: int|
        spec_polar(spec_scaled_radius(radius, c.points[i].value, max_value), dirs[i], center),
    )
}

/// One marker per projected point, remembering its curve and point index.
pub open spec fn spec_markers(ci: int, pts: Seq<Vec2>) -> Seq<MarkerView> {
    Seq::new(pts.len(), |i: int| MarkerView { curve_index: ci, point_index: i, pos: pts[i] })
}

/// How curve `ci` renders: a smoothed path with markers when its point
/// count matches the axis count, a diagnostic otherwise.
pub open spec fn spec_curve_render(
    c: CurveView,
    ci: int,
    axes_len: int,
    dirs: Seq<UnitDir>,
    center: Vec2,
    radius: int,
    max_value: int,
) -> CurveRenderView {
    if c.points.len() != axes_len {
        CurveRenderView::Diagnostic { name: c.name }
    } else {
        let pts = spec_curve_points(c, dirs, center, radius, max_value);
        CurveRenderView::Path {
            name: c.name,
            color: c.color,
            cmds: spec_smooth_path(pts, dirs),
            markers: spec_markers(ci, pts),
        }
    }
}

/// Projects a curve's data points onto the chart.
fn curve_points(
    curve: &RadarCurve,
    dirs: &Vec<UnitDir>,
    center: Vec2,
    radius: i64,
    max_value: i64,
) -> (pts: Vec<Vec2>)
    requires
        curve.data_points.len() == dirs.len(),
        curve_wf(curve@),
        forall|i: int| 0 <= i < dirs.len() ==> dir_wf(#[trigger] dirs[i]),
        frame_wf(center, radius as int),
        radius <= MAX_COORD,
        0 < max_value <= MAX_VALUE,
    ensures
        pts@ == spec_curve_points(curve@, dirs@, center, radius as int, max_value as int),
        forall|i: int| 0 <= i < pts@.len() ==> vec2_wf(#[trigger] pts@[i]),
{
    let n: usize = curve.data_points.len();
    let mut pts: Vec<Vec2> = Vec::new();
    let mut i: usize = 0;
    while i < n
        invariant
            i <= n,
            n == curve.data_points.len(),
            dirs@.len() == n,
            curve_wf(curve@),
            forall|k: int| 0 <= k < n ==> dir_wf(#[trigger] dirs@[k]),
            frame_wf(center, radius as int),
            radius <= MAX_COORD,
            0 < max_value <= MAX_VALUE,
            pts@.len() == i,
            forall|k: int|
                0 <= k < i ==> (#[trigger] pts@[k]) == spec_curve_points(
                    curve@,
                    dirs@,
                    center,
                    radius as int,
                    max_value as int,
                )[k] && vec2_wf(pts@[k]),
        decreases n - i,
    {
        proof {
            assert(curve@.points[i as int] == curve.data_points@[i as int]@);
        }
        let pr: i64 = scaled_radius(radius, curve.data_points[i].value, max_value);
        let p: Vec2 = polar_to_cartesian(pr, dirs[i], center);
        pts.push(p);
        i = i + 1;
    }
    proof {
        assert(pts@ =~= spec_curve_points(
            curve@,
            dirs@,
            center,
            radius as int,
            max_value as int,
        ));
    }
    pts
}

/// Renders one curve. A point count matching the axis count yields the
/// smoothed closed path and one marker per point, tagged with this
/// curve's index; any other count yields a diagnostic naming the curve —
/// a recoverable, per-curve outcome.
pub fn render_curve(
    curve: &RadarCurve,
    curve_index: usize,
    axes_len: usize,
    dirs: &Vec<UnitDir>,
    center: Vec2,
    radius: i64,
    max_value: i64,
) -> (r: CurveRender)
    requires
        axes_len >= 1,
        dirs.len() == axes_len,
        curve_wf(curve@),
        forall|i: int| 0 <= i < dirs.len() ==> dir_wf(#[trigger] dirs[i]),
        frame_wf(center, radius as int),
        radius <= MAX_COORD,
        0 < max_value <= MAX_VALUE,
    ensures
        r@ == spec_curve_render(
            curve@,
            curve_index as int,
            axes_len as int,
            dirs@,
            center,
            radius as int,
            max_value as int,
        ),
{
    if curve.data_points.len() != axes_len {
        return CurveRender::Diagnostic { name: curve.name.clone() };
    }
    let pts: Vec<Vec2> = curve_points(curve, dirs, center, radius, max_value);
    let cmds: Vec<PathCmd> = build_smooth_path(&pts, dirs);
    let n: usize = pts.len();
    let mut markers: Vec<PointMarker> = Vec::new();
    let mut i: usize = 0;
    while i < n
        invariant
            i <= n,
            n == pts@.len(),
            markers@.len() == i,
            forall|k: int|
                0 <= k < i ==> (#[trigger] markers@[k])@ == (MarkerView {
                    curve_index: curve_index as int,
                    point_index: k,
                    pos: pts@[k],
                }),
        decreases n - i,
    {
        markers.push(PointMarker { curve_index, point_index: i, pos: pts[i] });
        i = i + 1;
    }
    let r = CurveRender::Path {
        name: curve.name.clone(),
        color: curve.color.clone(),
        cmds,
        markers,
    };
    proof {
        assert(markers@.map_values(|m: PointMarker| m@) =~= spec_markers(
            curve_index as int,
            pts@,
        ));
    }
    r
}

} // verus!
