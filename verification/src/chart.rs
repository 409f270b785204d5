//! The chart orchestrator.
//!
//! Owns the validated configuration, the visibility registry and the
//! tooltip machine, and is the only writer of each: the legend's clicks,
//! the points' pointer events and the edit box's commits all go through
//! the named operations here. From the configuration and one direction
//! per axis it assembles the whole renderable scene: grid rings, axis
//! spokes, and the visible curves' paths and markers.

use vstd::prelude::*;

use crate::axis::AxisSpoke;
use crate::axis::SpokeView;
use crate::axis::MAX_RADIUS;
use crate::axis::build_axes;
use crate::axis::spec_axis_spoke;
use crate::data::CurveView;
use crate::data::DataPoint;
use crate::data::PointView;
use crate::data::RadarCurve;
use crate::data::clone_curve;
use crate::data::curve_wf;
use crate::fixed::MAX_COORD;
use crate::fixed::MAX_PRODUCT;
use crate::fixed::MAX_VALUE;
use crate::fixed::milli_scale;
use crate::fixed::spec_milli_scale;
use crate::fixed::lemma_milli_scale_unit_bound;
use crate::geometry::UnitDir;
use crate::geometry::Vec2;
use crate::geometry::dir_wf;
use crate::grid::GridRing;
use crate::grid::MAX_GRID_LEVELS;
use crate::grid::build_grid;
use crate::grid::spec_grid_ring;
use crate::numtext::format_milli;
use crate::numtext::spec_format_milli;
use crate::numtext::spec_parse_milli;
use crate::scene::CurveRender;
use crate::scene::CurveRenderView;
use crate::scene::frame_wf;
use crate::scene::render_curve;
use crate::scene::spec_curve_render;
use crate::tooltip::EditCommit;
use crate::tooltip::MachineView;
use crate::tooltip::TooltipData;
use crate::tooltip::TooltipMachine;
use crate::tooltip::TooltipView;
use crate::tooltip::clone_tooltip;
use crate::tooltip::machine_wf;
use crate::tooltip::payload_wf;
use crate::tooltip::same_point;
use crate::tooltip::spec_pin;
use crate::tooltip::spec_relabel;
use crate::validate::RadarError;
use crate::validate::spec_shape_ok;
use crate::validate::validate;
use crate::visibility::VisibilityMap;
use crate::visibility::spec_lookup;
use crate::visibility::spec_names;
use crate::visibility::spec_reconcile;
use crate::visibility::spec_toggle;

use vstd::string::StringExecFns;

verus! {

/// Largest width or height of a chart, in whole units.
pub const MAX_DIM: u32 = 1_000_000;

/// The scale maximum used when none is given: one hundred units.
pub const DEFAULT_MAX_VALUE: i64 = 100_000;

/// The width used when none is given.
pub const DEFAULT_WIDTH: u32 = 600;

/// The height used when none is given.
pub const DEFAULT_HEIGHT: u32 = 500;

/// Rim radius as a fixed-point fraction of the half-extent: four fifths.
pub const RIM_FACTOR: i64 = 800;

/// The mathematical content of a chart configuration.
pub ghost struct ConfigView {
    pub axes: Seq<Seq<char>>,
    pub curves: Seq<CurveView>,
    pub max_value: int,
    pub width: int,
    pub height: int,
}

/// A configuration the geometry can digest: a positive scale maximum,
/// dimensions within the coordinate budget, and well-formed curve values.
pub open spec fn props_wf(c: ConfigView) -> bool {
    &&& 0 < c.max_value <= MAX_VALUE
    &&& 0 <= c.width <= MAX_DIM
    &&& 0 <= c.height <= MAX_DIM
    &&& forall|i: int| 0 <= i < c.curves.len() ==> curve_wf(#[trigger] c.curves[i])
}

/// The names of a curve sequence, in order.
pub open spec fn spec_curve_names(curves: Seq<CurveView>) -> Seq<Seq<char>> {
    curves.map_values(|c: CurveView| c.name)
}

/// The chart center: half the width and half the height, in milli-units.
pub open spec fn spec_center(width: int, height: int) -> Vec2 {
    Vec2 { x: (width * 500) as i64, y: (height * 500) as i64 }
}

/// The rim radius: four fifths of the smaller half-extent.
pub open spec fn spec_rim_radius(width: int, height: int) -> int {
    spec_milli_scale(
        if width <= height {
            width * 500
        } else {
            height * 500
        },
        RIM_FACTOR as int,
    )
}

/// The validated chart configuration: axes, curves, the scale maximum and
/// the drawing size. Axes and curves are replaced only together, through
/// [`RadarContainerProps::set_data`], after passing validation.
pub struct RadarContainerProps {
    axes: Vec<String>,
    curves: Vec<RadarCurve>,
    pub max_value: i64,
    pub width: u32,
    pub height: u32,
}

impl View for RadarContainerProps {
    type V = ConfigView;

    closed spec fn view(&self) -> ConfigView {
        ConfigView {
            axes: self.axes.deep_view(),
            curves: self.curves@.map_values(|c: RadarCurve| c@),
            max_value: self.max_value as int,
            width: self.width as int,
            height: self.height as int,
        }
    }
}

impl RadarContainerProps {
    /// Builds a validated configuration. Missing settings fall back to a
    /// scale maximum of one hundred units and a six-hundred by
    /// five-hundred drawing. The shape rule of [`validate`] decides
    /// between `Ok` and the errors, exactly.
    pub fn new(
        axes: Vec<String>,
        curves: Vec<RadarCurve>,
        max_value: Option<i64>,
        width: Option<u32>,
        height: Option<u32>,
    ) -> (r: Result<Self, RadarError>)
        requires
            match max_value {
                Some(v) => 0 < v <= MAX_VALUE,
                None => true,
            },
            match width {
                Some(w) => w <= MAX_DIM,
                None => true,
            },
            match height {
                Some(h) => h <= MAX_DIM,
                None => true,
            },
            forall|i: int| 0 <= i < curves@.len() ==> curve_wf((#[trigger] curves@[i])@),
        ensures
            r is Ok <==> spec_shape_ok(
                axes@.len() as int,
                curves@.map_values(|c: RadarCurve| c@),
            ),
            r matches Ok(c) ==> c@ == (ConfigView {
                axes: axes.deep_view(),
                curves: curves@.map_values(|cu: RadarCurve| cu@),
                max_value: match max_value {
                    Some(v) => v as int,
                    None => DEFAULT_MAX_VALUE as int,
                },
                width: match width {
                    Some(w) => w as int,
                    None => DEFAULT_WIDTH as int,
                },
                height: match height {
                    Some(h) => h as int,
                    None => DEFAULT_HEIGHT as int,
                },
            }) && props_wf(c@),
            r matches Err(e) ==> match e {
                RadarError::NoAxesProvided => axes@.len() == 0,
                RadarError::NoCurvesProvided => axes@.len() > 0 && curves@.len() == 0,
                RadarError::DataPointCountMismatch { curve_name, expected, actual } => {
                    &&& axes@.len() > 0
                    &&& curves@.len() > 0
                    &&& expected == axes@.len()
                    &&& exists|i: int|
                        {
                            &&& 0 <= i < curves@.len()
                            &&& (#[trigger] curves@[i])@.points.len() != axes@.len()
                            &&& curve_name@ == curves@[i]@.name
                            &&& actual == curves@[i]@.points.len()
                            &&& forall|j: int|
                                0 <= j < i ==> (#[trigger] curves@[j])@.points.len()
                                    == axes@.len()
                        }
                },
            },
    {
        match validate(&axes, &curves) {
            Err(e) => Err(e),
            Ok(()) => {
                let max_value: i64 = match max_value {
                    Some(v) => v,
                    None => DEFAULT_MAX_VALUE,
                };
                let width: u32 = match width {
                    Some(w) => w,
                    None => DEFAULT_WIDTH,
                };
                let height: u32 = match height {
                    Some(h) => h,
                    None => DEFAULT_HEIGHT,
                };
                Ok(RadarContainerProps { axes, curves, max_value, width, height })
            },
        }
    }

    /// Replaces axes and curves together, after validating the new shape:
    /// on any error nothing changes at all.
    pub fn set_data(&mut self, axes: Vec<String>, curves: Vec<RadarCurve>) -> (r: Result<
        (),
        RadarError,
    >)
        requires
            forall|i: int| 0 <= i < curves@.len() ==> curve_wf((#[trigger] curves@[i])@),
        ensures
            r is Ok <==> spec_shape_ok(
                axes@.len() as int,
                curves@.map_values(|c: RadarCurve| c@),
            ),
            r is Ok ==> final(self)@ == (ConfigView {
                axes: axes.deep_view(),
                curves: curves@.map_values(|cu: RadarCurve| cu@),
                ..old(self)@
            }),
            r is Err ==> final(self)@ == old(self)@,
            r matches Err(e) ==> match e {
                RadarError::NoAxesProvided => axes@.len() == 0,
                RadarError::NoCurvesProvided => axes@.len() > 0 && curves@.len() == 0,
                RadarError::DataPointCountMismatch { curve_name, expected, actual } => {
                    &&& axes@.len() > 0
                    &&& curves@.len() > 0
                    &&& expected == axes@.len()
                    &&& exists|i: int|
                        {
                            &&& 0 <= i < curves@.len()
                            &&& (#[trigger] curves@[i])@.points.len() != axes@.len()
                            &&& curve_name@ == curves@[i]@.name
                            &&& actual == curves@[i]@.points.len()
                            &&& forall|j: int|
                                0 <= j < i ==> (#[trigger] curves@[j])@.points.len()
                                    == axes@.len()
                        }
                },
            },
            props_wf(old(self)@) ==> props_wf(final(self)@),
    {
        match validate(&axes, &curves) {
            Err(e) => Err(e),
            Ok(()) => {
                self.axes = axes;
                self.curves = curves;
                Ok(())
            },
        }
    }

    /// The axis labels.
    pub fn axes(&self) -> (r: &Vec<String>)
        ensures
            r.deep_view() == self@.axes,
    {
        &self.axes
    }

    /// The curves.
    pub fn curves(&self) -> (r: &Vec<RadarCurve>)
        ensures
            r@.map_values(|c: RadarCurve| c@) == self@.curves,
    {
        &self.curves
    }
}

/// The mathematical content of the whole chart state.
pub ghost struct ChartView {
    pub config: ConfigView,
    pub visibility: Seq<(Seq<char>, bool)>,
    pub tooltip: MachineView,
}

/// The chart's invariant: a digestible configuration and a well-formed
/// tooltip machine.
pub open spec fn chart_wf(v: ChartView) -> bool {
    props_wf(v.config) && machine_wf(v.tooltip)
}

/// The curve sequence with one data point's value overwritten.
pub open spec fn spec_set_value(curves: Seq<CurveView>, ci: int, pi: int, v: int) -> Seq<
    CurveView,
> {
    curves.update(
        ci,
        CurveView {
            points: curves[ci].points.update(
                pi,
                PointView { value: v, label: curves[ci].points[pi].label },
            ),
            ..curves[ci]
        },
    )
}

/// The curves that currently show: those whose name the registry looks
/// up as visible.
pub open spec fn spec_visible_curves(
    curves: Seq<CurveView>,
    vis: Seq<(Seq<char>, bool)>,
) -> Seq<CurveView> {
    curves.filter(|c: CurveView| spec_lookup(vis, c.name))
}

/// The tooltip payload of one data point: its indices, its label joined
/// with its value, its position and its curve's color, neither pinned
/// nor editing yet.
pub open spec fn spec_payload(c: ConfigView, ci: int, pi: int, pos: Vec2) -> TooltipView {
    TooltipView {
        curve_index: ci,
        point_index: pi,
        label: c.curves[ci].points[pi].label + seq![':', ' '] + spec_format_milli(
            c.curves[ci].points[pi].value,
        ),
        value: c.curves[ci].points[pi].value,
        x: pos.x as int,
        y: pos.y as int,
        color: c.curves[ci].color,
        pinned: false,
        editing: false,
    }
}

/// The names of the curves, cloned out in order.
fn curve_names(curves: &Vec<RadarCurve>) -> (r: Vec<String>)
    ensures
        r.deep_view() == spec_curve_names(curves@.map_values(|c: RadarCurve| c@)),
{
    let n: usize = curves.len();
    let mut r: Vec<String> = Vec::new();
    let mut i: usize = 0;
    while i < n
        invariant
            i <= n,
            n == curves@.len(),
            r@.len() == i,
            forall|k: int| 0 <= k < i ==> (#[trigger] r@[k])@ == curves@[k]@.name,
        decreases n - i,
    {
        r.push(curves[i].name.clone());
        i = i + 1;
    }
    proof {
        assert(r.deep_view() =~= spec_curve_names(curves@.map_values(|c: RadarCurve| c@)));
    }
    r
}

/// The chart orchestrator: the configuration, the visibility registry
/// and the tooltip machine, each mutated only through the operations
/// below.
pub struct RadarChart {
    props: RadarContainerProps,
    visibility: VisibilityMap,
    tooltip: TooltipMachine,
}

impl View for RadarChart {
    type V = ChartView;

    closed spec fn view(&self) -> ChartView {
        ChartView {
            config: self.props@,
            visibility: self.visibility@,
            tooltip: self.tooltip@,
        }
    }
}

impl RadarChart {
    /// A chart over a validated configuration: every curve starts
    /// visible, no tooltip is active.
    pub fn new(props: RadarContainerProps) -> (c: Self)
        requires
            props_wf(props@),
        ensures
            c@.config == props@,
            c@.visibility == Seq::new(
                props@.curves.len(),
                |i: int| (props@.curves[i].name, true),
            ),
            c@.tooltip.state is None,
            chart_wf(c@),
    {
        let names: Vec<String> = curve_names(props.curves());
        let visibility = VisibilityMap::new_all_visible(&names);
        let c = RadarChart { props, visibility, tooltip: TooltipMachine::new() };
        proof {
            assert forall|i: int| 0 <= i < c@.config.curves.len() implies c@.visibility[i] == (
                c@.config.curves[i].name,
                true,
            ) by {
                assert(names.deep_view().len() == names@.len());
                assert(names.deep_view()[i] == names@[i].deep_view());
                assert(names@[i].deep_view() == names@[i]@);
                assert(spec_curve_names(c@.config.curves)[i] == c@.config.curves[i].name);
            }
            assert(names.deep_view().len() == names@.len());
            assert(c@.visibility.len() == c@.config.curves.len());
            assert(c@.visibility =~= Seq::new(
                c@.config.curves.len(),
                |i: int| (c@.config.curves[i].name, true),
            ));
        }
        c
    }

    /// The configuration.
    pub fn config(&self) -> (r: &RadarContainerProps)
        ensures
            r@ == self@.config,
    {
        &self.props
    }

    /// The visibility registry.
    pub fn visibility_map(&self) -> (r: &VisibilityMap)
        ensures
            r@ == self@.visibility,
    {
        &self.visibility
    }

    /// The tooltip machine.
    pub fn tooltip_machine(&self) -> (r: &TooltipMachine)
        ensures
            r@ == self@.tooltip,
    {
        &self.tooltip
    }

    /// Replaces axes and curves together. On success the visibility
    /// registry is reconciled with the new curve names — flags of names
    /// that stay are preserved, new names come up visible, dropped names
    /// disappear — unless the names are exactly the registered ones, in
    /// which case the registry is left alone. On any error nothing
    /// changes at all. The tooltip is untouched either way.
    pub fn set_data(&mut self, axes: Vec<String>, curves: Vec<RadarCurve>) -> (r: Result<
        (),
        RadarError,
    >)
        requires
            chart_wf(old(self)@),
            forall|i: int| 0 <= i < curves@.len() ==> curve_wf((#[trigger] curves@[i])@),
        ensures
            chart_wf(final(self)@),
            final(self)@.tooltip == old(self)@.tooltip,
            r is Ok <==> spec_shape_ok(
                axes@.len() as int,
                curves@.map_values(|c: RadarCurve| c@),
            ),
            r is Err ==> final(self)@ == old(self)@,
            r is Ok ==> final(self)@.config == (ConfigView {
                axes: axes.deep_view(),
                curves: curves@.map_values(|cu: RadarCurve| cu@),
                ..old(self)@.config
            }),
            r is Ok ==> {
                let names = spec_curve_names(curves@.map_values(|cu: RadarCurve| cu@));
                &&& names == spec_names(old(self)@.visibility) ==> final(self)@.visibility
                    == old(self)@.visibility
                &&& names != spec_names(old(self)@.visibility) ==> final(self)@.visibility
                    == spec_reconcile(old(self)@.visibility, names)
            },
            r matches Err(e) ==> match e {
                RadarError::NoAxesProvided => axes@.len() == 0,
                RadarError::NoCurvesProvided => axes@.len() > 0 && curves@.len() == 0,
                RadarError::DataPointCountMismatch { curve_name, expected, actual } => {
                    &&& axes@.len() > 0
                    &&& curves@.len() > 0
                    &&& expected == axes@.len()
                    &&& exists|i: int|
                        {
                            &&& 0 <= i < curves@.len()
                            &&& (#[trigger] curves@[i])@.points.len() != axes@.len()
                            &&& curve_name@ == curves@[i]@.name
                            &&& actual == curves@[i]@.points.len()
                            &&& forall|j: int|
                                0 <= j < i ==> (#[trigger] curves@[j])@.points.len()
                                    == axes@.len()
                        }
                },
            },
    {
        let names: Vec<String> = curve_names(&curves);
        match self.props.set_data(axes, curves) {
            Err(e) => Err(e),
            Ok(()) => {
                self.visibility.reconcile(&names);
                Ok(())
            },
        }
    }

    /// The legend clicked a curve's entry: its visibility flips, every
    /// other curve keeps its flag.
    pub fn toggle_curve(&mut self, name: &String)
        requires
            chart_wf(old(self)@),
        ensures
            chart_wf(final(self)@),
            final(self)@ == (ChartView {
                visibility: spec_toggle(old(self)@.visibility, name@),
                ..old(self)@
            }),
    {
        self.visibility.toggle(name);
    }

    /// Overwrites one data point's value, located by curve and point
    /// index. An index out of range is a silent no-op, never a failure.
    pub fn set_data_point_value(&mut self, curve_index: usize, point_index: usize, value: i64)
        requires
            chart_wf(old(self)@),
            -MAX_VALUE <= value <= MAX_VALUE,
        ensures
            chart_wf(final(self)@),
            curve_index < old(self)@.config.curves.len() && point_index < old(self)@.config.curves[curve_index as int].points.len() ==> final(self)@ == (ChartView {
                config: ConfigView {
                    curves: spec_set_value(
                        old(self)@.config.curves,
                        curve_index as int,
                        point_index as int,
                        value as int,
                    ),
                    ..old(self)@.config
                },
                ..old(self)@
            }),
            !(curve_index < old(self)@.config.curves.len() && point_index < old(self)@.config.curves[curve_index as int].points.len()) ==> final(self)@ == old(self)@,
    {
        let ghost old_curves = self.props.curves@;
        if curve_index >= self.props.curves.len() {
            return ;
        }
        let mut curve: RadarCurve = self.props.curves.remove(curve_index);
        if point_index >= curve.data_points.len() {
            self.props.curves.insert(curve_index, curve);
            proof {
                assert(self.props.curves@ =~= old_curves);
                assert(self@ == old(self)@);
            }
            return ;
        }
        let mut dp: DataPoint = curve.data_points.remove(point_index);
        dp.value = value;
        curve.data_points.insert(point_index, dp);
        self.props.curves.insert(curve_index, curve);
        proof {
            let ci = curve_index as int;
            let pi = point_index as int;
            assert(curve.data_points@ =~= old_curves[ci].data_points@.update(pi, dp));
            assert(self.props.curves@ =~= old_curves.update(ci, curve));
            assert(curve@.points =~= old(self)@.config.curves[ci].points.update(pi, dp@));
            assert(self@.config.curves =~= spec_set_value(
                old(self)@.config.curves,
                ci,
                pi,
                value as int,
            ));
        }
    }

    /// Whether a curve and point index pair names a data point.
    fn point_in_range(&self, curve_index: usize, point_index: usize) -> (r: bool)
        ensures
            r == (curve_index < self@.config.curves.len() && point_index
                < self@.config.curves[curve_index as int].points.len()),
    {
        curve_index < self.props.curves.len() && point_index
            < self.props.curves[curve_index].data_points.len()
    }

    /// The tooltip payload of a data point: label joined with the
    /// current value, the curve's color, at the given position.
    fn payload(&self, curve_index: usize, point_index: usize, pos: Vec2) -> (t: TooltipData)
        requires
            chart_wf(self@),
            curve_index < self@.config.curves.len(),
            point_index < self@.config.curves[curve_index as int].points.len(),
        ensures
            t@ == spec_payload(self@.config, curve_index as int, point_index as int, pos),
            payload_wf(t@),
    {
        let curve: &RadarCurve = &self.props.curves[curve_index];
        let point: &DataPoint = &curve.data_points[point_index];
        proof {
            assert(self@.config.curves[curve_index as int] == curve@);
            assert(curve@.points[point_index as int] == point@);
        }
        let mut label: String = point.label.clone();
        proof {
            reveal_strlit(": ");
            assert(": "@ =~= seq![':', ' ']);
        }
        label.append(": ");
        let value_text: String = format_milli(point.value);
        label.append(value_text.as_str());
        TooltipData {
            curve_index,
            point_index,
            label,
            value: point.value,
            x: pos.x,
            y: pos.y,
            color: curve.color.clone(),
            pinned: false,
            editing: false,
        }
    }

    /// The pointer entered a data point's hit target. Out-of-range
    /// indices do nothing; a pinned tooltip blocks the hover; otherwise
    /// the tooltip hovers over this point.
    pub fn point_pointer_enter(&mut self, curve_index: usize, point_index: usize, pos: Vec2)
        requires
            chart_wf(old(self)@),
        ensures
            chart_wf(final(self)@),
            final(self)@.config == old(self)@.config,
            final(self)@.visibility == old(self)@.visibility,
            !(curve_index < old(self)@.config.curves.len() && point_index < old(self)@.config.curves[curve_index as int].points.len()) ==> final(self)@ == old(self)@,
            curve_index < old(self)@.config.curves.len() && point_index < old(self)@.config.curves[curve_index as int].points.len() ==> {
                &&& old(self)@.tooltip.state matches Some(p) ==> p.pinned ==> final(self)@
                    == old(self)@
                &&& (match old(self)@.tooltip.state {
                    Some(p) => !p.pinned,
                    None => true,
                }) ==> final(self)@.tooltip == (MachineView {
                    state: Some(
                        spec_payload(
                            old(self)@.config,
                            curve_index as int,
                            point_index as int,
                            pos,
                        ),
                    ),
                    buffer: old(self)@.tooltip.buffer,
                })
            },
    {
        if !self.point_in_range(curve_index, point_index) {
            return ;
        }
        let t: TooltipData = self.payload(curve_index, point_index, pos);
        self.tooltip.pointer_enter(t);
    }

    /// The pointer left the active point's hit target: a hovering
    /// tooltip hides, a pinned one stays.
    pub fn point_pointer_leave(&mut self)
        requires
            chart_wf(old(self)@),
        ensures
            chart_wf(final(self)@),
            final(self)@.config == old(self)@.config,
            final(self)@.visibility == old(self)@.visibility,
            old(self)@.tooltip.state matches Some(p) ==> !p.pinned ==> final(self)@.tooltip
                == (MachineView { state: None, buffer: old(self)@.tooltip.buffer }),
            (match old(self)@.tooltip.state {
                Some(p) => p.pinned,
                None => true,
            }) ==> final(self)@ == old(self)@,
    {
        self.tooltip.pointer_leave();
    }

    /// A click on a data point. Out-of-range indices do nothing;
    /// clicking the pinned point unpins and hides the tooltip; any other
    /// click pins the clicked point.
    pub fn point_click(&mut self, curve_index: usize, point_index: usize, pos: Vec2)
        requires
            chart_wf(old(self)@),
        ensures
            chart_wf(final(self)@),
            final(self)@.config == old(self)@.config,
            final(self)@.visibility == old(self)@.visibility,
            !(curve_index < old(self)@.config.curves.len() && point_index < old(self)@.config.curves[curve_index as int].points.len()) ==> final(self)@ == old(self)@,
            curve_index < old(self)@.config.curves.len() && point_index < old(self)@.config.curves[curve_index as int].points.len() ==> {
                let payload = spec_payload(
                    old(self)@.config,
                    curve_index as int,
                    point_index as int,
                    pos,
                );
                &&& old(self)@.tooltip.state matches Some(p) ==> p.pinned && same_point(
                    p,
                    payload,
                ) ==> final(self)@.tooltip == (MachineView {
                    state: None,
                    buffer: old(self)@.tooltip.buffer,
                })
                &&& (match old(self)@.tooltip.state {
                    Some(p) => !(p.pinned && same_point(p, payload)),
                    None => true,
                }) ==> final(self)@.tooltip == (MachineView {
                    state: Some(spec_pin(payload)),
                    buffer: old(self)@.tooltip.buffer,
                })
            },
    {
        if !self.point_in_range(curve_index, point_index) {
            return ;
        }
        let t: TooltipData = self.payload(curve_index, point_index, pos);
        self.tooltip.click(t);
    }

    /// Editing begins on the pinned tooltip, its buffer filled from the
    /// point's current value.
    pub fn start_edit(&mut self)
        requires
            chart_wf(old(self)@),
        ensures
            chart_wf(final(self)@),
            final(self)@.config == old(self)@.config,
            final(self)@.visibility == old(self)@.visibility,
            old(self)@.tooltip.state matches Some(p) ==> p.pinned && !p.editing ==> final(self)@.tooltip == (MachineView {
                state: Some(TooltipView { editing: true, ..p }),
                buffer: spec_format_milli(p.value),
            }),
            (match old(self)@.tooltip.state {
                Some(p) => !p.pinned || p.editing,
                None => true,
            }) ==> final(self)@ == old(self)@,
    {
        self.tooltip.start_edit();
    }

    /// The edit box's text changed.
    pub fn set_edit_input(&mut self, text: String)
        requires
            chart_wf(old(self)@),
        ensures
            chart_wf(final(self)@),
            final(self)@.config == old(self)@.config,
            final(self)@.visibility == old(self)@.visibility,
            old(self)@.tooltip.state matches Some(p) ==> p.editing ==> final(self)@.tooltip
                == (MachineView { state: old(self)@.tooltip.state, buffer: text@ }),
            (match old(self)@.tooltip.state {
                Some(p) => !p.editing,
                None => true,
            }) ==> final(self)@ == old(self)@,
    {
        self.tooltip.set_input(text);
    }

    /// Cancels the edit; the value stays what it was.
    pub fn cancel_edit(&mut self)
        requires
            chart_wf(old(self)@),
        ensures
            chart_wf(final(self)@),
            final(self)@.config == old(self)@.config,
            final(self)@.visibility == old(self)@.visibility,
            old(self)@.tooltip.state matches Some(p) ==> p.editing ==> final(self)@.tooltip
                == (MachineView {
                state: Some(TooltipView { editing: false, ..p }),
                buffer: spec_format_milli(p.value),
            }),
            (match old(self)@.tooltip.state {
                Some(p) => !p.editing,
                None => true,
            }) ==> final(self)@ == old(self)@,
    {
        self.tooltip.cancel();
    }

    /// Commits the open edit. A plain decimal in the buffer becomes the
    /// data point's new value — written into the configuration when the
    /// tooltip's indices still name a point, silently skipped otherwise —
    /// and is reported back, once, for the embedding application's
    /// benefit. Any other text reverts to the pre-edit value and acts as
    /// a cancel. Without an open edit box this does nothing.
    pub fn commit_edit(&mut self) -> (r: Option<EditCommit>)
        requires
            chart_wf(old(self)@),
        ensures
            chart_wf(final(self)@),
            final(self)@.visibility == old(self)@.visibility,
            (match old(self)@.tooltip.state {
                Some(p) => !p.editing,
                None => true,
            }) ==> final(self)@ == old(self)@ && r is None,
            old(self)@.tooltip.state matches Some(p) ==> p.editing ==> match spec_parse_milli(
                old(self)@.tooltip.buffer,
            ) {
                Some(v) => {
                    &&& final(self)@.tooltip == (MachineView {
                        state: Some(
                            TooltipView {
                                value: v,
                                label: spec_relabel(p.label, v),
                                editing: false,
                                ..p
                            },
                        ),
                        buffer: spec_format_milli(v),
                    })
                    &&& r matches Some(ec) && ec.curve_index == p.curve_index && ec.point_index
                        == p.point_index && ec.value == v
                    &&& 0 <= p.curve_index < old(self)@.config.curves.len() && 0 <= p.point_index
                        < old(self)@.config.curves[p.curve_index].points.len() ==> final(self)@.config == (ConfigView {
                        curves: spec_set_value(
                            old(self)@.config.curves,
                            p.curve_index,
                            p.point_index,
                            v,
                        ),
                        ..old(self)@.config
                    })
                    &&& !(0 <= p.curve_index < old(self)@.config.curves.len() && 0
                        <= p.point_index < old(self)@.config.curves[p.curve_index].points.len())
                        ==> final(self)@.config == old(self)@.config
                },
                None => {
                    &&& final(self)@.tooltip == (MachineView {
                        state: Some(TooltipView { editing: false, ..p }),
                        buffer: spec_format_milli(p.value),
                    })
                    &&& r is None
                    &&& final(self)@.config == old(self)@.config
                },
            },
    {
        let r: Option<EditCommit> = self.tooltip.commit();
        match &r {
            Some(ec) => {
                self.set_data_point_value(ec.curve_index, ec.point_index, ec.value);
            },
            None => {},
        }
        r
    }

    /// Losing focus on the edit box is an implicit commit attempt.
    pub fn blur_edit(&mut self) -> (r: Option<EditCommit>)
        requires
            chart_wf(old(self)@),
        ensures
            chart_wf(final(self)@),
            final(self)@.visibility == old(self)@.visibility,
            (match old(self)@.tooltip.state {
                Some(p) => !p.editing,
                None => true,
            }) ==> final(self)@ == old(self)@ && r is None,
            old(self)@.tooltip.state matches Some(p) ==> p.editing ==> match spec_parse_milli(
                old(self)@.tooltip.buffer,
            ) {
                Some(v) => {
                    &&& final(self)@.tooltip == (MachineView {
                        state: Some(
                            TooltipView {
                                value: v,
                                label: spec_relabel(p.label, v),
                                editing: false,
                                ..p
                            },
                        ),
                        buffer: spec_format_milli(v),
                    })
                    &&& r matches Some(ec) && ec.curve_index == p.curve_index && ec.point_index
                        == p.point_index && ec.value == v
                },
                None => {
                    &&& final(self)@.tooltip == (MachineView {
                        state: Some(TooltipView { editing: false, ..p }),
                        buffer: spec_format_milli(p.value),
                    })
                    &&& r is None
                    &&& final(self)@.config == old(self)@.config
                },
            },
    {
        self.commit_edit()
    }

    /// The curves that currently show, in order, as the legend and the
    /// graph both see them.
    pub fn visible_curves(&self) -> (r: Vec<RadarCurve>)
        ensures
            r@.map_values(|c: RadarCurve| c@) == spec_visible_curves(
                self@.config.curves,
                self@.visibility,
            ),
    {
        let n: usize = self.props.curves.len();
        let mut out: Vec<RadarCurve> = Vec::new();
        let mut i: usize = 0;
        proof {
            reveal(Seq::filter);
            assert(self@.config.curves.take(0) =~= Seq::<CurveView>::empty());
        }
        while i < n
            invariant
                i <= n,
                n == self.props.curves.len(),
                out@.map_values(|c: RadarCurve| c@) == spec_visible_curves(
                    self@.config.curves.take(i as int),
                    self@.visibility,
                ),
            decreases n - i,
        {
            let visible: bool = self.visibility.lookup(&self.props.curves[i].name);
            let ghost prefix = self@.config.curves.take(i as int);
            let ghost prefix1 = self@.config.curves.take(i + 1);
            proof {
                reveal(Seq::filter);
                assert(prefix1.drop_last() =~= prefix);
                assert(prefix1.last() == self@.config.curves[i as int]);
            }
            if visible {
                out.push(clone_curve(&self.props.curves[i]));
                proof {
                    assert(out@.map_values(|c: RadarCurve| c@) =~= spec_visible_curves(
                        prefix1,
                        self@.visibility,
                    ));
                }
            } else {
                proof {
                    assert(out@.map_values(|c: RadarCurve| c@) =~= spec_visible_curves(
                        prefix1,
                        self@.visibility,
                    ));
                }
            }
            i = i + 1;
        }
        proof {
            assert(self@.config.curves.take(n as int) =~= self@.config.curves);
        }
        out
    }

    /// The chart's frame: its center and rim radius — four fifths of the
    /// smaller half-extent, so every point, label and control point
    /// stays inside the coordinate budget.
    pub fn frame(&self) -> (f: (Vec2, i64))
        requires
            chart_wf(self@),
        ensures
            f.0 == spec_center(self@.config.width, self@.config.height),
            f.1 == spec_rim_radius(self@.config.width, self@.config.height),
            frame_wf(f.0, f.1 as int),
            0 <= f.1 <= MAX_RADIUS,
            f.1 <= MAX_COORD,
    {
        let cx: i64 = (self.props.width as i64) * 500;
        let cy: i64 = (self.props.height as i64) * 500;
        let half: i64 = if cx <= cy {
            cx
        } else {
            cy
        };
        proof {
            assert(0 <= half * RIM_FACTOR <= MAX_PRODUCT) by (nonlinear_arith)
                requires
                    0 <= half <= 500_000_000,
            ;
            lemma_milli_scale_unit_bound(half as int, RIM_FACTOR as int);
            assert(spec_milli_scale(half as int, RIM_FACTOR as int) >= 0) by (nonlinear_arith)
                requires
                    half >= 0,
            ;
        }
        let radius: i64 = milli_scale(half, RIM_FACTOR);
        (Vec2 { x: cx, y: cy }, radius)
    }

    /// Assembles the whole renderable scene: `grid_levels` reference
    /// rings, one spoke per axis along the given directions, and the
    /// visible curves rendered in order — each with its smoothed closed
    /// path and markers, or its diagnostic. The at-most-one active
    /// tooltip overlays the scene straight from the tooltip machine.
    pub fn build_scene(&self, dirs: &Vec<UnitDir>, grid_levels: u32) -> (scene: Scene)
        requires
            chart_wf(self@),
            self@.config.axes.len() >= 1,
            dirs.len() == self@.config.axes.len(),
            forall|i: int| 0 <= i < dirs.len() ==> dir_wf(#[trigger] dirs[i]),
            grid_levels <= MAX_GRID_LEVELS,
        ensures
            ({
                let center = spec_center(self@.config.width, self@.config.height);
                let radius = spec_rim_radius(self@.config.width, self@.config.height);
                &&& scene@.rings.len() == grid_levels
                &&& forall|k: int|
                    0 <= k < grid_levels ==> (#[trigger] scene@.rings[k]) == spec_grid_ring(
                        k + 1,
                        grid_levels as int,
                        radius,
                        self@.config.max_value,
                        center,
                    )
                &&& scene@.spokes.len() == self@.config.axes.len()
                &&& forall|i: int|
                    0 <= i < self@.config.axes.len() ==> (#[trigger] scene@.spokes[i])
                        == spec_axis_spoke(self@.config.axes[i], dirs@[i], center, radius)
                &&& scene@.curves == spec_scene_curves(
                    self@.config.curves,
                    self@.visibility,
                    self@.config.axes.len() as int,
                    dirs@,
                    center,
                    radius,
                    self@.config.max_value,
                    0,
                )
                &&& scene@.tooltip == self@.tooltip.state
            }),
    {
        let f: (Vec2, i64) = self.frame();
        let center: Vec2 = f.0;
        let radius: i64 = f.1;
        let rings: Vec<GridRing> = build_grid(center, radius, self.props.max_value, grid_levels);
        let spokes: Vec<AxisSpoke> = build_axes(&self.props.axes, dirs, center, radius);
        let axes_len: usize = self.props.axes.len();
        let n: usize = self.props.curves.len();
        let mut curves: Vec<CurveRender> = Vec::new();
        let ghost whole = spec_scene_curves(
            self@.config.curves,
            self@.visibility,
            axes_len as int,
            dirs@,
            center,
            radius as int,
            self@.config.max_value,
            0,
        );
        let mut i: usize = 0;
        while i < n
            invariant
                i <= n,
                n == self.props.curves.len(),
                axes_len == self@.config.axes.len(),
                dirs@.len() == axes_len,
                1 <= axes_len,
                forall|k: int| 0 <= k < dirs@.len() ==> dir_wf(#[trigger] dirs@[k]),
                chart_wf(self@),
                frame_wf(center, radius as int),
                0 <= radius <= MAX_COORD,
                whole == spec_scene_curves(
                    self@.config.curves,
                    self@.visibility,
                    axes_len as int,
                    dirs@,
                    center,
                    radius as int,
                    self@.config.max_value,
                    0,
                ),
                whole == curves@.map_values(|c: CurveRender| c@) + spec_scene_curves(
                    self@.config.curves,
                    self@.visibility,
                    axes_len as int,
                    dirs@,
                    center,
                    radius as int,
                    self@.config.max_value,
                    i as int,
                ),
            decreases n - i,
        {
            let ghost acc = curves@.map_values(|c: CurveRender| c@);
            let ghost rest = spec_scene_curves(
                self@.config.curves,
                self@.visibility,
                axes_len as int,
                dirs@,
                center,
                radius as int,
                self@.config.max_value,
                i as int,
            );
            let ghost rest1 = spec_scene_curves(
                self@.config.curves,
                self@.visibility,
                axes_len as int,
                dirs@,
                center,
                radius as int,
                self@.config.max_value,
                i + 1,
            );
            let visible: bool = self.visibility.lookup(&self.props.curves[i].name);
            if visible {
                let r: CurveRender = render_curve(
                    &self.props.curves[i],
                    i,
                    axes_len,
                    dirs,
                    center,
                    radius,
                    self.props.max_value,
                );
                curves.push(r);
                proof {
                    let rv = spec_curve_render(
                        self@.config.curves[i as int],
                        i as int,
                        axes_len as int,
                        dirs@,
                        center,
                        radius as int,
                        self@.config.max_value,
                    );
                    assert(rest == seq![rv] + rest1);
                    assert(curves@.map_values(|c: CurveRender| c@) =~= acc.push(rv));
                    assert(acc.push(rv) =~= acc + seq![rv]);
                    assert((acc + seq![rv]) + rest1 =~= acc + (seq![rv] + rest1));
                }
            } else {
                proof {
                    assert(rest == rest1);
                }
            }
            i = i + 1;
        }
        proof {
            assert(spec_scene_curves(
                self@.config.curves,
                self@.visibility,
                axes_len as int,
                dirs@,
                center,
                radius as int,
                self@.config.max_value,
                n as int,
            ) =~= Seq::<CurveRenderView>::empty());
            assert(curves@.map_values(|c: CurveRender| c@) + Seq::<CurveRenderView>::empty()
                =~= curves@.map_values(|c: CurveRender| c@));
        }
        let tooltip: Option<TooltipData> = match &self.tooltip.state {
            Some(t) => Some(clone_tooltip(t)),
            None => None,
        };
        Scene { rings, spokes, curves, tooltip }
    }

    /// The legend's rows, one per curve in order: name, swatch color,
    /// and the current visibility flag. A click on row `i` feeds the
    /// row's name back into [`RadarChart::toggle_curve`].
    pub fn legend_entries(&self) -> (r: Vec<LegendEntry>)
        ensures
            r@.len() == self@.config.curves.len(),
            forall|i: int|
                0 <= i < r@.len() ==> {
                    &&& (#[trigger] r@[i]).name@ == self@.config.curves[i].name
                    &&& r@[i].color@ == self@.config.curves[i].color
                    &&& r@[i].visible == spec_lookup(
                        self@.visibility,
                        self@.config.curves[i].name,
                    )
                },
    {
        let n: usize = self.props.curves.len();
        let mut r: Vec<LegendEntry> = Vec::new();
        let mut i: usize = 0;
        while i < n
            invariant
                i <= n,
                n == self.props.curves.len(),
                r@.len() == i,
                forall|k: int|
                    0 <= k < i ==> {
                        &&& (#[trigger] r@[k]).name@ == self@.config.curves[k].name
                        &&& r@[k].color@ == self@.config.curves[k].color
                        &&& r@[k].visible == spec_lookup(
                            self@.visibility,
                            self@.config.curves[k].name,
                        )
                    },
            decreases n - i,
        {
            let visible: bool = self.visibility.lookup(&self.props.curves[i].name);
            r.push(
                LegendEntry {
                    name: self.props.curves[i].name.clone(),
                    color: self.props.curves[i].color.clone(),
                    visible,
                },
            );
            i = i + 1;
        }
        r
    }
}

/// The mathematical content of a scene.
pub ghost struct SceneView {
    pub rings: Seq<GridRing>,
    pub spokes: Seq<SpokeView>,
    pub curves: Seq<CurveRenderView>,
    pub tooltip: Option<TooltipView>,
}

/// One renderable scene: the grid rings, the axis spokes, the visible
/// curves in order, and the at-most-one active tooltip on top.
pub struct Scene {
    pub rings: Vec<GridRing>,
    pub spokes: Vec<AxisSpoke>,
    pub curves: Vec<CurveRender>,
    pub tooltip: Option<TooltipData>,
}

impl View for Scene {
    type V = SceneView;

    open spec fn view(&self) -> SceneView {
        SceneView {
            rings: self.rings@,
            spokes: self.spokes@.map_values(|s: AxisSpoke| s@),
            curves: self.curves@.map_values(|c: CurveRender| c@),
            tooltip: match self.tooltip {
                Some(t) => Some(t@),
                None => None,
            },
        }
    }
}

/// One legend row: a curve's name, its swatch color, and whether the
/// curve currently shows.
pub struct LegendEntry {
    pub name: String,
    pub color: String,
    pub visible: bool,
}

/// The renders of the curves from index `i` on that the registry shows,
/// in order, each tagged with its index into the full curve list — so a
/// marker's indices address the configuration, not the filtered view.
pub open spec fn spec_scene_curves(
    curves: Seq<CurveView>,
    vis: Seq<(Seq<char>, bool)>,
    axes_len: int,
    dirs: Seq<UnitDir>,
    center: Vec2,
    radius: int,
    max_value: int,
    i: int,
) -> Seq<CurveRenderView>
    decreases curves.len() - i,
    when 0 <= i <= curves.len()
{
    if i >= curves.len() {
        Seq::empty()
    } else {
        let rest = spec_scene_curves(
            curves,
            vis,
            axes_len,
            dirs,
            center,
            radius,
            max_value,
            i + 1,
        );
        if spec_lookup(vis, curves[i].name) {
            seq![spec_curve_render(curves[i], i, axes_len, dirs, center, radius, max_value)]
                + rest
        } else {
            rest
        }
    }
}

} // verus!
