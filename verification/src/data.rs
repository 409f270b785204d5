//! The chart's data model: data points and named curves.
//!
//! A data value is carried in milli-units, like everything else in the
//! library: the value `70` of a chart whose scale tops out at `100` is
//! stored as `70_000` against a maximum of `100_000`.

use vstd::prelude::*;

use crate::fixed::MAX_VALUE;

verus! {

/// The mathematical content of a data point.
pub ghost struct PointView {
    pub value: int,
    pub label: Seq<char>,
}

/// A data point: a value for one axis, with its label.
pub struct DataPoint {
    pub value: i64,
    pub label: String,
}

impl View for DataPoint {
    type V = PointView;

    open spec fn view(&self) -> PointView {
        PointView { value: self.value as int, label: self.label@ }
    }
}

/// The mathematical content of a curve.
pub ghost struct CurveView {
    pub name: Seq<char>,
    pub points: Seq<PointView>,
    pub color: Seq<char>,
}

/// One named series of data points, one per axis, with a CSS color.
pub struct RadarCurve {
    pub name: String,
    pub data_points: Vec<DataPoint>,
    pub color: String,
}

impl View for RadarCurve {
    type V = CurveView;

    open spec fn view(&self) -> CurveView {
        CurveView {
            name: self.name@,
            points: self.data_points@.map_values(|p: DataPoint| p@),
            color: self.color@,
        }
    }
}

/// A data point whose value the library can format and scale.
pub open spec fn point_wf(p: PointView) -> bool {
    -MAX_VALUE <= p.value <= MAX_VALUE
}

/// A curve whose points are all well formed.
pub open spec fn curve_wf(c: CurveView) -> bool {
    forall|i: int| 0 <= i < c.points.len() ==> point_wf(#[trigger] c.points[i])
}

/// An exact copy of a data point.
pub fn clone_point(p: &DataPoint) -> (r: DataPoint)
    ensures
        r@ == p@,
{
    DataPoint { value: p.value, label: p.label.clone() }
}

/// An exact copy of a curve.
pub fn clone_curve(c: &RadarCurve) -> (r: RadarCurve)
    ensures
        r@ == c@,
{
    let mut data_points: Vec<DataPoint> = Vec::new();
    let n: usize = c.data_points.len();
    let mut i: usize = 0;
    while i < n
        invariant
            i <= n,
            n == c.data_points.len(),
            data_points@.len() == i,
            forall|k: int| 0 <= k < i ==> (#[trigger] data_points@[k])@ == c.data_points@[k]@,
        decreases n - i,
    {
        data_points.push(clone_point(&c.data_points[i]));
        i = i + 1;
    }
    let r = RadarCurve { name: c.name.clone(), data_points, color: c.color.clone() };
    proof {
        assert(r@.points =~= c@.points);
    }
    r
}

} // verus!
