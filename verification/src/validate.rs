//! Shape validation of axes and curves.
//!
//! A chart is well shaped when it has at least one axis, at least one
//! curve, and every curve carries exactly one data point per axis. The
//! first curve breaking that rule names the error.

use vstd::prelude::*;

use crate::data::CurveView;
use crate::data::RadarCurve;

verus! {

/// Why a chart configuration was rejected.
#[derive(Debug, Clone)]
pub enum RadarError {
    /// A curve's data-point count differs from the axis count.
    DataPointCountMismatch { curve_name: String, expected: usize, actual: usize },
    /// The axis list is empty.
    NoAxesProvided,
    /// The curve list is empty.
    NoCurvesProvided,
}

/// Every curve carries exactly one data point per axis.
pub open spec fn spec_counts_ok(curves: Seq<CurveView>, axes_len: int) -> bool {
    forall|i: int| 0 <= i < curves.len() ==> (#[trigger] curves[i]).points.len() == axes_len
}

/// The full shape rule: axes and curves present, counts matching.
pub open spec fn spec_shape_ok(axes_len: int, curves: Seq<CurveView>) -> bool {
    axes_len > 0 && curves.len() > 0 && spec_counts_ok(curves, axes_len)
}

/// Checks the shape of a chart configuration: `Ok` exactly when at least
/// one axis and one curve are given and every curve's point count equals
/// the axis count; otherwise the error names what failed, a mismatch
/// citing the first offending curve.
pub fn validate(axes: &Vec<String>, curves: &Vec<RadarCurve>) -> (r: Result<(), RadarError>)
    ensures
        r is Ok <==> spec_shape_ok(axes@.len() as int, curves@.map_values(|c: RadarCurve| c@)),
        r matches Err(e) ==> match e {
            RadarError::NoAxesProvided => axes@.len() == 0,
            RadarError::NoCurvesProvided => axes@.len() > 0 && curves@.len() == 0,
            RadarError::DataPointCountMismatch { curve_name, expected, actual } => {
                &&& axes@.len() > 0
                &&& curves@.len() > 0
                &&& expected == axes@.len()
                &&& exists|i: int|
                    {
                        &&& 0 <= i < curves@.len()
                        &&& (#[trigger] curves@[i])@.points.len() != axes@.len()
                        &&& curve_name@ == curves@[i]@.name
                        &&& actual == curves@[i]@.points.len()
                        &&& forall|j: int|
                            0 <= j < i ==> (#[trigger] curves@[j])@.points.len() == axes@.len()
                    }
            },
        },
{
    if axes.len() == 0 {
        return Err(RadarError::NoAxesProvided);
    }
    if curves.len() == 0 {
        return Err(RadarError::NoCurvesProvided);
    }
    let expected: usize = axes.len();
    let n: usize = curves.len();
    let mut i: usize = 0;
    while i < n
        invariant
            i <= n,
            n == curves@.len(),
            n > 0,
            expected == axes@.len(),
            expected > 0,
            forall|j: int| 0 <= j < i ==> (#[trigger] curves@[j])@.points.len() == expected,
        decreases n - i,
    {
        let actual: usize = curves[i].data_points.len();
        if actual != expected {
            let curve_name = curves[i].name.clone();
            proof {
                let k = i as int;
                let cvs = curves@.map_values(|c: RadarCurve| c@);
                assert(cvs[k] == curves@[k]@);
                assert(!spec_counts_ok(cvs, axes@.len() as int));
                assert(exists|ii: int|
                    {
                        &&& 0 <= ii < curves@.len()
                        &&& (#[trigger] curves@[ii])@.points.len() != axes@.len()
                        &&& curve_name@ == curves@[ii]@.name
                        &&& actual == curves@[ii]@.points.len()
                        &&& forall|j: int|
                            0 <= j < ii ==> (#[trigger] curves@[j])@.points.len() == axes@.len()
                    }) by {
                    assert((#[trigger] curves@[k])@.points.len() != axes@.len());
                    assert(curve_name@ == curves@[k]@.name);
                }
            }
            return Err(RadarError::DataPointCountMismatch { curve_name, expected, actual });
        }
        i = i + 1;
    }
    Ok(())
}

} // verus!
