//! A radar (spider) chart core: polar-to-Cartesian projection, grid and axis
//! layout, smoothed closed curve paths, a curve-visibility registry, a
//! hover/pin/edit tooltip state machine, and shape validation.
//!
//! All geometry is carried out in milli-units (one thousandth of a chart
//! unit), so that every coordinate, radius and data value is an exact
//! integer and every formula in a contract means exactly what it says.
//! The one quantity that has no exact integer form — the cosine/sine
//! pair of an axis angle — enters from outside: the host computes it
//! (its exact rational angle comes from [`angle::axis_angle`]) and hands
//! it in as a [`geometry::UnitDir`]; every contract then holds for
//! whatever directions were given. The host also turns the produced
//! scene into drawable primitives and feeds pointer and keyboard events
//! back into the transition functions.

pub mod angle;
pub mod axis;
pub mod chart;
pub mod data;
pub mod fixed;
pub mod geometry;
pub mod grid;
pub mod numtext;
pub mod path;
pub mod scene;
pub mod sqrt;
pub mod tooltip;
pub mod validate;
pub mod visibility;

pub use fixed::SCALE;
pub use fixed::MAX_COORD;
