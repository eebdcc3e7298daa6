//! A 2D scatter-plot renderer.
//!
//! The library maps a data-space bounding box onto a pixel-space layout
//! rectangle (flipping the vertical axis to match mathematical convention)
//! and emits draw primitives — one filled quad per point, plus two axis
//! lines — in the order a retained-mode renderer consumes them.
//!
//! All coordinates given to the library are integers in caller-chosen
//! units, and every emitted position is an exact fraction of integers, so
//! the whole transform is exact: no rounding happens anywhere in here.

pub mod frac;
pub mod geom;
pub mod laws;
pub mod plot;
