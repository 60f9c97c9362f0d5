//! Interaction logic for a small set of control widgets: an XY pad, sliders,
//! a range zoomer and a multi-segment envelope editor.
//!
//! The crate holds the part of each widget that decides: how a pointer
//! position maps to a value, which state a pointer event leads to, and what a
//! widget reports to its owner. Drawing and event delivery stay with the host
//! toolkit, which hands every event over together with the widget's bounds.

pub mod scalar;
pub mod vec2;
pub mod extensions;
pub mod bounding_box;
pub mod curve_point;
pub mod interaction;
pub mod xy_pad;
pub mod slider;
pub mod zoomer;
pub mod mseg;
