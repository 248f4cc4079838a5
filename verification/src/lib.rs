//! Procedural animation and motion curves for a 2-D platformer.
//!
//! The crate covers the timing and curve evaluation that drives sprite
//! animation and path-following motion:
//!
//! * [`animation`] — frame timelines (timed sequences of sprite-frame
//!   indices) and sets of timelines with one active selection;
//! * [`spline`] — Catmull-Rom evaluation of a cardinal spline through 2-D
//!   control points, open or looped, with tangents and polyline sampling;
//! * [`interp`] — linear and cubic-Hermite keyframe interpolation;
//! * [`driver`] — the per-tick update routines that advance timelines and
//!   map elapsed time onto a spline's parametric domain.
//!
//! All time values are unsigned integers in a caller-chosen unit (for
//! example nanoseconds), and all coordinates are signed integers in a
//! caller-chosen fixed-point scale, so that every computation here is
//! exact integer arithmetic.

use vstd::prelude::*;

pub mod animation;
pub mod driver;
pub mod errors;
pub mod fixed;
pub mod interp;
pub mod spline;

verus! {

/// Marker for a decorative world-text entity. Such entities carry no
/// timeline or spline of their own; the tick driver leaves them untouched.
pub struct WorldMessage;

} // verus!
