//! Error types for timeline and curve construction.
//!
//! Construction errors represent authoring mistakes in static level data
//! and are reported as soon as a timeline or curve is built. No error here
//! is fatal to a running simulation: a rejected value is simply never
//! constructed.

use vstd::prelude::*;

verus! {

/// Why a timeline, spline or keyframe path could not be constructed.
#[derive(Clone, Copy, Debug, PartialEq, Eq, Structural)]
pub enum ConstructionError {
    /// The frame list of a timeline was empty.
    EmptyList,
    /// A per-frame duration list did not match the frame list in length.
    LengthMismatch,
    /// A spline was given fewer control points than one cubic stencil needs.
    TooFewControlPoints,
    /// A polyline sample step of zero was requested.
    InvalidStep,
    /// A keyframe path was given fewer than two values.
    TooFewKeyframes,
}

/// Error returned when a timeline set is asked to activate an index that
/// names no timeline. The set is left unchanged.
#[derive(Clone, Copy, Debug, PartialEq, Eq, Structural)]
pub struct InvalidActiveIndex;

} // verus!
