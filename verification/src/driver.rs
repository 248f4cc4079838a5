//! The per-tick update routines.
//!
//! Once per simulation tick the host scheduler supplies a non-negative
//! elapsed delta; the driver advances each timeline or timeline set and
//! hands back the frame index the renderer should show, and maps elapsed
//! time onto a spline's parametric domain for path-driven transforms.
//! The driver works on plain values: polling the clock and walking the
//! entity store belong to the host.

use vstd::prelude::*;
use crate::animation::{RustAnimation, RustAnimationAtlas};
use crate::fixed::SCALE;
use crate::spline::{CardinalSpline, Point};

verus! {

/// Advances one timeline and returns the frame index to render.
pub fn update_rust_animation(animation: &mut RustAnimation, delta: u64) -> (frame: usize)
    requires
        old(animation).wf(),
    ensures
        *final(animation) == old(animation).tick_spec(delta as int),
        final(animation).wf(),
        frame == final(animation).current_frame(),
{
    animation.tick(delta);
    animation.current()
}

/// Advances the active timeline of one set and returns the frame index
/// to render.
pub fn update_rust_animation_atlas(atlas: &mut RustAnimationAtlas, delta: u64) -> (frame: usize)
    requires
        old(atlas).wf(),
    ensures
        RustAnimationAtlas::tick_rel(*old(atlas), *final(atlas), delta as int),
        final(atlas).wf(),
        frame == final(atlas).current_frame(),
{
    atlas.tick(delta);
    atlas.current()
}

/// Advances every timeline set of a store by one tick and returns the
/// frame index each one should now show, in the same order.
pub fn update_rust_animation_atlases(sets: &mut Vec<RustAnimationAtlas>, delta: u64) -> (frames:
    Vec<usize>)
    requires
        forall|i: int| 0 <= i < old(sets)@.len() ==> (#[trigger] old(sets)@[i]).wf(),
    ensures
        final(sets)@.len() == old(sets)@.len(),
        forall|i: int|
            0 <= i < old(sets)@.len() ==> RustAnimationAtlas::tick_rel(
                old(sets)@[i],
                #[trigger] final(sets)@[i],
                delta as int,
            ),
        forall|i: int| 0 <= i < old(sets)@.len() ==> (#[trigger] final(sets)@[i]).wf(),
        frames@.len() == old(sets)@.len(),
        forall|i: int|
            0 <= i < frames@.len() ==> frames@[i] == (#[trigger] final(sets)@[i]).current_frame(),
{
    let n = sets.len();
    let mut frames: Vec<usize> = Vec::new();
    let mut i: usize = 0;
    while i < n
        invariant
            n == sets@.len(),
            sets@.len() == old(sets)@.len(),
            i <= n,
            forall|j: int| i <= j < n ==> sets@[j] == old(sets)@[j],
            forall|j: int|
                0 <= j < i ==> RustAnimationAtlas::tick_rel(
                    old(sets)@[j],
                    #[trigger] sets@[j],
                    delta as int,
                ),
            forall|j: int| 0 <= j < n ==> (#[trigger] sets@[j]).wf(),
            frames@.len() == i,
            forall|j: int| 0 <= j < i ==> frames@[j] == (#[trigger] sets@[j]).current_frame(),
        decreases n - i,
    {
        let ghost prev = sets@;
        let mut a = sets.remove(i);
        a.tick(delta);
        let f = a.current();
        sets.insert(i, a);
        proof {
            assert(sets@ =~= prev.update(i as int, sets@[i as int]));
        }
        frames.push(f);
        i = i + 1;
    }
    frames
}

/// Maps elapsed time onto a spline's parametric domain and evaluates the
/// position there: the path crosses one control-point segment per
/// `units_per_segment` time units.
pub fn spline_position_at_time(spline: &CardinalSpline, elapsed: u64, units_per_segment: u64) -> (p:
    Point)
    requires
        spline.wf(),
        units_per_segment > 0,
        (elapsed as int) * (SCALE as int) / (units_per_segment as int) <= u64::MAX,
    ensures
        p == spline.position_spec(
            (elapsed as int) * (SCALE as int) / (units_per_segment as int),
        ),
{
    let t128: u128 = (elapsed as u128) * (SCALE as u128) / (units_per_segment as u128);
    let t: u64 = t128 as u64;
    spline.position_at(t)
}

} // verus!
