//! Frame timelines: timed sequences of sprite-frame indices.
//!
//! A [`RustAnimation`] steps through a non-empty list of frame indices,
//! advancing one position each time the accumulated delta reaches the
//! current step duration and wrapping past the last position. Timing is
//! either one uniform step duration or one duration per frame. A
//! [`RustAnimationAtlas`] holds several timelines and advances only the
//! active one.
//!
//! Durations and deltas are unsigned integers in a caller-chosen time
//! unit. A tick advances at most one position, however large the delta:
//! there is no catch-up loop.

use vstd::prelude::*;
use crate::errors::{ConstructionError, InvalidActiveIndex};

verus! {

/// The frame sequence of a timeline together with its timing scheme.
#[derive(Debug)]
pub enum RustAnimationType {
    /// Frames that all share one step duration.
    IndexList { indices: Vec<usize>, position: usize, step: u64 },
    /// Frames with one step duration each.
    VariableTimingList { indices: Vec<usize>, timing: Vec<u64>, position: usize },
}

impl RustAnimationType {
    /// The frame indices this timeline steps through.
    pub open spec fn frames(self) -> Seq<usize> {
        match self {
            RustAnimationType::IndexList { indices, .. } => indices@,
            RustAnimationType::VariableTimingList { indices, .. } => indices@,
        }
    }

    /// The current position within the frame sequence.
    pub open spec fn cursor(self) -> int {
        match self {
            RustAnimationType::IndexList { position, .. } => position as int,
            RustAnimationType::VariableTimingList { position, .. } => position as int,
        }
    }

    /// The step duration at position `i` of the frame sequence.
    pub open spec fn step_at(self, i: int) -> int
        recommends
            0 <= i < self.frames().len(),
    {
        match self {
            RustAnimationType::IndexList { step, .. } => step as int,
            RustAnimationType::VariableTimingList { timing, .. } => timing@[i] as int,
        }
    }

    /// Whether every frame shares one step duration.
    pub open spec fn uniform(self) -> bool {
        self is IndexList
    }

    /// Well-formed: at least one frame, the position names a frame, and a
    /// per-frame duration list matches the frame list in length.
    pub open spec fn wf(self) -> bool {
        &&& 1 <= self.frames().len() <= usize::MAX
        &&& 0 <= self.cursor() < self.frames().len()
        &&& match self {
            RustAnimationType::IndexList { .. } => true,
            RustAnimationType::VariableTimingList { indices, timing, .. } => timing@.len()
                == indices@.len(),
        }
    }

    /// The frame index at the current position; out-of-range positions
    /// fall back to the first frame rather than failing.
    pub open spec fn current_frame(self) -> usize
        recommends
            self.frames().len() >= 1,
    {
        if 0 <= self.cursor() < self.frames().len() {
            self.frames()[self.cursor()]
        } else {
            self.frames()[0]
        }
    }

    /// The timeline one position further on, wrapped past the last frame.
    pub open spec fn advanced(self) -> RustAnimationType {
        match self {
            RustAnimationType::IndexList { indices, position, step } => {
                RustAnimationType::IndexList {
                    indices,
                    position: if position + 1 >= indices@.len() {
                        0usize
                    } else {
                        (position + 1) as usize
                    },
                    step,
                }
            },
            RustAnimationType::VariableTimingList { indices, timing, position } => {
                RustAnimationType::VariableTimingList {
                    indices,
                    timing,
                    position: if position + 1 >= indices@.len() {
                        0usize
                    } else {
                        (position + 1) as usize
                    },
                }
            },
        }
    }

    /// Builds a uniform-step timeline; an empty frame list is rejected.
    pub fn list(value: Vec<usize>, step: u64) -> (r: Result<Self, ConstructionError>)
        ensures
            (match r {
                Ok(a) => {
                    &&& value@.len() > 0
                    &&& a.wf()
                    &&& a.uniform()
                    &&& a.frames() == value@
                    &&& a.cursor() == 0
                    &&& forall|i: int| 0 <= i < a.frames().len() ==> a.step_at(i) == step
                },
                Err(e) => value@.len() == 0 && e == ConstructionError::EmptyList,
            }),
    {
        if value.len() == 0 {
            Err(ConstructionError::EmptyList)
        } else {
            Ok(RustAnimationType::IndexList { indices: value, position: 0, step })
        }
    }

    /// Builds a uniform-step timeline over the inclusive index range
    /// `start..=end`; an empty range is rejected.
    pub fn range(start: usize, end: usize, step: u64) -> (r: Result<Self, ConstructionError>)
        requires
            start <= end ==> end - start < usize::MAX,
        ensures
            (match r {
                Ok(a) => {
                    &&& start <= end
                    &&& a.wf()
                    &&& a.uniform()
                    &&& a.frames().len() == end - start + 1
                    &&& forall|i: int| 0 <= i < a.frames().len() ==> a.frames()[i] == start + i
                    &&& a.cursor() == 0
                    &&& forall|i: int| 0 <= i < a.frames().len() ==> a.step_at(i) == step
                },
                Err(e) => start > end && e == ConstructionError::EmptyList,
            }),
    {
        if start > end {
            return Err(ConstructionError::EmptyList);
        }
        let mut indices: Vec<usize> = Vec::new();
        let mut i: usize = start;
        loop
            invariant_except_break
                indices@.len() == i - start,
            invariant
                start <= i <= end,
                end - start < usize::MAX,
                forall|k: int| 0 <= k < indices@.len() ==> indices@[k] == start + k,
            ensures
                indices@.len() == end - start + 1,
                forall|k: int| 0 <= k < indices@.len() ==> indices@[k] == start + k,
            decreases end - i,
        {
            indices.push(i);
            if i == end {
                break ;
            }
            i = i + 1;
        }
        Ok(RustAnimationType::IndexList { indices, position: 0, step })
    }

    /// Builds a per-frame-timing timeline; an empty frame list is
    /// rejected, then a duration list of a different length.
    pub fn variable_timing_list(value: Vec<usize>, timing: Vec<u64>) -> (r: Result<
        Self,
        ConstructionError,
    >)
        ensures
            (match r {
                Ok(a) => {
                    &&& value@.len() > 0
                    &&& timing@.len() == value@.len()
                    &&& a.wf()
                    &&& !a.uniform()
                    &&& a.frames() == value@
                    &&& a.cursor() == 0
                    &&& forall|i: int| 0 <= i < a.frames().len() ==> a.step_at(i) == timing@[i]
                },
                Err(e) => if value@.len() == 0 {
                    e == ConstructionError::EmptyList
                } else {
                    timing@.len() != value@.len() && e == ConstructionError::LengthMismatch
                },
            }),
    {
        if value.len() == 0 {
            Err(ConstructionError::EmptyList)
        } else if value.len() != timing.len() {
            Err(ConstructionError::LengthMismatch)
        } else {
            Ok(RustAnimationType::VariableTimingList { indices: value, timing, position: 0 })
        }
    }

    /// Builds a per-frame-timing timeline over the inclusive index range
    /// `start..=end`.
    pub fn variable_timing_range(start: usize, end: usize, timing: Vec<u64>) -> (r: Result<
        Self,
        ConstructionError,
    >)
        requires
            start <= end ==> end - start < usize::MAX,
        ensures
            (match r {
                Ok(a) => {
                    &&& start <= end
                    &&& timing@.len() == end - start + 1
                    &&& a.wf()
                    &&& !a.uniform()
                    &&& a.frames().len() == end - start + 1
                    &&& forall|i: int| 0 <= i < a.frames().len() ==> a.frames()[i] == start + i
                    &&& a.cursor() == 0
                    &&& forall|i: int| 0 <= i < a.frames().len() ==> a.step_at(i) == timing@[i]
                },
                Err(e) => if start > end {
                    e == ConstructionError::EmptyList
                } else {
                    timing@.len() != end - start + 1 && e == ConstructionError::LengthMismatch
                },
            }),
    {
        if start > end {
            return Err(ConstructionError::EmptyList);
        }
        let mut indices: Vec<usize> = Vec::new();
        let mut i: usize = start;
        loop
            invariant_except_break
                indices@.len() == i - start,
            invariant
                start <= i <= end,
                end - start < usize::MAX,
                forall|k: int| 0 <= k < indices@.len() ==> indices@[k] == start + k,
            ensures
                indices@.len() == end - start + 1,
                forall|k: int| 0 <= k < indices@.len() ==> indices@[k] == start + k,
            decreases end - i,
        {
            indices.push(i);
            if i == end {
                break ;
            }
            i = i + 1;
        }
        if indices.len() != timing.len() {
            return Err(ConstructionError::LengthMismatch);
        }
        Ok(RustAnimationType::VariableTimingList { indices, timing, position: 0 })
    }

    /// Moves the position one frame on, wrapping to 0 past the last.
    pub fn next(&mut self)
        requires
            old(self).wf(),
        ensures
            *final(self) == old(self).advanced(),
            final(self).wf(),
    {
        match self {
            RustAnimationType::IndexList { indices, position, .. } => {
                let n = indices.len();
                if *position + 1 >= n {
                    *position = 0;
                } else {
                    *position = *position + 1;
                }
            },
            RustAnimationType::VariableTimingList { indices, position, .. } => {
                let n = indices.len();
                if *position + 1 >= n {
                    *position = 0;
                } else {
                    *position = *position + 1;
                }
            },
        }
    }

    /// The step duration at the current position.
    pub fn step(&self) -> (r: u64)
        requires
            self.wf(),
        ensures
            r == self.step_at(self.cursor()),
    {
        match self {
            RustAnimationType::IndexList { step, .. } => *step,
            RustAnimationType::VariableTimingList { timing, position, .. } => timing[*position],
        }
    }

    /// The frame index at the current position, falling back to the first
    /// frame if the position is out of range.
    pub fn current(&self) -> (r: usize)
        requires
            self.frames().len() >= 1,
        ensures
            r == self.current_frame(),
    {
        match self {
            RustAnimationType::IndexList { indices, position, .. } => {
                if *position < indices.len() {
                    indices[*position]
                } else {
                    indices[0]
                }
            },
            RustAnimationType::VariableTimingList { indices, position, .. } => {
                if *position < indices.len() {
                    indices[*position]
                } else {
                    indices[0]
                }
            },
        }
    }
}

/// A frame timeline: a frame sequence with its timing, the time elapsed
/// in the current step, and a flag for a step completed on the last tick.
#[derive(Debug)]
pub struct RustAnimation {
    pub animation_type: RustAnimationType,
    pub time: u64,
    pub just_finished: bool,
}

impl RustAnimation {
    /// The frame indices this timeline steps through.
    pub open spec fn frames(self) -> Seq<usize> {
        self.animation_type.frames()
    }

    /// The current position within the frame sequence.
    pub open spec fn cursor(self) -> int {
        self.animation_type.cursor()
    }

    /// Time elapsed in the current step.
    pub open spec fn elapsed(self) -> int {
        self.time as int
    }

    /// Whether the last tick completed a step.
    pub open spec fn finished(self) -> bool {
        self.just_finished
    }

    /// The step duration at position `i` of the frame sequence.
    pub open spec fn step_at(self, i: int) -> int
        recommends
            0 <= i < self.frames().len(),
    {
        self.animation_type.step_at(i)
    }

    /// The step duration at the current position.
    pub open spec fn step_now(self) -> int
        recommends
            self.wf(),
    {
        self.step_at(self.cursor())
    }

    /// Well-formed: the underlying frame sequence is.
    pub open spec fn wf(self) -> bool {
        self.animation_type.wf()
    }

    /// The frame index at the current position, out-of-range positions
    /// falling back to the first frame.
    pub open spec fn current_frame(self) -> usize
        recommends
            self.frames().len() >= 1,
    {
        self.animation_type.current_frame()
    }

    /// The timeline after one tick with the given delta: the delta joins
    /// the elapsed time, and once that reaches the current step duration
    /// the position advances one frame (wrapping past the last), the
    /// elapsed time resets and the completed flag is set. At most one
    /// advance per tick, however large the delta.
    pub open spec fn tick_spec(self, delta: int) -> RustAnimation
        recommends
            self.wf(),
            delta >= 0,
    {
        if self.elapsed() + delta >= self.step_now() {
            RustAnimation {
                animation_type: self.animation_type.advanced(),
                time: 0u64,
                just_finished: true,
            }
        } else {
            RustAnimation {
                animation_type: self.animation_type,
                time: (self.time + delta) as u64,
                just_finished: false,
            }
        }
    }

    /// Wraps a frame sequence into a timeline at its first frame.
    pub fn new(animation_type: RustAnimationType) -> (r: Self)
        ensures
            r.animation_type == animation_type,
            r.elapsed() == 0,
            !r.finished(),
    {
        Self { animation_type, time: 0, just_finished: false }
    }

    /// Builds a uniform-step timeline over `start..=end`.
    pub fn range(start: usize, end: usize, step: u64) -> (r: Result<Self, ConstructionError>)
        requires
            start <= end ==> end - start < usize::MAX,
        ensures
            (match r {
                Ok(a) => {
                    &&& start <= end
                    &&& a.wf()
                    &&& a.animation_type.uniform()
                    &&& a.frames().len() == end - start + 1
                    &&& forall|i: int| 0 <= i < a.frames().len() ==> a.frames()[i] == start + i
                    &&& a.cursor() == 0
                    &&& forall|i: int| 0 <= i < a.frames().len() ==> a.step_at(i) == step
                    &&& a.elapsed() == 0
                    &&& !a.finished()
                },
                Err(e) => start > end && e == ConstructionError::EmptyList,
            }),
    {
        match RustAnimationType::range(start, end, step) {
            Ok(t) => Ok(Self::new(t)),
            Err(e) => Err(e),
        }
    }

    /// Builds a uniform-step timeline from a frame list.
    pub fn list(value: Vec<usize>, step: u64) -> (r: Result<Self, ConstructionError>)
        ensures
            (match r {
                Ok(a) => {
                    &&& value@.len() > 0
                    &&& a.wf()
                    &&& a.animation_type.uniform()
                    &&& a.frames() == value@
                    &&& a.cursor() == 0
                    &&& forall|i: int| 0 <= i < a.frames().len() ==> a.step_at(i) == step
                    &&& a.elapsed() == 0
                    &&& !a.finished()
                },
                Err(e) => value@.len() == 0 && e == ConstructionError::EmptyList,
            }),
    {
        match RustAnimationType::list(value, step) {
            Ok(t) => Ok(Self::new(t)),
            Err(e) => Err(e),
        }
    }

    /// Rebuilds this timeline with one duration per frame, back at the
    /// first frame; the duration list must match the frame list in length.
    pub fn with_timings(self, timing: Vec<u64>) -> (r: Result<Self, ConstructionError>)
        ensures
            (match r {
                Ok(a) => {
                    &&& self.frames().len() > 0
                    &&& timing@.len() == self.frames().len()
                    &&& a.wf()
                    &&& !a.animation_type.uniform()
                    &&& a.frames() == self.frames()
                    &&& a.cursor() == 0
                    &&& forall|i: int| 0 <= i < a.frames().len() ==> a.step_at(i) == timing@[i]
                    &&& a.elapsed() == 0
                    &&& !a.finished()
                },
                Err(e) => if self.frames().len() == 0 {
                    e == ConstructionError::EmptyList
                } else {
                    timing@.len() != self.frames().len() && e == ConstructionError::LengthMismatch
                },
            }),
    {
        let indices = match self.animation_type {
            RustAnimationType::IndexList { indices, .. } => indices,
            RustAnimationType::VariableTimingList { indices, .. } => indices,
        };
        match RustAnimationType::variable_timing_list(indices, timing) {
            Ok(t) => Ok(Self::new(t)),
            Err(e) => Err(e),
        }
    }

    /// Advances the timeline by `delta` time units.
    pub fn tick(&mut self, delta: u64)
        requires
            old(self).wf(),
        ensures
            *final(self) == old(self).tick_spec(delta as int),
            final(self).wf(),
            final(self).frames() == old(self).frames(),
            forall|i: int| #[trigger] final(self).step_at(i) == old(self).step_at(i),
            old(self).elapsed() + delta >= old(self).step_now() ==> {
                &&& final(self).cursor() == (if old(self).cursor() + 1 == old(
                    self,
                ).frames().len() {
                    0int
                } else {
                    old(self).cursor() + 1
                })
                &&& final(self).elapsed() == 0
                &&& final(self).finished()
            },
            old(self).elapsed() + delta < old(self).step_now() ==> {
                &&& final(self).cursor() == old(self).cursor()
                &&& final(self).elapsed() == old(self).elapsed() + delta
                &&& !final(self).finished()
            },
    {
        let step = self.animation_type.step();
        let mut advance = true;
        if let Some(t) = self.time.checked_add(delta) {
            if t < step {
                self.time = t;
                self.just_finished = false;
                advance = false;
            }
        }
        if advance {
            self.time = 0;
            self.animation_type.next();
            self.just_finished = true;
        }
        proof {
            assert forall|i: int| #[trigger] self.step_at(i) == old(self).step_at(i) by {
                assert(self.animation_type == old(self).animation_type
                    || self.animation_type == old(self).animation_type.advanced());
            }
        }
    }

    /// The frame index at the current position, falling back to the first
    /// frame if the position is out of range.
    pub fn current(&self) -> (r: usize)
        requires
            self.frames().len() >= 1,
        ensures
            r == self.current_frame(),
    {
        self.animation_type.current()
    }

    /// Whether the last tick completed a step.
    pub fn just_finished(&self) -> (r: bool)
        ensures
            r == self.finished(),
    {
        self.just_finished
    }

    /// The step duration at the current position.
    pub fn step(&self) -> (r: u64)
        requires
            self.wf(),
        ensures
            r == self.step_now(),
    {
        self.animation_type.step()
    }
}

/// A set of frame timelines of which exactly one is active; ticking
/// advances the active timeline only. An empty set is a valid,
/// unanimated state.
#[derive(Debug)]
pub struct RustAnimationAtlas {
    pub animations: Vec<RustAnimation>,
    pub current: usize,
}

impl RustAnimationAtlas {
    /// The timelines of the set.
    pub open spec fn timelines(self) -> Seq<RustAnimation> {
        self.animations@
    }

    /// The index of the active timeline.
    pub open spec fn active(self) -> int {
        self.current as int
    }

    /// Well-formed: the active index names a timeline unless the set is
    /// empty, and every timeline is well-formed.
    pub open spec fn wf(self) -> bool {
        &&& self.timelines().len() == 0 ==> self.active() == 0
        &&& self.timelines().len() > 0 ==> self.active() < self.timelines().len()
        &&& forall|i: int| 0 <= i < self.timelines().len() ==> self.timelines()[i].wf()
    }

    /// The frame index the active timeline shows; 0 when the set is empty.
    pub open spec fn current_frame(self) -> usize
        recommends
            self.wf(),
    {
        if self.timelines().len() == 0 {
            0usize
        } else {
            self.timelines()[self.active()].current_frame()
        }
    }

    /// Whether the active timeline completed a step on the last tick;
    /// false when the set is empty.
    pub open spec fn finished(self) -> bool
        recommends
            self.wf(),
    {
        self.timelines().len() > 0 && self.timelines()[self.active()].finished()
    }

    /// How one tick relates the set after (`post`) to the set before
    /// (`pre`): the active timeline alone is ticked, an empty set is left
    /// unchanged.
    pub open spec fn tick_rel(pre: RustAnimationAtlas, post: RustAnimationAtlas, delta: int) -> bool
        recommends
            pre.wf(),
    {
        if pre.timelines().len() == 0 {
            post == pre
        } else {
            &&& post.active() == pre.active()
            &&& post.timelines() =~= pre.timelines().update(
                pre.active(),
                pre.timelines()[pre.active()].tick_spec(delta),
            )
        }
    }

    /// Builds a set from a list of timelines, the first one active.
    pub fn new(animations: Vec<RustAnimation>) -> (r: Self)
        requires
            forall|i: int| 0 <= i < animations@.len() ==> animations@[i].wf(),
        ensures
            r.wf(),
            r.timelines() == animations@,
            r.active() == 0,
    {
        Self { animations, current: 0 }
    }

    /// The frame index the active timeline shows; 0 when the set is empty.
    pub fn current(&self) -> (r: usize)
        requires
            self.wf(),
        ensures
            r == self.current_frame(),
    {
        if self.current < self.animations.len() {
            self.animations[self.current].current()
        } else {
            0
        }
    }

    /// Makes the timeline at `index` the active one; an index that names
    /// no timeline is reported and the set is left unchanged.
    pub fn set_current(&mut self, index: usize) -> (r: Result<(), InvalidActiveIndex>)
        requires
            old(self).wf(),
        ensures
            final(self).wf(),
            (match r {
                Ok(()) => {
                    &&& index < old(self).timelines().len()
                    &&& final(self).timelines() == old(self).timelines()
                    &&& final(self).active() == index
                },
                Err(_) => index >= old(self).timelines().len() && *final(self) == *old(self),
            }),
    {
        if index < self.animations.len() {
            self.current = index;
            Ok(())
        } else {
            Err(InvalidActiveIndex)
        }
    }

    /// Advances the active timeline by `delta` time units; no-op when the
    /// set is empty.
    pub fn tick(&mut self, delta: u64)
        requires
            old(self).wf(),
        ensures
            final(self).wf(),
            Self::tick_rel(*old(self), *final(self), delta as int),
    {
        if self.animations.len() == 0 {
            return ;
        }
        let idx = self.current;
        let mut active = self.animations.remove(idx);
        active.tick(delta);
        self.animations.insert(idx, active);
        proof {
            assert(self.animations@ =~= old(self).animations@.update(
                old(self).active(),
                old(self).animations@[old(self).active()].tick_spec(delta as int),
            ));
        }
    }

    /// Whether the active timeline completed a step on the last tick;
    /// false when the set is empty.
    pub fn just_finished(&self) -> (r: bool)
        requires
            self.wf(),
        ensures
            r == self.finished(),
    {
        if self.animations.len() == 0 {
            return false;
        }
        self.animations[self.current].just_finished()
    }
}

/// The timeline `a` after `k` ticks, the `j`-th tick using `deltas[j]`.
pub open spec fn tick_seq(a: RustAnimation, deltas: Seq<int>, k: int) -> RustAnimation
    decreases k,
{
    if k <= 0 {
        a
    } else {
        tick_seq(a, deltas, k - 1).tick_spec(deltas[k - 1])
    }
}

proof fn lemma_wrap_invariant_upto(a: RustAnimation, deltas: Seq<int>, k: int)
    requires
        a.wf(),
        a.cursor() == 0,
        a.elapsed() == 0,
        deltas.len() == a.frames().len(),
        forall|j: int| 0 <= j < deltas.len() ==> deltas[j] >= a.step_at(j),
        0 <= k <= deltas.len(),
    ensures
        tick_seq(a, deltas, k).wf(),
        tick_seq(a, deltas, k).frames() == a.frames(),
        forall|i: int| #[trigger] tick_seq(a, deltas, k).step_at(i) == a.step_at(i),
        tick_seq(a, deltas, k).elapsed() == 0,
        tick_seq(a, deltas, k).cursor() == (if k < deltas.len() {
            k
        } else {
            0
        }),
        k >= 1 ==> tick_seq(a, deltas, k).finished(),
    decreases k,
{
    if k > 0 {
        lemma_wrap_invariant_upto(a, deltas, k - 1);
        let b = tick_seq(a, deltas, k - 1);
        assert(b.step_at(k - 1) == a.step_at(k - 1));
        assert(b.elapsed() + deltas[k - 1] >= b.step_now());
        let c = tick_seq(a, deltas, k);
        assert(c.animation_type == b.animation_type.advanced());
        assert forall|i: int| #[trigger] c.step_at(i) == a.step_at(i) by {
            assert(b.step_at(i) == a.step_at(i));
        }
    }
}

/// Wrap invariant: a timeline at its first frame with no elapsed time,
/// ticked once per frame with a delta that reaches the step duration due
/// at that moment, advances exactly one position per call and reports a
/// completed step on every call, so it stands at the positions 1, 2, ...
/// in turn and is back at position 0 exactly on the call numbered by its
/// frame count.
pub proof fn lemma_wrap_invariant(a: RustAnimation, deltas: Seq<int>)
    requires
        a.wf(),
        a.cursor() == 0,
        a.elapsed() == 0,
        deltas.len() == a.frames().len(),
        forall|j: int| 0 <= j < deltas.len() ==> deltas[j] >= a.step_at(j),
    ensures
        tick_seq(a, deltas, deltas.len() as int).cursor() == 0,
        deltas.len() >= 1 ==> tick_seq(a, deltas, deltas.len() as int).finished(),
        forall|k: int|
            1 <= k < deltas.len() ==> (#[trigger] tick_seq(a, deltas, k)).cursor() == k,
        forall|k: int|
            1 <= k <= deltas.len() ==> (#[trigger] tick_seq(a, deltas, k)).finished(),
{
    assert forall|k: int| 1 <= k <= deltas.len() implies (#[trigger] tick_seq(a, deltas, k)).finished()
        && (k < deltas.len() ==> tick_seq(a, deltas, k).cursor() == k) by {
        lemma_wrap_invariant_upto(a, deltas, k);
    }
    lemma_wrap_invariant_upto(a, deltas, deltas.len() as int);
}

impl Default for RustAnimationAtlas {
    /// The empty set: no timelines, nothing to animate.
    fn default() -> (r: Self)
        ensures
            r.wf(),
            r.timelines().len() == 0,
            r.active() == 0,
    {
        Self { animations: Vec::new(), current: 0 }
    }
}

} // verus!
