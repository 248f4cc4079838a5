use motion_curves::animation::{RustAnimation, RustAnimationAtlas, RustAnimationType};
use motion_curves::errors::{ConstructionError, InvalidActiveIndex};

// Time values in these tests are microseconds: 0.1 s == 100_000.
const TENTH: u64 = 100_000;

#[test]
fn wrap_returns_to_start_after_one_tick_per_frame() {
    // Four frames, uniform step: a delta that reaches the step duration
    // advances one position per tick, wrapping on the fourth.
    let mut a = RustAnimation::list(vec![10, 11, 12, 13], TENTH).unwrap();
    assert_eq!(a.current(), 10);
    let mut seen = Vec::new();
    for _ in 0..4 {
        a.tick(TENTH);
        seen.push(a.current());
        assert!(a.just_finished());
    }
    assert_eq!(seen, vec![11, 12, 13, 10]);
}

#[test]
fn wrap_single_frame_timeline() {
    let mut a = RustAnimation::list(vec![7], TENTH).unwrap();
    a.tick(TENTH);
    assert_eq!(a.current(), 7);
    assert!(a.just_finished());
}

#[test]
fn oversized_delta_advances_exactly_once() {
    // No catch-up loop: however large the delta, one advance per tick.
    let mut a = RustAnimation::list(vec![0, 1, 2], TENTH).unwrap();
    a.tick(u64::MAX);
    assert_eq!(a.current(), 1);
    assert!(a.just_finished());
}

#[test]
fn per_frame_timing_advances_on_cumulative_time() {
    // Frames [0,1,2] with durations [0.1, 0.2, 0.3] s, ticked by 0.1 s:
    // position 1 after the first tick, position 2 only after a further
    // cumulative 0.2 s in that step.
    let t = RustAnimationType::variable_timing_list(
        vec![0, 1, 2],
        vec![TENTH, 2 * TENTH, 3 * TENTH],
    )
    .unwrap();
    let mut a = RustAnimation::new(t);
    a.tick(TENTH);
    assert_eq!(a.current(), 1);
    assert!(a.just_finished());
    a.tick(TENTH);
    assert_eq!(a.current(), 1);
    assert!(!a.just_finished());
    a.tick(TENTH);
    assert_eq!(a.current(), 2);
    assert!(a.just_finished());
}

#[test]
fn empty_frame_list_is_rejected() {
    assert_eq!(
        RustAnimation::list(vec![], TENTH).unwrap_err(),
        ConstructionError::EmptyList
    );
    assert_eq!(
        RustAnimationType::list(vec![], TENTH).unwrap_err(),
        ConstructionError::EmptyList
    );
    assert_eq!(
        RustAnimationType::variable_timing_list(vec![], vec![]).unwrap_err(),
        ConstructionError::EmptyList
    );
}

#[test]
fn mismatched_timing_length_is_rejected() {
    assert_eq!(
        RustAnimationType::variable_timing_list(vec![0, 1, 2], vec![TENTH, TENTH]).unwrap_err(),
        ConstructionError::LengthMismatch
    );
    assert_eq!(
        RustAnimationType::variable_timing_range(4, 6, vec![TENTH]).unwrap_err(),
        ConstructionError::LengthMismatch
    );
}

#[test]
fn empty_range_is_rejected() {
    assert_eq!(
        RustAnimation::range(5, 4, TENTH).unwrap_err(),
        ConstructionError::EmptyList
    );
}

#[test]
fn range_timeline_walks_the_inclusive_range() {
    let mut a = RustAnimation::range(4, 7, TENTH).unwrap();
    assert_eq!(a.current(), 4);
    a.tick(TENTH);
    assert_eq!(a.current(), 5);
    a.tick(TENTH);
    assert_eq!(a.current(), 6);
    a.tick(TENTH);
    assert_eq!(a.current(), 7);
    a.tick(TENTH);
    assert_eq!(a.current(), 4);
}

#[test]
fn with_timings_rebuilds_per_frame_durations() {
    let a = RustAnimation::list(vec![0, 1, 2], TENTH).unwrap();
    let mut a = a.with_timings(vec![TENTH, 2 * TENTH, 3 * TENTH]).unwrap();
    assert_eq!(a.step(), TENTH);
    a.tick(TENTH);
    assert_eq!(a.step(), 2 * TENTH);
    assert_eq!(a.current(), 1);
}

#[test]
fn with_timings_rejects_wrong_length() {
    let a = RustAnimation::list(vec![0, 1, 2], TENTH).unwrap();
    assert_eq!(
        a.with_timings(vec![TENTH]).unwrap_err(),
        ConstructionError::LengthMismatch
    );
}

#[test]
fn step_reports_current_duration() {
    let a = RustAnimation::list(vec![0, 1], 42).unwrap();
    assert_eq!(a.step(), 42);
}

#[test]
fn elapsed_time_below_step_does_not_advance() {
    let mut a = RustAnimation::list(vec![0, 1], TENTH).unwrap();
    a.tick(TENTH - 1);
    assert_eq!(a.current(), 0);
    assert!(!a.just_finished());
    a.tick(1);
    assert_eq!(a.current(), 1);
    assert!(a.just_finished());
}

#[test]
fn atlas_ticks_only_the_active_timeline() {
    let idle = RustAnimation::list(vec![0], TENTH).unwrap();
    let walk = RustAnimation::list(vec![0, 1, 2, 3], TENTH).unwrap();
    let mut atlas = RustAnimationAtlas::new(vec![idle, walk]);
    assert_eq!(atlas.current(), 0);
    atlas.set_current(1).unwrap();
    let mut seen = Vec::new();
    for _ in 0..4 {
        atlas.tick(TENTH);
        seen.push(atlas.current());
        assert!(atlas.just_finished());
    }
    // End-to-end walk cycle: frames 1,2,3 then wrap to 0.
    assert_eq!(seen, vec![1, 2, 3, 0]);
    // The idle timeline was never ticked.
    atlas.set_current(0).unwrap();
    assert_eq!(atlas.current(), 0);
    assert!(!atlas.just_finished());
}

#[test]
fn atlas_set_current_out_of_range_is_reported_and_ignored() {
    let only = RustAnimation::list(vec![5, 6], TENTH).unwrap();
    let mut atlas = RustAnimationAtlas::new(vec![only]);
    assert_eq!(atlas.set_current(3).unwrap_err(), InvalidActiveIndex);
    atlas.tick(TENTH);
    assert_eq!(atlas.current(), 6);
}

#[test]
fn empty_atlas_is_a_valid_unanimated_state() {
    let mut atlas = RustAnimationAtlas::default();
    atlas.tick(TENTH);
    assert_eq!(atlas.current(), 0);
    assert!(!atlas.just_finished());
}

#[test]
fn out_of_range_position_falls_back_to_first_frame() {
    // A desynchronized position degrades to the first frame instead of
    // failing; this state cannot arise through the constructors.
    let t = RustAnimationType::IndexList {
        indices: vec![8, 9],
        position: 17,
        step: TENTH,
    };
    assert_eq!(t.current(), 8);
}
