use motion_curves::animation::{RustAnimation, RustAnimationAtlas};
use motion_curves::driver::{
    spline_position_at_time, update_rust_animation, update_rust_animation_atlas,
    update_rust_animation_atlases,
};
use motion_curves::fixed::SCALE;
use motion_curves::spline::{CardinalSpline, Point};

const TENTH: u64 = 100_000;

fn pt(x: i64, y: i64) -> Point {
    Point { x, y }
}

#[test]
fn driver_advances_a_timeline_and_reports_the_frame() {
    let mut a = RustAnimation::list(vec![4, 5, 6], TENTH).unwrap();
    assert_eq!(update_rust_animation(&mut a, TENTH), 5);
    assert_eq!(update_rust_animation(&mut a, TENTH - 1), 5);
    assert_eq!(update_rust_animation(&mut a, 1), 6);
}

#[test]
fn driver_advances_an_atlas_and_reports_the_frame() {
    let walk = RustAnimation::list(vec![0, 1, 2, 3], TENTH).unwrap();
    let idle = RustAnimation::list(vec![9], TENTH).unwrap();
    let mut atlas = RustAnimationAtlas::new(vec![walk, idle]);
    assert_eq!(update_rust_animation_atlas(&mut atlas, TENTH), 1);
    assert_eq!(update_rust_animation_atlas(&mut atlas, TENTH), 2);
}

#[test]
fn driver_advances_every_atlas_in_a_store() {
    let a0 = RustAnimationAtlas::new(vec![RustAnimation::list(vec![0, 1], TENTH).unwrap()]);
    let a1 = RustAnimationAtlas::new(vec![RustAnimation::list(vec![5, 6, 7], TENTH).unwrap()]);
    let a2 = RustAnimationAtlas::default();
    let mut store = vec![a0, a1, a2];
    let frames = update_rust_animation_atlases(&mut store, TENTH);
    assert_eq!(frames, vec![1, 6, 0]);
    let frames = update_rust_animation_atlases(&mut store, TENTH);
    assert_eq!(frames, vec![0, 7, 0]);
}

#[test]
fn elapsed_time_maps_onto_the_spline_domain() {
    let points = vec![pt(0, 0), pt(100, 0), pt(200, 0), pt(300, 0)];
    let s = CardinalSpline::new(points, false).unwrap();
    // One segment per 100 time units: elapsed 50 is half a segment in.
    assert_eq!(spline_position_at_time(&s, 0, 100), s.position_at(0));
    assert_eq!(spline_position_at_time(&s, 50, 100), s.position_at(SCALE / 2));
    assert_eq!(spline_position_at_time(&s, 50, 100), pt(150, 0));
}

#[test]
fn elapsed_time_wraps_around_a_looped_spline() {
    let points = vec![pt(0, 0), pt(100, 0), pt(100, 100), pt(0, 100)];
    let s = CardinalSpline::new(points, true).unwrap();
    let one_lap = 4 * 100;
    assert_eq!(
        spline_position_at_time(&s, 30 + one_lap, 100),
        spline_position_at_time(&s, 30, 100)
    );
}
