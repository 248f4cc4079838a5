use motion_curves::errors::ConstructionError;
use motion_curves::fixed::SCALE;
use motion_curves::spline::{CardinalSpline, Point};

fn pt(x: i64, y: i64) -> Point {
    Point { x, y }
}

fn line_points() -> Vec<Point> {
    // Evenly spaced points on the x axis: Catmull-Rom reproduces the
    // line exactly, which gives exact expected values.
    vec![pt(0, 0), pt(100, 0), pt(200, 0), pt(300, 0)]
}

fn six_points() -> Vec<Point> {
    vec![
        pt(0, 0),
        pt(100, 0),
        pt(200, 50),
        pt(300, 50),
        pt(400, 0),
        pt(500, 0),
    ]
}

#[test]
fn too_few_control_points_is_rejected() {
    let r = CardinalSpline::new(vec![pt(0, 0), pt(1, 1), pt(2, 2)], false);
    assert_eq!(r.unwrap_err(), ConstructionError::TooFewControlPoints);
}

#[test]
fn open_spline_passes_through_interior_points_at_integer_parameters() {
    let s = CardinalSpline::new(six_points(), false).unwrap();
    // At parameter k the open curve sits on control point k + 1.
    assert_eq!(s.position_at(0), pt(100, 0));
    assert_eq!(s.position_at(SCALE), pt(200, 50));
    assert_eq!(s.position_at(2 * SCALE), pt(300, 50));
}

#[test]
fn open_spline_midpoint_on_a_straight_line() {
    let s = CardinalSpline::new(line_points(), false).unwrap();
    // On a uniform straight line the cubic reduces to the line itself:
    // halfway through the segment from (100,0) to (200,0) is (150,0).
    assert_eq!(s.position_at(SCALE / 2), pt(150, 0));
}

#[test]
fn open_spline_clamps_past_the_domain() {
    let s = CardinalSpline::new(six_points(), false).unwrap();
    // Domain of a 6-point open spline is [0, 3); everything above gives
    // the value at the last representable parameter below 3.
    let top = s.position_at(3 * SCALE - 1);
    assert_eq!(s.position_at(100 * SCALE), top);
    assert_eq!(s.position_at(3 * SCALE), top);
    assert_eq!(s.position_at(u64::MAX), top);
}

#[test]
fn open_spline_domain_is_safe_everywhere() {
    let s = CardinalSpline::new(six_points(), false).unwrap();
    let mut t = 0;
    while t <= 3 * SCALE {
        let p = s.position_at(t);
        assert!(p.x >= 0 && p.x <= 500);
        t += SCALE / 8;
    }
}

#[test]
fn looped_spline_repeats_with_period_of_the_point_count() {
    let s = CardinalSpline::new(six_points(), true).unwrap();
    let period = 6 * SCALE;
    for t in [0, 1, SCALE / 2, SCALE, 3 * SCALE + 12345, 5 * SCALE + 65535] {
        assert_eq!(s.position_at(t + period), s.position_at(t));
        assert_eq!(s.position_at(t + 3 * period), s.position_at(t));
    }
}

#[test]
fn tangent_on_a_straight_line_is_half_the_point_spacing() {
    let s = CardinalSpline::new(line_points(), false).unwrap();
    // Catmull-Rom tangent at a control point is (p2 - p0) / 2.
    assert_eq!(s.tangent_at(0), pt(100, 0));
    assert_eq!(s.tangent_at(SCALE / 2), pt(100, 0));
}

#[test]
fn sample_polyline_zero_step_is_rejected() {
    let s = CardinalSpline::new(line_points(), false).unwrap();
    assert_eq!(
        s.sample_polyline(0, SCALE, 0).unwrap_err(),
        ConstructionError::InvalidStep
    );
}

#[test]
fn sample_polyline_walks_the_parameter_range() {
    let s = CardinalSpline::new(six_points(), false).unwrap();
    let v = s.sample_polyline(0, 2 * SCALE, SCALE).unwrap();
    assert_eq!(v.len(), 3);
    assert_eq!(v[0], s.position_at(0));
    assert_eq!(v[1], s.position_at(SCALE));
    assert_eq!(v[2], s.position_at(2 * SCALE));
}

#[test]
fn sample_polyline_empty_when_range_is_reversed() {
    let s = CardinalSpline::new(six_points(), false).unwrap();
    let v = s.sample_polyline(SCALE, 0, 1).unwrap();
    assert!(v.is_empty());
}

#[test]
fn drag_moves_the_nearest_point_within_radius() {
    let mut s = CardinalSpline::new(six_points(), false).unwrap();
    let cursor = pt(205, 52);
    let moved = s.drag_point(cursor, 10, true);
    assert_eq!(moved, Some(2));
    assert_eq!(s.points.len(), 6);
    assert_eq!(s.points[2], cursor);
    assert_eq!(s.points[1], pt(100, 0));
}

#[test]
fn drag_without_gesture_changes_nothing() {
    let mut s = CardinalSpline::new(six_points(), false).unwrap();
    let before = s.points.clone();
    assert_eq!(s.drag_point(pt(205, 52), 10, false), None);
    assert_eq!(s.points, before);
}

#[test]
fn drag_outside_radius_changes_nothing() {
    let mut s = CardinalSpline::new(six_points(), false).unwrap();
    let before = s.points.clone();
    assert_eq!(s.drag_point(pt(1000, 1000), 10, true), None);
    assert_eq!(s.points, before);
}

#[test]
fn drag_keeps_evaluation_valid() {
    let mut s = CardinalSpline::new(six_points(), true).unwrap();
    s.drag_point(pt(205, 52), 10, true);
    let period = 6 * SCALE;
    assert_eq!(s.position_at(SCALE + period), s.position_at(SCALE));
}

#[test]
fn drag_tie_breaks_on_the_first_nearest_point() {
    // Cursor equidistant from points 1 (100,0) and 2 (200,0): the scan
    // settles on the earlier index.
    let mut s = CardinalSpline::new(
        vec![pt(0, 0), pt(100, 0), pt(200, 0), pt(300, 0)],
        false,
    )
    .unwrap();
    let cursor = pt(150, 0);
    assert_eq!(s.drag_point(cursor, 60, true), Some(1));
    assert_eq!(s.points[1], cursor);
    assert_eq!(s.points[2], pt(200, 0));
}
