use motion_curves::errors::ConstructionError;
use motion_curves::fixed::SCALE;
use motion_curves::interp::{hermite_path, linear_path, Interpolation};
use motion_curves::spline::Point;

fn pt(x: i64, y: i64) -> Point {
    Point { x, y }
}

#[test]
fn linear_path_returns_first_value_at_zero_exactly() {
    let scalars: Vec<i64> = vec![-7, 40, 90];
    assert_eq!(linear_path(&scalars, 0).unwrap(), -7);
    let points = vec![pt(1, 2), pt(30, 40), pt(500, 600)];
    assert_eq!(linear_path(&points, 0).unwrap(), pt(1, 2));
}

#[test]
fn linear_path_returns_last_value_at_one_exactly() {
    let scalars: Vec<i64> = vec![-7, 40, 90];
    assert_eq!(linear_path(&scalars, SCALE).unwrap(), 90);
    let points = vec![pt(1, 2), pt(30, 40), pt(500, 600)];
    assert_eq!(linear_path(&points, SCALE).unwrap(), pt(500, 600));
}

#[test]
fn linear_path_does_not_extrapolate() {
    let scalars: Vec<i64> = vec![10, 20];
    assert_eq!(linear_path(&scalars, 10 * SCALE).unwrap(), 20);
}

#[test]
fn linear_path_blends_inside_a_segment() {
    // Two keyframes, halfway: 0 + (100 - 0) / 2.
    let scalars: Vec<i64> = vec![0, 100];
    assert_eq!(linear_path(&scalars, SCALE / 2).unwrap(), 50);
    // Three keyframes, halfway: exactly the middle keyframe.
    let scalars: Vec<i64> = vec![0, 100, 300];
    assert_eq!(linear_path(&scalars, SCALE / 2).unwrap(), 100);
    // Three keyframes, a quarter: halfway into the first segment.
    assert_eq!(linear_path(&scalars, SCALE / 4).unwrap(), 50);
}

#[test]
fn linear_path_blends_points_componentwise() {
    let points = vec![pt(0, 0), pt(100, -200)];
    assert_eq!(linear_path(&points, SCALE / 2).unwrap(), pt(50, -100));
}

#[test]
fn too_few_keyframes_is_rejected() {
    let one: Vec<i64> = vec![5];
    assert_eq!(
        linear_path(&one, 0).unwrap_err(),
        ConstructionError::TooFewKeyframes
    );
    let none: Vec<Point> = vec![];
    assert_eq!(
        linear_path(&none, 0).unwrap_err(),
        ConstructionError::TooFewKeyframes
    );
    assert_eq!(
        hermite_path(&one, 0, 0, 0).unwrap_err(),
        ConstructionError::TooFewKeyframes
    );
}

#[test]
fn hermite_path_is_exact_at_both_boundaries() {
    let scalars: Vec<i64> = vec![-3, 50, 80];
    assert_eq!(hermite_path(&scalars, 13, -13, 0).unwrap(), -3);
    assert_eq!(hermite_path(&scalars, 13, -13, SCALE).unwrap(), 80);
    assert_eq!(hermite_path(&scalars, 13, -13, 7 * SCALE).unwrap(), 80);
}

#[test]
fn hermite_path_with_zero_tangents_matches_the_midpoint() {
    // With zero tangent magnitudes the Hermite blend at one half is the
    // average of the endpoints.
    let scalars: Vec<i64> = vec![0, 100];
    assert_eq!(hermite_path(&scalars, 0, 0, SCALE / 2).unwrap(), 50);
}

#[test]
fn hermite_path_blends_points() {
    let points = vec![pt(0, 0), pt(100, 40)];
    let r = hermite_path(&points, pt(0, 0), pt(0, 0), SCALE / 2).unwrap();
    assert_eq!(r, pt(50, 20));
}

#[test]
fn scalar_linear_blend_clamps_and_interpolates() {
    let a: i64 = 10;
    let b: i64 = 30;
    assert_eq!(a.linear(&b, 0), 10);
    assert_eq!(a.linear(&b, SCALE), 30);
    assert_eq!(a.linear(&b, 2 * SCALE), 30);
    assert_eq!(a.linear(&b, SCALE / 2), 20);
}

#[test]
fn point_hermite_blend_is_exact_at_boundaries() {
    let a = pt(3, 4);
    let b = pt(-5, 6);
    let m = pt(9, -9);
    assert_eq!(a.hermite(&b, &m, &m, 0), a);
    assert_eq!(a.hermite(&b, &m, &m, SCALE), b);
}
