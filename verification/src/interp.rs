//! Linear and cubic-Hermite keyframe interpolation.
//!
//! A keyframe path is an ordered list of at least two values together
//! with a normalized progress in fixed-point `0 ..= SCALE` units. The
//! enclosing segment is located by uniform subdivision, and its two
//! endpoint values are blended either linearly or with the cubic Hermite
//! basis and caller-supplied tangent magnitudes. Progress at or below 0
//! returns the first value exactly and progress at or above `SCALE`
//! returns the last value exactly: there is no extrapolation.

use vstd::prelude::*;
use vstd::arithmetic::div_mod::{lemma_mod_division_less_than_divisor, lemma_multiply_divide_lt};
use crate::errors::ConstructionError;
use crate::fixed::{div_trunc, div_trunc_i128, lemma_div_trunc_bound, lemma_div_trunc_multiple, SCALE, SCALE_2, SCALE_3};
use crate::spline::{coord_ok, point_ok, Point, COORD_LIMIT};

verus! {

/// Clamps a fixed-point progress value to the unit interval's top.
pub open spec fn unit_clamp(t: int) -> int
    recommends
        t >= 0,
{
    if t > SCALE {
        SCALE as int
    } else {
        t
    }
}

/// Linear blend of two scalars at progress `un / SCALE`, rounded toward
/// zero: `a + (b - a) * un / SCALE`.
pub open spec fn lerp_int(a: int, b: int, un: int) -> int {
    a + div_trunc((b - a) * un, SCALE as int)
}

/// The cubic Hermite numerator over denominator `SCALE^3`: the four
/// Hermite basis polynomials in `u = un / SCALE` applied to the two
/// endpoints and the two tangent magnitudes.
pub open spec fn hermite_num(a: int, b: int, m0: int, m1: int, un: int) -> int {
    a * (2 * (un * un * un) - 3 * (un * un * (SCALE as int)) + (SCALE_3 as int)) + m0 * ((un * un
        * un) - 2 * (un * un * (SCALE as int)) + un * (SCALE_2 as int)) + b * (3 * (un * un * (
    SCALE as int)) - 2 * (un * un * un)) + m1 * ((un * un * un) - (un * un * (SCALE as int)))
}

/// Cubic Hermite blend of two scalars at progress `un / SCALE`, rounded
/// toward zero.
pub open spec fn hermite_int(a: int, b: int, m0: int, m1: int, un: int) -> int {
    div_trunc(hermite_num(a, b, m0, m1, un), SCALE_3 as int)
}

/// Index of the keyframe segment that progress `tn` falls in, for a path
/// of `len` values: uniform subdivision into `len - 1` segments, the top
/// of the domain belonging to the last segment.
pub open spec fn segment_index(len: int, tn: int) -> int
    recommends
        len >= 2,
        tn >= 0,
{
    if tn >= SCALE {
        len - 2
    } else {
        tn * (len - 1) / (SCALE as int)
    }
}

/// Progress local to the enclosing segment, in `0 ..= SCALE` units.
pub open spec fn segment_local(len: int, tn: int) -> int
    recommends
        len >= 2,
        tn >= 0,
{
    if tn >= SCALE {
        SCALE as int
    } else {
        tn * (len - 1) % (SCALE as int)
    }
}

/// Values that can be blended between two keyframes.
///
/// Both blends take a local progress in fixed-point `0 ..= SCALE` units
/// and return the first endpoint exactly at 0 and the second exactly at
/// `SCALE`.
pub trait Interpolation: Sized {
    /// Whether the value is within the magnitude bound blending needs.
    spec fn in_range(self) -> bool;

    /// The linear blend of `self` and `next` at progress `un`.
    spec fn lerp_spec(self, next: Self, un: int) -> Self;

    /// The cubic Hermite blend of `self` and `next`, with tangent
    /// magnitudes `m0` and `m1`, at progress `un`.
    spec fn hermite_spec(self, next: Self, m0: Self, m1: Self, un: int) -> Self;

    /// Blend boundaries are exact: at progress 0 both blends return the
    /// first endpoint, at progress `SCALE` the second.
    proof fn lemma_blend_endpoints(self, next: Self, m0: Self, m1: Self)
        requires
            self.in_range(),
            next.in_range(),
            m0.in_range(),
            m1.in_range(),
        ensures
            self.lerp_spec(next, 0) == self,
            self.lerp_spec(next, SCALE as int) == next,
            self.hermite_spec(next, m0, m1, 0) == self,
            self.hermite_spec(next, m0, m1, SCALE as int) == next,
    ;

    /// Linearly blends `self` toward `next`; progress above `SCALE`
    /// clamps to `next`.
    fn linear(&self, next: &Self, time: u64) -> (r: Self)
        requires
            self.in_range(),
            next.in_range(),
        ensures
            r == self.lerp_spec(*next, unit_clamp(time as int)),
    ;

    /// Hermite-blends `self` toward `next` with tangent magnitudes `m0`
    /// and `m1`; progress above `SCALE` clamps to `next`.
    fn hermite(&self, next: &Self, m0: &Self, m1: &Self, time: u64) -> (r: Self)
        requires
            self.in_range(),
            next.in_range(),
            m0.in_range(),
            m1.in_range(),
        ensures
            r == self.hermite_spec(*next, *m0, *m1, unit_clamp(time as int)),
    ;
}

impl Interpolation for i64 {
    open spec fn in_range(self) -> bool {
        coord_ok(self as int)
    }

    open spec fn lerp_spec(self, next: Self, un: int) -> Self {
        lerp_int(self as int, next as int, un) as i64
    }

    open spec fn hermite_spec(self, next: Self, m0: Self, m1: Self, un: int) -> Self {
        hermite_int(self as int, next as int, m0 as int, m1 as int, un) as i64
    }

    proof fn lemma_blend_endpoints(self, next: Self, m0: Self, m1: Self) {
        lemma_lerp_int_endpoints(self as int, next as int);
        lemma_hermite_int_endpoints(self as int, next as int, m0 as int, m1 as int);
    }

    fn linear(&self, next: &Self, time: u64) -> (r: Self) {
        let tn: u64 = if time > SCALE {
            SCALE
        } else {
            time
        };
        let d: i128 = (*next as i128) - (*self as i128);
        proof {
            assert(-2 * (COORD_LIMIT as int) * (SCALE as int) <= d * (tn as int) <= 2 * (
            COORD_LIMIT as int) * (SCALE as int)) by (nonlinear_arith)
                requires
                    -2 * (COORD_LIMIT as int) <= d <= 2 * (COORD_LIMIT as int),
                    0 <= tn <= SCALE as int,
            ;
        }
        let q: i128 = div_trunc_i128(d * (tn as i128), SCALE as i128);
        proof {
            lemma_div_trunc_bound(
                (d * (tn as i128)) as int,
                2 * (COORD_LIMIT as int) * (SCALE as int),
                SCALE as int,
            );
            lemma_div_trunc_multiple(2 * (COORD_LIMIT as int), SCALE as int);
        }
        ((*self as i128) + q) as i64
    }

    fn hermite(&self, next: &Self, m0: &Self, m1: &Self, time: u64) -> (r: Self) {
        let tn: u64 = if time > SCALE {
            SCALE
        } else {
            time
        };
        hermite_eval_exec(*self, *next, *m0, *m1, tn)
    }
}

impl Interpolation for Point {
    open spec fn in_range(self) -> bool {
        point_ok(self)
    }

    open spec fn lerp_spec(self, next: Self, un: int) -> Self {
        Point { x: self.x.lerp_spec(next.x, un), y: self.y.lerp_spec(next.y, un) }
    }

    open spec fn hermite_spec(self, next: Self, m0: Self, m1: Self, un: int) -> Self {
        Point {
            x: self.x.hermite_spec(next.x, m0.x, m1.x, un),
            y: self.y.hermite_spec(next.y, m0.y, m1.y, un),
        }
    }

    proof fn lemma_blend_endpoints(self, next: Self, m0: Self, m1: Self) {
        self.x.lemma_blend_endpoints(next.x, m0.x, m1.x);
        self.y.lemma_blend_endpoints(next.y, m0.y, m1.y);
    }

    fn linear(&self, next: &Self, time: u64) -> (r: Self) {
        Point { x: self.x.linear(&next.x, time), y: self.y.linear(&next.y, time) }
    }

    fn hermite(&self, next: &Self, m0: &Self, m1: &Self, time: u64) -> (r: Self) {
        Point {
            x: self.x.hermite(&next.x, &m0.x, &m1.x, time),
            y: self.y.hermite(&next.y, &m0.y, &m1.y, time),
        }
    }
}

/// Locates the keyframe segment for progress `time` over a path of `n`
/// values: the segment index and the progress local to that segment.
fn locate_segment(n: usize, time: u64) -> (r: (usize, u64))
    requires
        n >= 2,
    ensures
        r.0 as int == segment_index(n as int, time as int),
        r.1 as int == segment_local(n as int, time as int),
        r.0 + 1 < n,
        r.1 <= SCALE,
{
    if time >= SCALE {
        (n - 2, SCALE)
    } else {
        proof {
            assert((time as int) * ((n - 1) as int) < (SCALE as int) * ((n - 1) as int) && 0 <= (
            time as int) * ((n - 1) as int) <= 65535 * 18446744073709551615) by (nonlinear_arith)
                requires
                    0 <= time < SCALE as int,
                    2 <= n <= 18446744073709551615,
                    SCALE == 65536,
            ;
        }
        let overall: u128 = (time as u128) * ((n - 1) as u128);
        let idx128: u128 = overall / (SCALE as u128);
        let local128: u128 = overall % (SCALE as u128);
        proof {
            lemma_multiply_divide_lt(overall as int, SCALE as int, (n - 1) as int);
            lemma_mod_division_less_than_divisor(overall as int, SCALE as int);
        }
        (idx128 as usize, local128 as u64)
    }
}

/// Evaluates a linear keyframe path at normalized progress `time`: the
/// enclosing segment is found by uniform subdivision and its two
/// endpoint values are blended linearly. Progress 0 returns the first
/// value exactly and progress at or above `SCALE` the last; fewer than
/// two values are rejected.
pub fn linear_path<T: Interpolation + Copy>(values: &Vec<T>, time: u64) -> (r: Result<
    T,
    ConstructionError,
>)
    requires
        forall|i: int| 0 <= i < values@.len() ==> (#[trigger] values@[i]).in_range(),
    ensures
        (match r {
            Ok(v) => {
                &&& values@.len() >= 2
                &&& v == values@[segment_index(values@.len() as int, time as int)].lerp_spec(
                    values@[segment_index(values@.len() as int, time as int) + 1],
                    segment_local(values@.len() as int, time as int),
                )
                &&& time == 0 ==> v == values@[0]
                &&& time >= SCALE ==> v == values@[values@.len() - 1]
            },
            Err(e) => values@.len() < 2 && e == ConstructionError::TooFewKeyframes,
        }),
{
    let n = values.len();
    if n < 2 {
        return Err(ConstructionError::TooFewKeyframes);
    }
    let (idx, local) = locate_segment(n, time);
    let v = values[idx].linear(&values[idx + 1], local);
    proof {
        if time == 0 || time >= SCALE {
            values@[idx as int].lemma_blend_endpoints(
                values@[idx as int + 1],
                values@[idx as int + 1],
                values@[idx as int + 1],
            );
        }
    }
    Ok(v)
}

/// Evaluates a cubic-Hermite keyframe path at normalized progress
/// `time`, blending the enclosing segment's endpoints with the
/// caller-supplied tangent magnitudes `m0` and `m1`. Progress 0 returns
/// the first value exactly and progress at or above `SCALE` the last;
/// fewer than two values are rejected.
pub fn hermite_path<T: Interpolation + Copy>(values: &Vec<T>, m0: T, m1: T, time: u64) -> (r:
    Result<T, ConstructionError>)
    requires
        forall|i: int| 0 <= i < values@.len() ==> (#[trigger] values@[i]).in_range(),
        m0.in_range(),
        m1.in_range(),
    ensures
        (match r {
            Ok(v) => {
                &&& values@.len() >= 2
                &&& v == values@[segment_index(values@.len() as int, time as int)].hermite_spec(
                    values@[segment_index(values@.len() as int, time as int) + 1],
                    m0,
                    m1,
                    segment_local(values@.len() as int, time as int),
                )
                &&& time == 0 ==> v == values@[0]
                &&& time >= SCALE ==> v == values@[values@.len() - 1]
            },
            Err(e) => values@.len() < 2 && e == ConstructionError::TooFewKeyframes,
        }),
{
    let n = values.len();
    if n < 2 {
        return Err(ConstructionError::TooFewKeyframes);
    }
    let (idx, local) = locate_segment(n, time);
    let v = values[idx].hermite(&values[idx + 1], &m0, &m1, local);
    proof {
        if time == 0 || time >= SCALE {
            values@[idx as int].lemma_blend_endpoints(values@[idx as int + 1], m0, m1);
        }
    }
    Ok(v)
}

/// The linear blend of scalars is exact at both endpoints.
proof fn lemma_lerp_int_endpoints(a: int, b: int)
    ensures
        lerp_int(a, b, 0) == a,
        lerp_int(a, b, SCALE as int) == b,
{
    lemma_div_trunc_multiple(0, SCALE as int);
    lemma_div_trunc_multiple(b - a, SCALE as int);
}

/// The Hermite blend of scalars is exact at both endpoints.
proof fn lemma_hermite_int_endpoints(a: int, b: int, m0: int, m1: int)
    ensures
        hermite_int(a, b, m0, m1, 0) == a,
        hermite_int(a, b, m0, m1, SCALE as int) == b,
{
    let s = SCALE as int;
    let s2 = SCALE_2 as int;
    let s3 = SCALE_3 as int;
    let z: int = 0;
    assert(a * (2 * (z * z * z) - 3 * (z * z * s) + s3) + m0 * ((z * z * z) - 2 * (z * z * s) + z
        * s2) + b * (3 * (z * z * s) - 2 * (z * z * z)) + m1 * ((z * z * z) - (z * z * s)) == a
        * s3) by (nonlinear_arith)
        requires
            z == 0,
    ;
    assert(hermite_num(a, b, m0, m1, 0) == a * s3);
    assert(a * (2 * (s * s * s) - 3 * (s * s * s) + s3) + m0 * ((s * s * s) - 2 * (s * s * s) + s
        * s2) + b * (3 * (s * s * s) - 2 * (s * s * s)) + m1 * ((s * s * s) - (s * s * s)) == b
        * s3) by (nonlinear_arith)
        requires
            s2 == s * s,
            s3 == s * s * s,
    ;
    assert(hermite_num(a, b, m0, m1, s) == b * s3);
    lemma_div_trunc_multiple(a, SCALE_3 as int);
    lemma_div_trunc_multiple(b, SCALE_3 as int);
}

/// Evaluates the cubic Hermite blend of scalars over 128-bit
/// intermediates; exact up to the final truncating division.
fn hermite_eval_exec(a: i64, b: i64, m0: i64, m1: i64, un: u64) -> (r: i64)
    requires
        coord_ok(a as int),
        coord_ok(b as int),
        coord_ok(m0 as int),
        coord_ok(m1 as int),
        un <= SCALE,
    ensures
        r as int == hermite_int(a as int, b as int, m0 as int, m1 as int, un as int),
{
    let va: i128 = a as i128;
    let vb: i128 = b as i128;
    let v0: i128 = m0 as i128;
    let v1: i128 = m1 as i128;
    let u: i128 = un as i128;
    let s: i128 = SCALE as i128;
    let s2: i128 = SCALE_2 as i128;
    let s3: i128 = SCALE_3 as i128;
    proof {
        assert(0 <= u * u <= SCALE_2 as int && 0 <= u * u * u <= SCALE_3 as int)
            by (nonlinear_arith)
            requires
                0 <= u <= SCALE as int,
                SCALE_2 == SCALE * SCALE,
                SCALE_3 == SCALE * SCALE * SCALE,
        ;
        assert(0 <= u * u * (SCALE as int) <= SCALE_3 as int && 0 <= u * (SCALE_2 as int)
            <= SCALE_3 as int) by (nonlinear_arith)
            requires
                0 <= u <= SCALE as int,
                SCALE_2 == SCALE * SCALE,
                SCALE_3 == SCALE * SCALE * SCALE,
        ;
    }
    let h00: i128 = 2 * (u * u * u) - 3 * (u * u * s) + s3;
    let h10: i128 = (u * u * u) - 2 * (u * u * s) + u * s2;
    let h01: i128 = 3 * (u * u * s) - 2 * (u * u * u);
    let h11: i128 = (u * u * u) - (u * u * s);
    proof {
        let lim = COORD_LIMIT as int;
        let cube = SCALE_3 as int;
        assert(-6 * lim * cube <= va * h00 <= 6 * lim * cube && -4 * lim * cube <= v0 * h10 <= 4
            * lim * cube && -5 * lim * cube <= vb * h01 <= 5 * lim * cube && -2 * lim * cube <= v1
            * h11 <= 2 * lim * cube) by (nonlinear_arith)
            requires
                -lim <= va <= lim,
                -lim <= vb <= lim,
                -lim <= v0 <= lim,
                -lim <= v1 <= lim,
                -6 * cube <= h00 <= 6 * cube,
                -4 * cube <= h10 <= 4 * cube,
                -5 * cube <= h01 <= 5 * cube,
                -2 * cube <= h11 <= 2 * cube,
                cube > 0,
                lim > 0,
        ;
    }
    let num: i128 = va * h00 + v0 * h10 + vb * h01 + v1 * h11;
    let q: i128 = div_trunc_i128(num, s3);
    proof {
        lemma_div_trunc_bound(num as int, 17 * (COORD_LIMIT as int) * (SCALE_3 as int), SCALE_3 as int);
        lemma_div_trunc_multiple(17 * (COORD_LIMIT as int), SCALE_3 as int);
    }
    q as i64
}

} // verus!
