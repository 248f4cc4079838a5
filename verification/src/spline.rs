//! Cardinal (Catmull-Rom) splines through 2-D control points.
//!
//! A [`CardinalSpline`] is an ordered list of control points with a
//! looped flag. The parametric coordinate is fixed-point with scale
//! [`SCALE`](crate::fixed::SCALE): the value `k * SCALE` stands at
//! control-point index `k`, fractional values interpolate. Evaluation
//! locates the four-point stencil around the coordinate and combines it
//! with the Catmull-Rom basis polynomials, scaled by the standard 0.5
//! tangent convention; the exact integer numerator is reduced with
//! division truncating toward zero.
//!
//! In looped mode stencil indices wrap modulo the point count. In open
//! mode the coordinate is clamped just below `N - 3` so the stencil
//! always has one point of margin on each side.

use vstd::prelude::*;
use vstd::arithmetic::div_mod::{
    lemma_fundamental_div_mod, lemma_hoist_over_denominator, lemma_mod_division_less_than_divisor,
    lemma_mod_multiples_vanish,
};
use vstd::arithmetic::mul::lemma_mul_inequality;
use crate::errors::ConstructionError;
use crate::fixed::{
    div_trunc, div_trunc_i128, lemma_div_trunc_bound, lemma_div_trunc_multiple, SCALE, SCALE_2,
    SCALE_3,
};

verus! {

/// Magnitude bound on control-point coordinates, chosen so that a whole
/// Catmull-Rom numerator fits a 128-bit intermediate and every evaluated
/// coordinate fits an `i64`.
pub const COORD_LIMIT: i64 = 1099511627776;

/// Bound on the number of control points, chosen so that the open-mode
/// parameter limit `(N - 3) * SCALE` fits a `u64`.
pub const MAX_POINTS: u64 = 4294967296;

/// A 2-D point with integer coordinates in a caller-chosen unit.
#[derive(Clone, Copy, Debug, PartialEq, Eq, Structural)]
pub struct Point {
    pub x: i64,
    pub y: i64,
}

/// Whether a coordinate is within the magnitude bound evaluation needs.
pub open spec fn coord_ok(c: int) -> bool {
    -COORD_LIMIT <= c <= COORD_LIMIT
}

/// Whether both coordinates of a point are within the magnitude bound.
pub open spec fn point_ok(p: Point) -> bool {
    coord_ok(p.x as int) && coord_ok(p.y as int)
}

/// The Catmull-Rom numerator for one coordinate: with `u = un / SCALE`,
/// the curve value at `u` is this numerator over `2 * SCALE^3`, which is
/// the basis `0.5 * (2 p1 + (p2 - p0) u + (2 p0 - 5 p1 + 4 p2 - p3) u^2
/// + (-p0 + 3 p1 - 3 p2 + p3) u^3)` written over a common denominator.
pub open spec fn cr_num(p0: int, p1: int, p2: int, p3: int, un: int) -> int {
    2 * p1 * (SCALE_3 as int) + (p2 - p0) * un * (SCALE_2 as int) + (2 * p0 - 5 * p1 + 4 * p2 - p3)
        * un * un * (SCALE as int) + (-p0 + 3 * p1 - 3 * p2 + p3) * un * un * un
}

/// The Catmull-Rom curve value for one coordinate, rounded toward zero.
pub open spec fn cr_eval(p0: int, p1: int, p2: int, p3: int, un: int) -> int {
    div_trunc(cr_num(p0, p1, p2, p3, un), 2 * (SCALE_3 as int))
}

/// The derivative numerator for one coordinate: with `u = un / SCALE`,
/// the tangent at `u` is this numerator over `2 * SCALE^2`.
pub open spec fn cr_tan_num(p0: int, p1: int, p2: int, p3: int, un: int) -> int {
    (p2 - p0) * (SCALE_2 as int) + 2 * (2 * p0 - 5 * p1 + 4 * p2 - p3) * un * (SCALE as int) + 3 * (
    -p0 + 3 * p1 - 3 * p2 + p3) * un * un
}

/// The Catmull-Rom tangent value for one coordinate, rounded toward zero.
pub open spec fn cr_tan_eval(p0: int, p1: int, p2: int, p3: int, un: int) -> int {
    div_trunc(cr_tan_num(p0, p1, p2, p3, un), 2 * (SCALE_2 as int))
}

/// A piecewise-cubic curve through control points, open or looped.
#[derive(Debug)]
pub struct CardinalSpline {
    pub points: Vec<Point>,
    pub looped: bool,
}

impl CardinalSpline {
    /// The control points.
    pub open spec fn control_points(self) -> Seq<Point> {
        self.points@
    }

    /// Whether the curve closes back on its first control point.
    pub open spec fn is_looped(self) -> bool {
        self.looped
    }

    /// Well-formed: at least one full stencil of control points, not more
    /// than the representation supports, all coordinates in range.
    pub open spec fn wf(self) -> bool {
        &&& 4 <= self.points@.len() <= MAX_POINTS
        &&& forall|i: int| 0 <= i < self.points@.len() ==> point_ok(#[trigger] self.points@[i])
    }

    /// Highest parameter an open spline evaluates: just below `N - 3`.
    pub open spec fn open_limit(self) -> int {
        (self.points@.len() - 3) * (SCALE as int) - 1
    }

    /// The parameter actually evaluated: open splines clamp to the open
    /// domain, looped splines use the parameter as given.
    pub open spec fn clamped(self, t: int) -> int {
        if self.looped {
            t
        } else if t > self.open_limit() {
            self.open_limit()
        } else {
            t
        }
    }

    /// Control-point index of stencil member `k` for parameter `t`.
    pub open spec fn stencil_index(self, t: int, k: int) -> int {
        let b = self.clamped(t) / (SCALE as int);
        if self.looped {
            (b + k) % (self.points@.len() as int)
        } else {
            b + k
        }
    }

    /// Stencil member `k` for parameter `t`.
    pub open spec fn stencil_point(self, t: int, k: int) -> Point {
        self.points@[self.stencil_index(t, k)]
    }

    /// The fractional part of the evaluated parameter, in `0 .. SCALE`.
    pub open spec fn local_coord(self, t: int) -> int {
        self.clamped(t) % (SCALE as int)
    }

    /// The curve position at parameter `t`.
    pub open spec fn position_spec(self, t: int) -> Point {
        let p0 = self.stencil_point(t, 0);
        let p1 = self.stencil_point(t, 1);
        let p2 = self.stencil_point(t, 2);
        let p3 = self.stencil_point(t, 3);
        let un = self.local_coord(t);
        Point {
            x: cr_eval(p0.x as int, p1.x as int, p2.x as int, p3.x as int, un) as i64,
            y: cr_eval(p0.y as int, p1.y as int, p2.y as int, p3.y as int, un) as i64,
        }
    }

    /// The curve tangent at parameter `t`.
    pub open spec fn tangent_spec(self, t: int) -> Point {
        let p0 = self.stencil_point(t, 0);
        let p1 = self.stencil_point(t, 1);
        let p2 = self.stencil_point(t, 2);
        let p3 = self.stencil_point(t, 3);
        let un = self.local_coord(t);
        Point {
            x: cr_tan_eval(p0.x as int, p1.x as int, p2.x as int, p3.x as int, un) as i64,
            y: cr_tan_eval(p0.y as int, p1.y as int, p2.y as int, p3.y as int, un) as i64,
        }
    }

    /// Builds a spline; fewer control points than one cubic stencil needs
    /// are rejected.
    pub fn new(points: Vec<Point>, looped: bool) -> (r: Result<Self, ConstructionError>)
        requires
            points@.len() <= MAX_POINTS,
            forall|i: int| 0 <= i < points@.len() ==> point_ok(#[trigger] points@[i]),
        ensures
            (match r {
                Ok(s) => {
                    &&& points@.len() >= 4
                    &&& s.wf()
                    &&& s.control_points() == points@
                    &&& s.is_looped() == looped
                },
                Err(e) => points@.len() < 4 && e == ConstructionError::TooFewControlPoints,
            }),
    {
        if points.len() < 4 {
            Err(ConstructionError::TooFewControlPoints)
        } else {
            Ok(CardinalSpline { points, looped })
        }
    }

    /// The curve position at fixed-point parameter `t`.
    pub fn position_at(&self, t: u64) -> (p: Point)
        requires
            self.wf(),
        ensures
            p == self.position_spec(t as int),
    {
        let (p0, p1, p2, p3, un) = self.stencil(t);
        Point {
            x: cr_eval_exec(p0.x, p1.x, p2.x, p3.x, un),
            y: cr_eval_exec(p0.y, p1.y, p2.y, p3.y, un),
        }
    }

    /// The curve tangent at fixed-point parameter `t`, oriented along
    /// rising `t`; its magnitude follows the 0.5 tangent convention.
    pub fn tangent_at(&self, t: u64) -> (p: Point)
        requires
            self.wf(),
        ensures
            p == self.tangent_spec(t as int),
    {
        let (p0, p1, p2, p3, un) = self.stencil(t);
        Point {
            x: cr_tan_eval_exec(p0.x, p1.x, p2.x, p3.x, un),
            y: cr_tan_eval_exec(p0.y, p1.y, p2.y, p3.y, un),
        }
    }

    /// Fetches the four stencil points and the local coordinate for `t`.
    fn stencil(&self, t: u64) -> (r: (Point, Point, Point, Point, u64))
        requires
            self.wf(),
        ensures
            r.0 == self.stencil_point(t as int, 0),
            r.1 == self.stencil_point(t as int, 1),
            r.2 == self.stencil_point(t as int, 2),
            r.3 == self.stencil_point(t as int, 3),
            r.4 == self.local_coord(t as int),
            point_ok(r.0) && point_ok(r.1) && point_ok(r.2) && point_ok(r.3),
            r.4 < SCALE,
    {
        let n: usize = self.points.len();
        let tc: u64 = if self.looped {
            t
        } else {
            let limit: u64 = (n as u64 - 3) * SCALE - 1;
            if t > limit {
                limit
            } else {
                t
            }
        };
        let b: u64 = tc / SCALE;
        let un: u64 = tc % SCALE;
        if self.looped {
            let m: u64 = n as u64;
            let i0: usize = ((b + 0) % m) as usize;
            let i1: usize = ((b + 1) % m) as usize;
            let i2: usize = ((b + 2) % m) as usize;
            let i3: usize = ((b + 3) % m) as usize;
            (self.points[i0], self.points[i1], self.points[i2], self.points[i3], un)
        } else {
            proof {
                assert(b <= (n - 4) as u64) by {
                    assert(tc as int <= self.open_limit());
                    assert(((n - 3) * (SCALE as int) - 1) / (SCALE as int) == n - 4) by {
                        assert((n - 3) * (SCALE as int) - 1 == (n - 4) * (SCALE as int) + (
                        SCALE as int - 1)) by (nonlinear_arith);
                        vstd::arithmetic::div_mod::lemma_div_multiples_vanish_fancy(
                            (n - 4) as int,
                            SCALE as int - 1,
                            SCALE as int,
                        );
                    };
                    vstd::arithmetic::div_mod::lemma_div_is_ordered(
                        tc as int,
                        (n - 3) * (SCALE as int) - 1,
                        SCALE as int,
                    );
                };
            }
            let base: usize = b as usize;
            (
                self.points[base],
                self.points[base + 1],
                self.points[base + 2],
                self.points[base + 3],
                un,
            )
        }
    }
}

/// Squared Euclidean distance between two points.
pub open spec fn dist_sq(p: Point, q: Point) -> int {
    (p.x - q.x) * (p.x - q.x) + (p.y - q.y) * (p.y - q.y)
}

/// How many samples a polyline over `start ..= end` with the given step
/// contains.
pub open spec fn sample_count(start: int, end: int, step: int) -> int
    recommends
        step > 0,
{
    if start > end {
        0
    } else {
        (end - start) / step + 1
    }
}

impl CardinalSpline {
    /// Samples the curve at `start`, `start + step`, ... for as long as
    /// the parameter stays at most `end`; a zero step is rejected.
    pub fn sample_polyline(&self, start: u64, end: u64, step: u64) -> (r: Result<
        Vec<Point>,
        ConstructionError,
    >)
        requires
            self.wf(),
            step > 0 && start <= end ==> (end - start) / (step as int) + 1 <= usize::MAX,
        ensures
            (match r {
                Ok(v) => {
                    &&& step > 0
                    &&& v@.len() == sample_count(start as int, end as int, step as int)
                    &&& forall|k: int|
                        0 <= k < v@.len() ==> v@[k] == self.position_spec(
                            start + k * (step as int),
                        )
                },
                Err(e) => step == 0 && e == ConstructionError::InvalidStep,
            }),
    {
        if step == 0 {
            return Err(ConstructionError::InvalidStep);
        }
        let mut out: Vec<Point> = Vec::new();
        if start > end {
            return Ok(out);
        }
        let total: u64 = (end - start) / step;
        let mut k: u64 = 0;
        while k <= total
            invariant
                self.wf(),
                step > 0,
                start <= end,
                total == (end - start) as int / (step as int),
                total + 1 <= usize::MAX,
                k <= total + 1,
                out@.len() == k,
                forall|j: int|
                    0 <= j < out@.len() ==> out@[j] == self.position_spec(
                        start + j * (step as int),
                    ),
            decreases total + 1 - k,
        {
            proof {
                lemma_mul_inequality(k as int, total as int, step as int);
                lemma_fundamental_div_mod((end - start) as int, step as int);
                lemma_mod_division_less_than_divisor((end - start) as int, step as int);
                assert((total as int) * (step as int) == (step as int) * (total as int))
                    by (nonlinear_arith);
            }
            let t: u64 = start + k * step;
            out.push(self.position_at(t));
            k = k + 1;
        }
        Ok(out)
    }

    /// Drags the control point nearest to `cursor` onto `cursor`: an
    /// O(N) scan picks a point of minimal distance, and the drag happens
    /// only while the gesture is pressed and that point lies within
    /// `radius`. Returns which point moved; the point count never
    /// changes, so the clamping of open-domain parameters stays valid.
    pub fn drag_point(&mut self, cursor: Point, radius: i64, pressed: bool) -> (r: Option<usize>)
        requires
            old(self).wf(),
            point_ok(cursor),
            radius >= 0,
        ensures
            final(self).wf(),
            final(self).is_looped() == old(self).is_looped(),
            final(self).control_points().len() == old(self).control_points().len(),
            (match r {
                None => {
                    &&& *final(self) == *old(self)
                    &&& pressed ==> forall|j: int|
                        0 <= j < old(self).control_points().len() ==> dist_sq(
                            #[trigger] old(self).control_points()[j],
                            cursor,
                        ) > radius * radius
                },
                Some(i) => {
                    &&& pressed
                    &&& 0 <= (i as int) < old(self).control_points().len()
                    &&& dist_sq(old(self).control_points()[i as int], cursor) <= radius * radius
                    &&& forall|j: int|
                        0 <= j < old(self).control_points().len() ==> dist_sq(
                            #[trigger] old(self).control_points()[j],
                            cursor,
                        ) >= dist_sq(old(self).control_points()[i as int], cursor)
                    &&& forall|j: int|
                        0 <= j < i ==> dist_sq(#[trigger] old(self).control_points()[j], cursor)
                            > dist_sq(old(self).control_points()[i as int], cursor)
                    &&& final(self).control_points() =~= old(self).control_points().update(
                        i as int,
                        cursor,
                    )
                },
            }),
    {
        if !pressed {
            return None;
        }
        let n: usize = self.points.len();
        let mut best: usize = 0;
        let mut best_d: i128 = dist_sq_exec(self.points[0], cursor);
        let mut i: usize = 1;
        while i < n
            invariant
                self.wf(),
                point_ok(cursor),
                n == self.points@.len(),
                best < i <= n,
                1 <= i,
                best_d == dist_sq(self.points@[best as int], cursor),
                forall|j: int|
                    0 <= j < i ==> dist_sq(#[trigger] self.points@[j], cursor) >= best_d,
                forall|j: int|
                    0 <= j < best ==> dist_sq(#[trigger] self.points@[j], cursor) > best_d,
            decreases n - i,
        {
            let d: i128 = dist_sq_exec(self.points[i], cursor);
            if d < best_d {
                best = i;
                best_d = d;
            }
            i = i + 1;
        }
        proof {
            assert((radius as i128) * (radius as i128) <= i128::MAX) by (nonlinear_arith)
                requires
                    0 <= radius <= i64::MAX,
            ;
        }
        let r2: i128 = (radius as i128) * (radius as i128);
        if best_d <= r2 {
            self.points.remove(best);
            self.points.insert(best, cursor);
            proof {
                assert(self.points@ =~= old(self).points@.update(best as int, cursor));
            }
            Some(best)
        } else {
            None
        }
    }
}

/// Squared Euclidean distance, computed over 128-bit intermediates.
fn dist_sq_exec(p: Point, q: Point) -> (r: i128)
    requires
        point_ok(p),
        point_ok(q),
    ensures
        r == dist_sq(p, q),
{
    let dx: i128 = p.x as i128 - q.x as i128;
    let dy: i128 = p.y as i128 - q.y as i128;
    proof {
        assert(0 <= dx * dx <= 4 * (COORD_LIMIT as int) * (COORD_LIMIT as int) && 0 <= dy * dy <= 4
            * (COORD_LIMIT as int) * (COORD_LIMIT as int)) by (nonlinear_arith)
            requires
                -2 * (COORD_LIMIT as int) <= dx <= 2 * (COORD_LIMIT as int),
                -2 * (COORD_LIMIT as int) <= dy <= 2 * (COORD_LIMIT as int),
        ;
    }
    dx * dx + dy * dy
}

/// Open-boundary clamping: past the top of the open domain every
/// parameter evaluates to the same position as the last representable
/// parameter of that domain, one fixed-point sub-unit below `N - 3`.
pub proof fn lemma_open_spline_clamped(s: CardinalSpline, t: int)
    requires
        s.wf(),
        !s.is_looped(),
        t >= (s.control_points().len() - 3) * SCALE - 1,
    ensures
        s.position_spec(t) == s.position_spec((s.control_points().len() - 3) * SCALE - 1),
{
}

/// Looped periodicity: shifting the parameter by the point count (one
/// full turn of the closed curve) leaves the position unchanged.
pub proof fn lemma_looped_spline_periodic(s: CardinalSpline, t: int)
    requires
        s.wf(),
        s.is_looped(),
        t >= 0,
    ensures
        s.position_spec(t + s.control_points().len() * SCALE) == s.position_spec(t),
{
    let n = s.control_points().len() as int;
    let sc = SCALE as int;
    let t2 = t + n * sc;
    assert(t2 / sc == t / sc + n) by {
        lemma_hoist_over_denominator(t, n, SCALE as nat);
    }
    assert(t2 % sc == t % sc) by {
        lemma_mod_multiples_vanish(n, t, sc);
        assert(sc * n + t == t + n * sc) by (nonlinear_arith);
    }
    let b = t / sc;
    assert forall|k: int| 0 <= k < 4 implies s.stencil_index(t2, k) == s.stencil_index(t, k) by {
        lemma_mod_multiples_vanish(1, b + k, n);
        assert(n * 1 + (b + k) == b + n + k);
    }
}

/// Evaluates one coordinate of the Catmull-Rom basis over 128-bit
/// intermediates; exact up to the final truncating division.
fn cr_eval_exec(p0: i64, p1: i64, p2: i64, p3: i64, un: u64) -> (r: i64)
    requires
        coord_ok(p0 as int),
        coord_ok(p1 as int),
        coord_ok(p2 as int),
        coord_ok(p3 as int),
        un < SCALE,
    ensures
        r as int == cr_eval(p0 as int, p1 as int, p2 as int, p3 as int, un as int),
{
    let a0: i128 = p0 as i128;
    let a1: i128 = p1 as i128;
    let a2: i128 = p2 as i128;
    let a3: i128 = p3 as i128;
    let u: i128 = un as i128;
    let s: i128 = SCALE as i128;
    let s2: i128 = SCALE_2 as i128;
    let s3: i128 = SCALE_3 as i128;
    let c2: i128 = a2 - a0;
    let c3: i128 = 2 * a0 - 5 * a1 + 4 * a2 - a3;
    let c4: i128 = -a0 + 3 * a1 - 3 * a2 + a3;
    let t1: i128 = 2 * a1 * s3;
    proof {
        assert(-2 * (COORD_LIMIT as int) * (SCALE as int) <= c2 * u <= 2 * (COORD_LIMIT as int) * (
        SCALE as int)) by (nonlinear_arith)
            requires
                -2 * (COORD_LIMIT as int) <= c2 <= 2 * (COORD_LIMIT as int),
                0 <= u < SCALE as int,
        ;
    }
    let t2: i128 = c2 * u * s2;
    proof {
        assert(-12 * (COORD_LIMIT as int) * (SCALE as int) <= c3 * u <= 12 * (COORD_LIMIT as int)
            * (SCALE as int) && -12 * (COORD_LIMIT as int) * (SCALE_2 as int) <= c3 * u * u <= 12
            * (COORD_LIMIT as int) * (SCALE_2 as int)) by (nonlinear_arith)
            requires
                -12 * (COORD_LIMIT as int) <= c3 <= 12 * (COORD_LIMIT as int),
                0 <= u < SCALE as int,
                SCALE_2 == SCALE * SCALE,
        ;
    }
    let t3: i128 = c3 * u * u * s;
    proof {
        assert(-8 * (COORD_LIMIT as int) * (SCALE as int) <= c4 * u <= 8 * (COORD_LIMIT as int) * (
        SCALE as int) && -8 * (COORD_LIMIT as int) * (SCALE_2 as int) <= c4 * u * u <= 8 * (
        COORD_LIMIT as int) * (SCALE_2 as int) && -8 * (COORD_LIMIT as int) * (SCALE_3 as int)
            <= c4 * u * u * u <= 8 * (COORD_LIMIT as int) * (SCALE_3 as int)) by (nonlinear_arith)
            requires
                -8 * (COORD_LIMIT as int) <= c4 <= 8 * (COORD_LIMIT as int),
                0 <= u < SCALE as int,
                SCALE_2 == SCALE * SCALE,
                SCALE_3 == SCALE * SCALE * SCALE,
        ;
    }
    let t4: i128 = c4 * u * u * u;
    let num: i128 = t1 + t2 + t3 + t4;
    let q: i128 = div_trunc_i128(num, 2 * s3);
    proof {
        lemma_div_trunc_bound(num as int, 24 * (COORD_LIMIT as int) * (SCALE_3 as int), 2 * (
        SCALE_3 as int));
        lemma_div_trunc_multiple(12 * (COORD_LIMIT as int), 2 * (SCALE_3 as int));
    }
    q as i64
}

/// Evaluates one coordinate of the Catmull-Rom derivative over 128-bit
/// intermediates; exact up to the final truncating division.
fn cr_tan_eval_exec(p0: i64, p1: i64, p2: i64, p3: i64, un: u64) -> (r: i64)
    requires
        coord_ok(p0 as int),
        coord_ok(p1 as int),
        coord_ok(p2 as int),
        coord_ok(p3 as int),
        un < SCALE,
    ensures
        r as int == cr_tan_eval(p0 as int, p1 as int, p2 as int, p3 as int, un as int),
{
    let a0: i128 = p0 as i128;
    let a1: i128 = p1 as i128;
    let a2: i128 = p2 as i128;
    let a3: i128 = p3 as i128;
    let u: i128 = un as i128;
    let s: i128 = SCALE as i128;
    let s2: i128 = SCALE_2 as i128;
    let c1: i128 = a2 - a0;
    let c2: i128 = 2 * a0 - 5 * a1 + 4 * a2 - a3;
    let c3: i128 = -a0 + 3 * a1 - 3 * a2 + a3;
    let t1: i128 = c1 * s2;
    proof {
        assert(-24 * (COORD_LIMIT as int) * (SCALE as int) <= 2 * c2 * u <= 24 * (
        COORD_LIMIT as int) * (SCALE as int)) by (nonlinear_arith)
            requires
                -24 * (COORD_LIMIT as int) <= 2 * c2 <= 24 * (COORD_LIMIT as int),
                0 <= u < SCALE as int,
        ;
    }
    let t2: i128 = 2 * c2 * u * s;
    proof {
        assert(-24 * (COORD_LIMIT as int) * (SCALE as int) <= 3 * c3 * u <= 24 * (
        COORD_LIMIT as int) * (SCALE as int) && -24 * (COORD_LIMIT as int) * (SCALE_2 as int) <= 3
            * c3 * u * u <= 24 * (COORD_LIMIT as int) * (SCALE_2 as int)) by (nonlinear_arith)
            requires
                -24 * (COORD_LIMIT as int) <= 3 * c3 <= 24 * (COORD_LIMIT as int),
                0 <= u < SCALE as int,
                SCALE_2 == SCALE * SCALE,
        ;
    }
    let t3: i128 = 3 * c3 * u * u;
    let num: i128 = t1 + t2 + t3;
    let q: i128 = div_trunc_i128(num, 2 * s2);
    proof {
        lemma_div_trunc_bound(num as int, 50 * (COORD_LIMIT as int) * (SCALE_2 as int), 2 * (
        SCALE_2 as int));
        lemma_div_trunc_multiple(25 * (COORD_LIMIT as int), 2 * (SCALE_2 as int));
    }
    q as i64
}

} // verus!
