//! Fixed-point parameters and exact division helpers.
//!
//! Parametric coordinates along a curve are unsigned integers scaled by
//! [`SCALE`]: a value `t` stands for the real coordinate `t / SCALE`.
//! Curve evaluation produces an exact integer numerator over a power of
//! [`SCALE`] and reduces it with division that truncates toward zero, the
//! same rounding executable integer division uses.

use vstd::prelude::*;
use vstd::arithmetic::div_mod::{lemma_div_by_multiple, lemma_div_is_ordered, lemma_div_pos_is_pos};

verus! {

/// Number of fixed-point sub-units in one curve-parameter unit.
pub const SCALE: u64 = 65536;

/// `SCALE` squared.
pub const SCALE_2: u64 = 4294967296;

/// `SCALE` cubed.
pub const SCALE_3: u64 = 281474976710656;

/// Division truncating toward zero, the rounding of Rust's `/` on signed
/// integers, defined for positive divisors.
pub open spec fn div_trunc(a: int, d: int) -> int
    recommends
        d > 0,
{
    if a >= 0 {
        a / d
    } else {
        -((-a) / d)
    }
}

/// Truncating division of an exact multiple recovers the factor.
pub proof fn lemma_div_trunc_multiple(k: int, d: int)
    requires
        d > 0,
    ensures
        div_trunc(k * d, d) == k,
{
    if k >= 0 {
        lemma_div_by_multiple(k, d);
    } else {
        lemma_div_by_multiple(-k, d);
        assert(-(k * d) == (-k) * d) by (nonlinear_arith);
    }
}

/// The magnitude of a truncating quotient is bounded by the quotient of
/// the magnitude bound.
pub proof fn lemma_div_trunc_bound(a: int, bound: int, d: int)
    requires
        d > 0,
        0 <= bound,
        -bound <= a <= bound,
    ensures
        -(bound / d) <= div_trunc(a, d) <= bound / d,
{
    if a >= 0 {
        lemma_div_is_ordered(a, bound, d);
        lemma_div_pos_is_pos(a, d);
    } else {
        lemma_div_is_ordered(-a, bound, d);
        lemma_div_pos_is_pos(-a, d);
    }
}

/// Truncating division computed over machine integers.
///
/// The quotient is taken on the magnitude so that only non-negative
/// machine division is performed.
pub fn div_trunc_i128(a: i128, d: i128) -> (r: i128)
    requires
        d > 0,
        a > i128::MIN,
    ensures
        r == div_trunc(a as int, d as int),
{
    if a >= 0 {
        let mag: u128 = a as u128;
        let q: u128 = mag / (d as u128);
        proof {
            lemma_div_is_ordered(a as int, i128::MAX as int, d as int);
            lemma_div_pos_is_pos(a as int, d as int);
        }
        q as i128
    } else {
        let mag: u128 = (-a) as u128;
        let q: u128 = mag / (d as u128);
        proof {
            lemma_div_is_ordered(-(a as int), -(i128::MIN as int), d as int);
            lemma_div_pos_is_pos(-(a as int), d as int);
        }
        -(q as i128)
    }
}

} // verus!
