//! Fixed-point arithmetic: values are integers counted in micro-units
//! (`SCALE` micro-units to the unit), with saturation at the `i64` range and
//! truncating division, so every operation is total and exactly specified.

use vstd::prelude::*;
use vstd::arithmetic::div_mod::{
    lemma_div_basics, lemma_div_is_ordered, lemma_div_is_ordered_by_denominator,
    lemma_div_pos_is_pos, lemma_fundamental_div_mod, lemma_mod_division_less_than_divisor,
};

verus! {

/// Micro-units in one unit: all fixed-point values in this crate count
/// millionths.
pub const SCALE: i64 = 1_000_000;

/// An unbounded integer clamped into the `i64` range.
pub open spec fn sat64(x: int) -> int {
    if x > i64::MAX {
        i64::MAX as int
    } else if x < i64::MIN {
        i64::MIN as int
    } else {
        x
    }
}

/// Division rounding toward zero (the semantics of Rust's `/` on signed
/// integers), defined for positive divisors.
pub open spec fn tdiv(a: int, b: int) -> int {
    if a >= 0 {
        a / b
    } else {
        -((-a) / b)
    }
}

/// The magnitude of an integer.
pub open spec fn abs(a: int) -> int {
    if a >= 0 {
        a
    } else {
        -a
    }
}

/// Truncating division never grows the magnitude: |a / b| <= |a| for b >= 1.
pub proof fn lemma_tdiv_bound(a: int, b: int)
    requires
        b >= 1,
    ensures
        abs(tdiv(a, b)) <= abs(a),
        a >= 0 ==> 0 <= tdiv(a, b) <= a,
        a < 0 ==> a <= tdiv(a, b) <= 0,
{
    let m = abs(a);
    lemma_div_pos_is_pos(m, b);
    lemma_div_is_ordered_by_denominator(m, 1, b);
    lemma_div_basics(m);
}

/// Truncating division shrinks a magnitude bound by the divisor:
/// |a| <= m gives |a / b| <= m / b.
pub proof fn lemma_tdiv_mag(a: int, b: int, m: int)
    requires
        b >= 1,
        abs(a) <= m,
    ensures
        abs(tdiv(a, b)) <= m / b,
{
    lemma_div_pos_is_pos(abs(a), b);
    lemma_div_is_ordered(abs(a), m, b);
}

/// Truncating division against its multiple: `m * tdiv(n, m)` misses `n` by
/// less than `m`, toward zero.
pub proof fn lemma_tdiv_mul(n: int, m: int)
    requires
        m >= 1,
    ensures
        -m < n - m * tdiv(n, m) < m,
        n >= 0 ==> 0 <= n - m * tdiv(n, m),
        n < 0 ==> n - m * tdiv(n, m) <= 0,
{
    if n >= 0 {
        lemma_fundamental_div_mod(n, m);
        lemma_mod_division_less_than_divisor(n, m);
    } else {
        lemma_fundamental_div_mod(-n, m);
        lemma_mod_division_less_than_divisor(-n, m);
        let q = (-n) / m;
        assert(m * (-q) == -(m * q)) by (nonlinear_arith);
        assert(n - m * tdiv(n, m) == n + m * q);
    }
}

/// Clamp a 128-bit intermediate result into the `i64` range.
pub fn sat_to_i64(x: i128) -> (r: i64)
    ensures
        r == sat64(x as int),
{
    if x > i64::MAX as i128 {
        i64::MAX
    } else if x < i64::MIN as i128 {
        i64::MIN
    } else {
        x as i64
    }
}

/// Truncating division of 128-bit intermediates by a positive divisor.
pub fn tdiv_i128(a: i128, b: i128) -> (r: i128)
    requires
        b >= 1,
    ensures
        r == tdiv(a as int, b as int),
{
    proof {
        lemma_tdiv_bound(a as int, b as int);
    }
    match a.checked_div(b) {
        Some(q) => q,
        None => 0,
    }
}

/// The exact product of two `i64` values, kept wide.
pub fn mul_wide(a: i64, b: i64) -> (r: i128)
    ensures
        r == a * b,
{
    proof {
        assert(a * b <= i128::MAX && a * b >= i128::MIN) by (nonlinear_arith)
            requires
                i64::MIN <= a <= i64::MAX,
                i64::MIN <= b <= i64::MAX,
        ;
    }
    (a as i128) * (b as i128)
}

/// `sat64(tdiv(a * b, d))`: multiply two fixed-point values and rescale by a
/// positive divisor, truncating toward zero.
pub fn mul_div_sat(a: i64, b: i64, d: i64) -> (r: i64)
    requires
        d >= 1,
    ensures
        r == sat64(tdiv(a * b, d as int)),
{
    let p = mul_wide(a, b);
    let q = tdiv_i128(p, d as i128);
    sat_to_i64(q)
}

} // verus!
