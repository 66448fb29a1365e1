//! Scaled-integer arithmetic.
//!
//! A decimal quantity `x` is held as the integer `round(x * PRECISION_FACTOR)`.
//! Products of two scaled values are taken in 128 bits and rescaled, so that no
//! intermediate result wraps; a result that does not fit in 64 bits is reported,
//! never truncated.

use vstd::prelude::*;
use vstd::arithmetic::div_mod::lemma_div_is_ordered;
use vstd::arithmetic::div_mod::lemma_div_by_multiple;
use vstd::arithmetic::div_mod::lemma_div_pos_is_pos;
use vstd::arithmetic::div_mod::lemma_fundamental_div_mod;
use vstd::arithmetic::div_mod::lemma_mod_bound;
use vstd::arithmetic::mul::lemma_mul_inequality;
use vstd::arithmetic::mul::lemma_mul_nonnegative;
use vstd::arithmetic::mul::lemma_mul_is_commutative;

verus! {

/// The scaled representation of the decimal `1.0`.
pub const PRECISION_FACTOR: u64 = 0x1_0000_0000;

/// `a * b / d`, rounded down.
pub open spec fn mul_div(a: int, b: int, d: int) -> int
    recommends
        d > 0,
{
    (a * b) / d
}

/// The product of two scaled values, rescaled by one factor of
/// `PRECISION_FACTOR` and rounded down.
pub open spec fn scaled_mul(a: int, b: int) -> int {
    mul_div(a, b, PRECISION_FACTOR as int)
}

/// A percentage in scaled units as a scaled fraction: a hundredth of
/// `percent`, rounded half up.
pub open spec fn percent_as_fraction(percent: int) -> int {
    (percent + 50) / 100
}

/// `mul_div` never decreases when either factor grows.
pub proof fn lemma_mul_div_monotonic(a1: int, a2: int, b1: int, b2: int, d: int)
    requires
        0 <= a1 <= a2,
        0 <= b1 <= b2,
        d > 0,
    ensures
        0 <= mul_div(a1, b1, d) <= mul_div(a2, b2, d),
{
    lemma_mul_nonnegative(a1, b1);
    lemma_mul_inequality(a1, a2, b1);
    lemma_mul_is_commutative(a2, b1);
    lemma_mul_is_commutative(a2, b2);
    lemma_mul_inequality(b1, b2, a2);
    lemma_div_pos_is_pos(a1 * b1, d);
    lemma_div_is_ordered(a1 * b1, a2 * b2, d);
}

/// Taking `b` parts out of `d`, with `b <= d`, never gives more than the whole.
pub proof fn lemma_mul_div_at_most(a: int, b: int, d: int)
    requires
        0 <= a,
        0 <= b <= d,
        d > 0,
    ensures
        0 <= mul_div(a, b, d) <= a,
        b == d ==> mul_div(a, b, d) == a,
        b == 0 ==> mul_div(a, b, d) == 0,
{
    lemma_mul_div_monotonic(a, a, b, d, d);
    lemma_div_by_multiple(a, d);
    if b == 0 {
        assert(a * b == 0) by (nonlinear_arith)
            requires
                b == 0,
        ;
    }
}

/// `mul_div` rounds down: it is the largest integer whose multiple of `d` does
/// not exceed the product.
pub proof fn lemma_mul_div_rounds_down(a: int, b: int, d: int)
    requires
        d > 0,
    ensures
        mul_div(a, b, d) * d <= a * b < (mul_div(a, b, d) + 1) * d,
{
    lemma_fundamental_div_mod(a * b, d);
    lemma_mod_bound(a * b, d);
    assert(d * mul_div(a, b, d) == mul_div(a, b, d) * d) by (nonlinear_arith);
    assert((mul_div(a, b, d) + 1) * d == mul_div(a, b, d) * d + d) by (nonlinear_arith);
}

/// `a * b / d` rounded down, or `None` where `d` is zero or the quotient does
/// not fit in 64 bits. The product is formed in 128 bits and cannot wrap.
pub fn checked_mul_div(a: u64, b: u64, d: u64) -> (r: Option<u64>)
    ensures
        r is Some <==> d > 0 && mul_div(a as int, b as int, d as int) <= u64::MAX,
        r is Some ==> r.unwrap() == mul_div(a as int, b as int, d as int),
{
    if d == 0 {
        return None;
    }
    assert(a * b <= 0xffff_ffff_ffff_ffff * 0xffff_ffff_ffff_ffff) by (nonlinear_arith)
        requires
            0 <= a <= 0xffff_ffff_ffff_ffff,
            0 <= b <= 0xffff_ffff_ffff_ffff,
    ;
    let product: u128 = (a as u128) * (b as u128);
    let quotient: u128 = product / (d as u128);
    if quotient > u64::MAX as u128 {
        None
    } else {
        Some(quotient as u64)
    }
}

/// The part of `amount` that `part` is of `whole`: `amount * part / whole`,
/// rounded down. With `part <= whole` the result is at most `amount`.
pub fn proportion(amount: u64, part: u64, whole: u64) -> (r: u64)
    requires
        whole > 0,
        part <= whole,
    ensures
        r == mul_div(amount as int, part as int, whole as int),
        r <= amount,
{
    proof {
        lemma_mul_div_at_most(amount as int, part as int, whole as int);
    }
    assert(amount * part <= 0xffff_ffff_ffff_ffff * 0xffff_ffff_ffff_ffff) by (nonlinear_arith)
        requires
            0 <= amount <= 0xffff_ffff_ffff_ffff,
            0 <= part <= 0xffff_ffff_ffff_ffff,
    ;
    let product: u128 = (amount as u128) * (part as u128);
    let quotient: u128 = product / (whole as u128);
    quotient as u64
}

/// Converts a percentage in scaled units into a scaled fraction, rounding half
/// up: `PRECISION_FACTOR` (one percent) becomes a hundredth of
/// `PRECISION_FACTOR`.
pub fn percent_to_fraction(percent: u64) -> (fraction: u64)
    ensures
        fraction == percent_as_fraction(percent as int),
{
    let whole: u64 = percent / 100;
    let rest: u64 = percent % 100;
    if rest >= 50 {
        whole + 1
    } else {
        whole
    }
}

} // verus!
