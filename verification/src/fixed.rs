//! Fixed-point quantities.
//!
//! Every gameplay quantity (health, block, energy, rates, durations) is a
//! signed count of thousandths, held in an `i64`.  Integer arithmetic gives the
//! same result on every machine, which is what lets two peers replay a match
//! and arrive at identical state.  Results that would leave the `i64` range
//! stop at its ends.

use vstd::prelude::*;

verus! {

/// A quantity in thousandths: `1500` is one and a half.
pub type Fixed = i64;

/// The representation of `1.0`.
pub const ONE: Fixed = 1000;

/// An elapsed time in thousandths of a second.
pub type Millis = u32;

/// `x` limited to the range of `Fixed`.
pub open spec fn clamp(x: int) -> int {
    if x < i64::MIN {
        i64::MIN as int
    } else if x > i64::MAX {
        i64::MAX as int
    } else {
        x
    }
}

/// `x`, or zero where `x` is negative.
pub open spec fn at_least_zero(x: int) -> int {
    if x < 0 {
        0
    } else {
        x
    }
}

/// The smaller of two integers.
pub open spec fn lesser(a: int, b: int) -> int {
    if a <= b {
        a
    } else {
        b
    }
}

/// The larger of two integers.
pub open spec fn greater(a: int, b: int) -> int {
    if a >= b {
        a
    } else {
        b
    }
}

/// What a rate of `rate` per second amounts to over `delta` thousandths of a
/// second, rounded down.
pub open spec fn accrued(rate: int, delta: int) -> int {
    clamp((rate * delta) / (ONE as int))
}

/// `x` multiplied by the fraction `num / den`, rounded down.
pub open spec fn fraction(x: int, num: int, den: int) -> int {
    clamp((x * num) / den)
}

/// `x` limited to the range of `Fixed`.
fn narrow(x: i128) -> (r: Fixed)
    ensures
        r == clamp(x as int),
{
    if x < i64::MIN as i128 {
        i64::MIN
    } else if x > i64::MAX as i128 {
        i64::MAX
    } else {
        x as i64
    }
}

/// Saturating sum.
pub fn sum(a: Fixed, b: Fixed) -> (r: Fixed)
    ensures
        r == clamp(a + b),
{
    narrow(a as i128 + b as i128)
}

/// Saturating difference.
pub fn difference(a: Fixed, b: Fixed) -> (r: Fixed)
    ensures
        r == clamp(a - b),
{
    narrow(a as i128 - b as i128)
}

/// Saturating negation.
pub fn negated(a: Fixed) -> (r: Fixed)
    ensures
        r == clamp(-a),
{
    narrow(0 - a as i128)
}

/// `a`, or zero where `a` is negative.
pub fn floor_zero(a: Fixed) -> (r: Fixed)
    ensures
        r == at_least_zero(a as int),
{
    if a < 0 {
        0
    } else {
        a
    }
}

/// The smaller of `a` and `b`.
pub fn smaller(a: Fixed, b: Fixed) -> (r: Fixed)
    ensures
        r == lesser(a as int, b as int),
{
    if a <= b {
        a
    } else {
        b
    }
}

/// The larger of `a` and `b`.
pub fn larger(a: Fixed, b: Fixed) -> (r: Fixed)
    ensures
        r == greater(a as int, b as int),
{
    if a >= b {
        a
    } else {
        b
    }
}

/// Saturating `x * num / den`, the quotient rounded down for a positive
/// `den`.
pub fn scaled(x: Fixed, num: Fixed, den: Fixed) -> (r: Fixed)
    requires
        den != 0,
    ensures
        r == fraction(x as int, num as int, den as int),
{
    let wide: i128 = x as i128;
    let n: i128 = num as i128;
    let d: i128 = den as i128;
    assert(-0x4000_0000_0000_0000_0000_0000_0000_0000 <= wide * n
        <= 0x4000_0000_0000_0000_0000_0000_0000_0000) by (nonlinear_arith)
        requires
            -0x8000_0000_0000_0000 <= wide < 0x8000_0000_0000_0000,
            -0x8000_0000_0000_0000 <= n < 0x8000_0000_0000_0000,
    ;
    let product: i128 = wide * n;
    assert(-0x4000_0000_0000_0000_0000_0000_0000_0001 <= product / d
        <= 0x4000_0000_0000_0000_0000_0000_0000_0001) by (nonlinear_arith)
        requires
            -0x4000_0000_0000_0000_0000_0000_0000_0000 <= product
                <= 0x4000_0000_0000_0000_0000_0000_0000_0000,
            d != 0,
    ;
    match product.checked_div_euclid(d) {
        Some(q) => narrow(q),
        None => 0,
    }
}

/// What `rate` per second amounts to over `delta`, rounded down and
/// saturating.
pub fn over_time(rate: Fixed, delta: Millis) -> (r: Fixed)
    ensures
        r == accrued(rate as int, delta as int),
{
    scaled(rate, delta as i64, ONE)
}

} // verus!
