//! Fixed-point arithmetic on non-negative quantities.
//!
//! Weights, sample counts, radiances and scores are held as unsigned counts
//! of millionths in a `u64`. Every operation saturates at `u64::MAX`, which
//! plays the part of "infinitely large", and rounds towards zero.

use vstd::prelude::*;

verus! {

/// The quantity one, in millionths.
pub const ONE: u64 = 1_000_000;

/// The smallest denominator a normalisation divides by: one thousandth.
pub const EPSILON: u64 = 1_000;

/// One quarter.
pub const QUARTER: u64 = 250_000;

/// One half.
pub const HALF: u64 = 500_000;

/// Clamps a mathematical integer into the range of a `u64`.
pub open spec fn saturate(x: int) -> int {
    if x < 0 {
        0
    } else if x > u64::MAX as int {
        u64::MAX as int
    } else {
        x
    }
}

/// The saturating sum of two quantities.
pub open spec fn sum(a: int, b: int) -> int {
    saturate(a + b)
}

/// The saturating product of two quantities, rounded towards zero.
pub open spec fn product(a: int, b: int) -> int {
    saturate((a * b) / (ONE as int))
}

/// The saturating quotient of two quantities, rounded towards zero.
/// Meaningful for a positive divisor only.
pub open spec fn quotient(a: int, b: int) -> int {
    saturate((a * (ONE as int)) / b)
}

/// The smaller of two integers.
pub open spec fn least(a: int, b: int) -> int {
    if a <= b {
        a
    } else {
        b
    }
}

/// The larger of two integers.
pub open spec fn greatest(a: int, b: int) -> int {
    if a >= b {
        a
    } else {
        b
    }
}

/// Narrows a 128-bit intermediate result to a quantity, saturating.
fn narrow(x: u128) -> (r: u64)
    ensures
        r as int == saturate(x as int),
{
    if x > u64::MAX as u128 {
        u64::MAX
    } else {
        x as u64
    }
}

/// Adds two quantities.
pub fn plus(a: u64, b: u64) -> (r: u64)
    ensures
        r as int == sum(a as int, b as int),
{
    narrow(a as u128 + b as u128)
}

/// Multiplies two quantities.
pub fn times(a: u64, b: u64) -> (r: u64)
    ensures
        r as int == product(a as int, b as int),
{
    assert(a as int * b as int <= u64::MAX as int * u64::MAX as int) by (nonlinear_arith)
        requires
            0 <= a as int <= u64::MAX as int,
            0 <= b as int <= u64::MAX as int,
    ;
    assert(0 <= a as int * b as int) by (nonlinear_arith)
        requires
            0 <= a as int,
            0 <= b as int,
    ;
    let wide: u128 = a as u128 * b as u128;
    narrow(wide / (ONE as u128))
}

/// Divides one quantity by another.
pub fn over(a: u64, b: u64) -> (r: u64)
    requires
        b > 0,
    ensures
        r as int == quotient(a as int, b as int),
{
    let wide: u128 = a as u128 * (ONE as u128);
    narrow(wide / (b as u128))
}

/// The smaller of two quantities.
pub fn lesser(a: u64, b: u64) -> (r: u64)
    ensures
        r as int == least(a as int, b as int),
{
    if a <= b {
        a
    } else {
        b
    }
}

/// The larger of two quantities.
pub fn greater(a: u64, b: u64) -> (r: u64)
    ensures
        r as int == greatest(a as int, b as int),
{
    if a >= b {
        a
    } else {
        b
    }
}

/// A product of quantities that are both at most one is at most one.
pub proof fn product_of_fractions(a: int, b: int)
    requires
        0 <= a <= ONE as int,
        0 <= b <= ONE as int,
    ensures
        0 <= product(a, b) <= least(a, b),
{
    assert(0 <= a * b) by (nonlinear_arith)
        requires
            0 <= a,
            0 <= b,
    ;
    assert(a * b <= a * (ONE as int)) by (nonlinear_arith)
        requires
            0 <= a,
            b <= ONE as int,
    ;
    assert(a * b <= (ONE as int) * b) by (nonlinear_arith)
        requires
            0 <= b,
            a <= ONE as int,
    ;
    assert((a * (ONE as int)) / (ONE as int) == a) by (nonlinear_arith);
    assert(((ONE as int) * b) / (ONE as int) == b) by (nonlinear_arith);
    assert((a * b) / (ONE as int) <= (a * (ONE as int)) / (ONE as int)) by (nonlinear_arith)
        requires
            a * b <= a * (ONE as int),
    ;
    assert((a * b) / (ONE as int) <= ((ONE as int) * b) / (ONE as int)) by (nonlinear_arith)
        requires
            a * b <= (ONE as int) * b,
    ;
    assert(0 <= (a * b) / (ONE as int)) by (nonlinear_arith)
        requires
            0 <= a * b,
    ;
}

/// Whether `r` is the square root of the quantity `a`, rounded towards
/// zero: the largest `r` whose square, as a quantity, is at most `a`.
pub open spec fn is_root(r: int, a: int) -> bool {
    0 <= r && r * r <= a * (ONE as int) < (r + 1) * (r + 1)
}

/// The square root of a quantity, rounded towards zero.
pub open spec fn root(a: int) -> int {
    choose|r: int| is_root(r, a)
}

/// A quantity has one square root only.
pub proof fn root_is_unique(r: int, a: int)
    requires
        is_root(r, a),
    ensures
        root(a) == r,
{
    let other = root(a);
    assert(is_root(other, a));
    if other < r {
        assert((other + 1) * (other + 1) <= r * r) by (nonlinear_arith)
            requires
                0 <= other,
                other + 1 <= r,
        ;
    } else if other > r {
        assert((r + 1) * (r + 1) <= other * other) by (nonlinear_arith)
            requires
                0 <= r,
                r + 1 <= other,
        ;
    }
}

/// Takes the square root of a quantity.
pub fn sqrt(a: u64) -> (r: u64)
    ensures
        r as int == root(a as int),
        is_root(r as int, a as int),
{
    let n: u128 = (a as u128) * 1_000_000u128;
    let mut lo: u128 = 0;
    let mut hi: u128 = 0x400_0000_0000;
    assert(n < hi * hi) by (nonlinear_arith)
        requires
            n < 0x1_0000_0000_0000_0000 * 1_000_000,
            hi == 0x400_0000_0000,
    ;
    assert(lo * lo <= n) by (nonlinear_arith)
        requires
            lo == 0,
            0 <= n,
    ;
    while hi - lo > 1
        invariant
            lo < hi <= 0x400_0000_0000,
            lo * lo <= n < hi * hi,
        decreases hi - lo,
    {
        let mid: u128 = lo + (hi - lo) / 2;
        assert(mid * mid < 0x400_0000_0000 * 0x400_0000_0000) by (nonlinear_arith)
            requires
                0 <= mid < 0x400_0000_0000,
        ;
        if mid * mid <= n {
            lo = mid;
        } else {
            hi = mid;
        }
    }
    assert(hi == lo + 1);
    proof {
        root_is_unique(lo as int, a as int);
    }
    lo as u64
}

} // verus!
