//! Fixed-point quantities.
//!
//! Every physical quantity of the simulation (a position, a speed, a
//! coefficient) is an `i64` counting millionths of its unit, so that a step of
//! the simulation gives the same result on every machine and can be reasoned
//! about exactly. Products and quotients round toward zero, which keeps them
//! symmetric about zero.

use vstd::prelude::*;

verus! {

/// Number of raw steps in one whole unit.
pub const UNIT: i64 = 1_000_000;

/// Magnitude of an integer.
pub open spec fn mag(x: int) -> int {
    if x < 0 {
        -x
    } else {
        x
    }
}

/// Whether `x` can be held in an `i64`.
pub open spec fn fits(x: int) -> bool {
    i64::MIN <= x <= i64::MAX
}

/// Quotient of `a` by a positive `b`, rounded toward zero.
pub open spec fn div_trunc(a: int, b: int) -> int {
    if a >= 0 {
        a / b
    } else {
        -((-a) / b)
    }
}

/// Fixed-point product of two quantities: `a * b / UNIT`, rounded toward zero.
pub open spec fn scale(a: int, b: int) -> int {
    div_trunc(a * b, UNIT as int)
}

/// Fixed-point quotient of `a` by a positive `b`: `a * UNIT / b`, rounded
/// toward zero.
pub open spec fn ratio(a: int, b: int) -> int {
    div_trunc(a * UNIT, b)
}

/// Whether `r` is the integer square root of `n`, rounded down.
pub open spec fn is_sqrt_floor(n: int, r: int) -> bool {
    0 <= r && r * r <= n < (r + 1) * (r + 1)
}

/// The integer square root of `n`, rounded down. Meaningful for `n >= 0`.
pub open spec fn sqrt_floor(n: int) -> int {
    choose|r: int| is_sqrt_floor(n, r)
}

/// Rounding toward zero keeps the sign of the dividend and never gains
/// magnitude: `|a / b| * b <= |a|`, and the magnitude of the quotient is the
/// quotient of the magnitudes.
pub proof fn lemma_div_trunc(a: int, b: int)
    requires
        b > 0,
    ensures
        mag(div_trunc(a, b)) == mag(a) / b,
        a >= 0 ==> div_trunc(a, b) >= 0,
        a <= 0 ==> div_trunc(a, b) <= 0,
        mag(div_trunc(a, b)) * b <= mag(a),
        mag(a) < (mag(div_trunc(a, b)) + 1) * b,
{
    let m = mag(a);
    assert(0 <= m / b && (m / b) * b <= m && m < (m / b + 1) * b) by (nonlinear_arith)
        requires
            m >= 0,
            b > 0,
    ;
}

/// A product has the magnitude of the product of the magnitudes.
pub proof fn lemma_mag_mul(a: int, b: int)
    ensures
        mag(a * b) == mag(a) * mag(b),
        (a >= 0 && b >= 0) || (a <= 0 && b <= 0) ==> a * b >= 0,
        (a >= 0 && b <= 0) || (a <= 0 && b >= 0) ==> a * b <= 0,
{
    assert(mag(a * b) == mag(a) * mag(b)) by (nonlinear_arith)
        requires
            mag(a) == if a < 0 { -a } else { a },
            mag(b) == if b < 0 { -b } else { b },
            mag(a * b) == if a * b < 0 { -(a * b) } else { a * b },
    ;
    assert((a >= 0 && b >= 0) || (a <= 0 && b <= 0) ==> a * b >= 0) by (nonlinear_arith);
    assert((a >= 0 && b <= 0) || (a <= 0 && b >= 0) ==> a * b <= 0) by (nonlinear_arith);
}

/// Quotients of non-negative numbers grow with the dividend.
pub proof fn lemma_div_monotone(a: int, b: int, d: int)
    requires
        0 <= a <= b,
        d > 0,
    ensures
        a / d <= b / d,
{
    assert(a / d <= b / d) by (nonlinear_arith)
        requires
            0 <= a <= b,
            d > 0,
    ;
}

/// The magnitude of a fixed-point product is the product of the magnitudes,
/// rounded down; its sign is that of the exact product.
pub proof fn lemma_scale(a: int, b: int)
    ensures
        mag(scale(a, b)) == (mag(a) * mag(b)) / (UNIT as int),
        mag(scale(a, b)) * UNIT <= mag(a) * mag(b),
        (a >= 0 && b >= 0) || (a <= 0 && b <= 0) ==> scale(a, b) >= 0,
        (a >= 0 && b <= 0) || (a <= 0 && b >= 0) ==> scale(a, b) <= 0,
        scale(-a, b) == -scale(a, b),
{
    lemma_mag_mul(a, b);
    lemma_div_trunc(a * b, UNIT as int);
    assert((-a) * b == -(a * b)) by (nonlinear_arith);
}

/// A fixed-point product is bounded by the product of the bounds of its
/// factors.
pub proof fn lemma_scale_bound(a: int, b: int, bound_a: int, bound_b: int)
    requires
        mag(a) <= bound_a,
        mag(b) <= bound_b,
    ensures
        mag(scale(a, b)) <= (bound_a * bound_b) / (UNIT as int),
        mag(a) * mag(b) <= bound_a * bound_b,
{
    lemma_scale(a, b);
    let x = mag(a);
    let y = mag(b);
    assert(0 <= x * y <= bound_a * bound_b) by (nonlinear_arith)
        requires
            0 <= x <= bound_a,
            0 <= y <= bound_b,
    ;
    lemma_div_monotone(x * y, bound_a * bound_b, UNIT as int);
}

/// The magnitude of a fixed-point product grows with the magnitude of either
/// factor.
pub proof fn lemma_scale_monotone(a1: int, a2: int, b: int)
    requires
        mag(a1) <= mag(a2),
    ensures
        mag(scale(a1, b)) <= mag(scale(a2, b)),
{
    lemma_scale(a1, b);
    lemma_scale(a2, b);
    let x1 = mag(a1);
    let x2 = mag(a2);
    let y = mag(b);
    assert(0 <= x1 * y <= x2 * y) by (nonlinear_arith)
        requires
            0 <= x1 <= x2,
            0 <= y,
    ;
    lemma_div_monotone(x1 * y, x2 * y, UNIT as int);
}

/// A fixed-point quotient keeps the sign of its dividend, and multiplied back
/// by the divisor it does not exceed the dividend in magnitude.
pub proof fn lemma_ratio(a: int, b: int)
    requires
        b > 0,
    ensures
        mag(ratio(a, b)) * b <= mag(a) * UNIT,
        a >= 0 ==> ratio(a, b) >= 0,
        a <= 0 ==> ratio(a, b) <= 0,
        mag(a) <= b ==> mag(ratio(a, b)) <= UNIT,
{
    lemma_div_trunc(a * UNIT, b);
    lemma_mag_mul(a, UNIT as int);
    if mag(a) <= b {
        let q = mag(ratio(a, b));
        let m = mag(a);
        assert(q <= UNIT) by (nonlinear_arith)
            requires
                q * b <= m * UNIT,
                0 <= m <= b,
                b > 0,
                UNIT == 1_000_000,
        ;
    }
}

/// Squares of non-negative numbers are ordered as the numbers are.
pub proof fn lemma_square_order(a: int, b: int)
    requires
        0 <= a,
        0 <= b,
    ensures
        a < b <==> a * a < b * b,
        a <= b <==> a * a <= b * b,
{
    assert(a < b ==> a * a < b * b) by (nonlinear_arith)
        requires
            0 <= a,
            0 <= b,
    ;
    assert(b <= a ==> b * b <= a * a) by (nonlinear_arith)
        requires
            0 <= a,
            0 <= b,
    ;
    assert(a <= b ==> a * a <= b * b) by (nonlinear_arith)
        requires
            0 <= a,
            0 <= b,
    ;
    assert(b < a ==> b * b < a * a) by (nonlinear_arith)
        requires
            0 <= a,
            0 <= b,
    ;
}

/// At most one number is the rounded-down square root of `n`.
pub proof fn lemma_sqrt_floor_unique(n: int, r: int)
    requires
        is_sqrt_floor(n, r),
    ensures
        sqrt_floor(n) == r,
{
    let s = sqrt_floor(n);
    assert(is_sqrt_floor(n, s));
    lemma_square_order(s, r + 1);
    lemma_square_order(r, s + 1);
}

/// Every non-negative number has a rounded-down square root.
pub proof fn lemma_sqrt_floor(n: int)
    requires
        0 <= n,
    ensures
        is_sqrt_floor(n, sqrt_floor(n)),
    decreases n,
{
    if n == 0 {
        assert(is_sqrt_floor(0, 0));
    } else {
        lemma_sqrt_floor(n - 1);
        let r = sqrt_floor(n - 1);
        if n < (r + 1) * (r + 1) {
            assert(is_sqrt_floor(n, r));
        } else {
            assert((r + 2) * (r + 2) > (r + 1) * (r + 1)) by (nonlinear_arith)
                requires
                    0 <= r,
            ;
            assert(is_sqrt_floor(n, r + 1));
        }
    }
}

/// Magnitude of `x` as an unsigned number.
pub fn magnitude(x: i64) -> (m: u64)
    ensures
        m == mag(x as int),
{
    if x >= 0 {
        x as u64
    } else if x == i64::MIN {
        0x8000_0000_0000_0000u64
    } else {
        (-x) as u64
    }
}

/// Whether the wide number `x` can be held in an `i64`.
pub fn narrow_enough(x: i128) -> (ok: bool)
    ensures
        ok == fits(x as int),
{
    -0x8000_0000_0000_0000i128 <= x && x <= 0x7fff_ffff_ffff_ffffi128
}

/// Fixed-point product of two wide quantities. Their exact product has to be
/// within the range of a wide number.
pub fn scaled_wide(a: i128, b: i128) -> (r: i128)
    requires
        i128::MIN < a * b <= i128::MAX,
    ensures
        r == scale(a as int, b as int),
{
    let product: i128 = a * b;
    product / 1_000_000i128
}

/// Fixed-point quotient of `a` by the positive `b`, both wide. The dividend
/// has to stay within the range of a wide number when it is brought to raw
/// steps.
pub fn ratio_wide(a: i128, b: i128) -> (r: i128)
    requires
        b > 0,
        i128::MIN < a * UNIT <= i128::MAX,
    ensures
        r == ratio(a as int, b as int),
{
    let product: i128 = a * 1_000_000i128;
    product / b
}

/// The exact product of two numbers that an `i64` can hold is within the
/// range of a wide number.
pub proof fn lemma_product_is_wide(a: int, b: int)
    requires
        fits(a),
        fits(b),
    ensures
        i128::MIN < a * b <= i128::MAX,
{
    assert(-0x4000_0000_0000_0000_0000_0000_0000_0000 <= a * b
        <= 0x4000_0000_0000_0000_0000_0000_0000_0000) by (nonlinear_arith)
        requires
            -0x8000_0000_0000_0000 <= a <= 0x8000_0000_0000_0000,
            -0x8000_0000_0000_0000 <= b <= 0x8000_0000_0000_0000,
    ;
}

/// Fixed-point product of `a` and `b`.
pub fn scaled(a: i64, b: i64) -> (r: i64)
    requires
        fits(scale(a as int, b as int)),
    ensures
        r == scale(a as int, b as int),
{
    proof {
        lemma_product_is_wide(a as int, b as int);
    }
    scaled_wide(a as i128, b as i128) as i64
}

/// Fixed-point quotient of `a` by the positive `b`.
pub fn ratio_of(a: i64, b: i64) -> (r: i64)
    requires
        b > 0,
        fits(ratio(a as int, b as int)),
    ensures
        r == ratio(a as int, b as int),
{
    ratio_wide(a as i128, b as i128) as i64
}

/// Integer square root of `n`, rounded down.
pub fn isqrt(n: u128) -> (r: u64)
    ensures
        r == sqrt_floor(n as int),
        is_sqrt_floor(n as int, r as int),
{
    let mut low: u128 = 0;
    let mut high: u128 = 0x1_0000_0000_0000_0000u128;
    assert(0x1_0000_0000_0000_0000int * 0x1_0000_0000_0000_0000int
        == 0x1_0000_0000_0000_0000_0000_0000_0000_0000int) by (nonlinear_arith);
    while high - low > 1
        invariant
            low < high <= 0x1_0000_0000_0000_0000u128,
            low * low <= n < high * high,
        decreases high - low,
    {
        let middle: u128 = low + (high - low) / 2;
        assert(middle * middle <= 0xffff_ffff_ffff_ffffint * 0xffff_ffff_ffff_ffffint)
            by (nonlinear_arith)
            requires
                0 <= middle <= 0xffff_ffff_ffff_ffff,
        ;
        assert(0xffff_ffff_ffff_ffffint * 0xffff_ffff_ffff_ffffint
            < 0x1_0000_0000_0000_0000_0000_0000_0000_0000int) by (nonlinear_arith);
        if middle * middle <= n {
            low = middle;
        } else {
            high = middle;
        }
    }
    proof {
        lemma_sqrt_floor_unique(n as int, low as int);
    }
    low as u64
}

} // verus!
