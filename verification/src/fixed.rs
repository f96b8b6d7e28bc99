//! Fixed-point arithmetic.
//!
//! Every physical quantity of the controller (metres, kilograms, seconds,
//! normalized camera coordinates, probabilities, filter parameters) is an
//! `i64` counting millionths of its unit. All operations are total: a result
//! that does not fit an `i64` saturates at the nearest bound, and a division
//! rounds toward zero.

use vstd::prelude::*;

verus! {

/// The fixed-point representation of 1.
pub const ONE: i64 = 1_000_000;

/// `x` brought into the range of an `i64`.
pub open spec fn sat64(x: int) -> i64 {
    if x < i64::MIN as int {
        i64::MIN
    } else if x > i64::MAX as int {
        i64::MAX
    } else {
        x as i64
    }
}

/// `x` brought into the range of an `i32`.
pub open spec fn sat32(x: int) -> i32 {
    if x < i32::MIN as int {
        i32::MIN
    } else if x > i32::MAX as int {
        i32::MAX
    } else {
        x as i32
    }
}

/// The quotient of `a` by a positive `b`, rounded toward zero.
pub open spec fn trunc_div(a: int, b: int) -> int
    recommends
        b > 0,
{
    if a >= 0 {
        a / b
    } else {
        -((-a) / b)
    }
}

/// Saturating sum.
pub open spec fn fx_sum(a: i64, b: i64) -> i64 {
    sat64(a + b)
}

/// Saturating difference.
pub open spec fn fx_diff(a: i64, b: i64) -> i64 {
    sat64(a - b)
}

/// Saturating negation.
pub open spec fn fx_negated(a: i64) -> i64 {
    sat64(-a)
}

/// Saturating fixed-point product: `a * b / ONE`, rounded toward zero.
pub open spec fn fx_product(a: i64, b: i64) -> i64 {
    sat64(trunc_div(a * b, ONE as int))
}

/// Saturating fixed-point quotient: `a * ONE / b`, rounded toward zero.
/// Dividing by zero saturates toward the sign of `a`, and gives zero for zero.
pub open spec fn fx_quotient(a: i64, b: i64) -> i64 {
    if b > 0 {
        sat64(trunc_div(a * (ONE as int), b as int))
    } else if b < 0 {
        sat64(trunc_div(-(a * (ONE as int)), -(b as int)))
    } else if a > 0 {
        i64::MAX
    } else if a < 0 {
        i64::MIN
    } else {
        0
    }
}

/// Linear interpolation from `a` toward `b` by the fraction `t`.
pub open spec fn fx_lerped(a: i64, b: i64, t: i64) -> i64 {
    fx_sum(a, fx_product(fx_diff(b, a), t))
}

/// `x` limited to the interval from `lo` to `hi`.
pub open spec fn clamped(x: i64, lo: i64, hi: i64) -> i64 {
    if x < lo {
        lo
    } else if x > hi {
        hi
    } else {
        x
    }
}

/// `x` limited to magnitude `|bound|`.
pub open spec fn clamped_sym(x: i64, bound: i64) -> i64 {
    let b = magnitude(bound);
    clamped(x, (-b) as i64, b)
}

/// The magnitude of `x`, saturated.
pub open spec fn magnitude(x: i64) -> i64 {
    if x == i64::MIN {
        i64::MAX
    } else if x < 0 {
        (-x) as i64
    } else {
        x
    }
}

/// The product of two 64-bit values fits 128 bits with room to spare.
pub proof fn lemma_product_bound(a: int, b: int)
    requires
        -0x8000_0000_0000_0000 <= a <= 0x8000_0000_0000_0000,
        -0x8000_0000_0000_0000 <= b <= 0x8000_0000_0000_0000,
    ensures
        -0x4000_0000_0000_0000_0000_0000_0000_0000 <= a * b
            <= 0x4000_0000_0000_0000_0000_0000_0000_0000,
{
    assert(-0x4000_0000_0000_0000_0000_0000_0000_0000 <= a * b
        <= 0x4000_0000_0000_0000_0000_0000_0000_0000) by (nonlinear_arith)
        requires
            -0x8000_0000_0000_0000 <= a <= 0x8000_0000_0000_0000,
            -0x8000_0000_0000_0000 <= b <= 0x8000_0000_0000_0000,
    ;
}

/// A fixed-point product has the sign that its factors give it.
pub proof fn lemma_product_sign(a: i64, b: i64)
    ensures
        (a >= 0 && b >= 0) || (a <= 0 && b <= 0) ==> fx_product(a, b) >= 0,
        (a >= 0 && b <= 0) || (a <= 0 && b >= 0) ==> fx_product(a, b) <= 0,
        a == 0 || b == 0 ==> fx_product(a, b) == 0,
{
    let p = a * b;
    assert((a >= 0 && b >= 0) || (a <= 0 && b <= 0) ==> p >= 0) by (nonlinear_arith)
        requires
            p == a * b,
    ;
    assert((a >= 0 && b <= 0) || (a <= 0 && b >= 0) ==> p <= 0) by (nonlinear_arith)
        requires
            p == a * b,
    ;
}

/// A fixed-point product grows with a factor where the other factor is not
/// negative, and falls with it where the other is not positive.
pub proof fn lemma_product_monotone(a: i64, b: i64, m: i64)
    requires
        a <= b,
    ensures
        m >= 0 ==> fx_product(a, m) <= fx_product(b, m),
        m <= 0 ==> fx_product(a, m) >= fx_product(b, m),
{
    let x = a * m;
    let y = b * m;
    assert(m >= 0 ==> x <= y) by (nonlinear_arith)
        requires
            a <= b,
            x == a * m,
            y == b * m,
    ;
    assert(m <= 0 ==> x >= y) by (nonlinear_arith)
        requires
            a <= b,
            x == a * m,
            y == b * m,
    ;
}

/// Rounding a quotient toward zero loses less than one divisor, on the side
/// of zero.
pub proof fn lemma_trunc_div_error(a: int, d: int)
    requires
        d > 0,
    ensures
        a >= 0 ==> 0 <= a - trunc_div(a, d) * d < d,
        a <= 0 ==> -d < a - trunc_div(a, d) * d <= 0,
{
    if a >= 0 {
        assert(0 <= a - (a / d) * d < d) by (nonlinear_arith)
            requires
                d > 0,
        ;
    } else {
        let b = -a;
        assert(0 <= b - (b / d) * d < d) by (nonlinear_arith)
            requires
                d > 0,
        ;
        assert((-(b / d)) * d == -((b / d) * d)) by (nonlinear_arith);
    }
}

/// Saturates a 128-bit value into 64 bits.
pub fn narrow(x: i128) -> (r: i64)
    ensures
        r == sat64(x as int),
{
    if x < i64::MIN as i128 {
        i64::MIN
    } else if x > i64::MAX as i128 {
        i64::MAX
    } else {
        x as i64
    }
}

/// Saturating sum.
pub fn fx_add(a: i64, b: i64) -> (r: i64)
    ensures
        r == fx_sum(a, b),
{
    narrow(a as i128 + b as i128)
}

/// Saturating difference.
pub fn fx_sub(a: i64, b: i64) -> (r: i64)
    ensures
        r == fx_diff(a, b),
{
    narrow(a as i128 - b as i128)
}

/// Saturating negation.
pub fn fx_neg(a: i64) -> (r: i64)
    ensures
        r == fx_negated(a),
{
    narrow(0 - a as i128)
}

/// Saturating fixed-point product, rounded toward zero.
pub fn fx_mul(a: i64, b: i64) -> (r: i64)
    ensures
        r == fx_product(a, b),
{
    proof {
        lemma_product_bound(a as int, b as int);
    }
    let wide: i128 = (a as i128) * (b as i128);
    narrow(wide / (ONE as i128))
}

/// Saturating fixed-point quotient, rounded toward zero. Dividing by zero
/// saturates toward the sign of `a`, and gives zero for zero.
pub fn fx_div(a: i64, b: i64) -> (r: i64)
    ensures
        r == fx_quotient(a, b),
{
    proof {
        lemma_product_bound(a as int, ONE as int);
    }
    let wide: i128 = (a as i128) * (ONE as i128);
    if b > 0 {
        narrow(wide / (b as i128))
    } else if b < 0 {
        narrow((0 - wide) / (0 - b as i128))
    } else if a > 0 {
        i64::MAX
    } else if a < 0 {
        i64::MIN
    } else {
        0
    }
}

/// Linear interpolation from `a` toward `b` by the fraction `t`.
pub fn fx_lerp(a: i64, b: i64, t: i64) -> (r: i64)
    ensures
        r == fx_lerped(a, b, t),
{
    fx_add(a, fx_mul(fx_sub(b, a), t))
}

/// `num::clamp` on 64-bit integers: `input` where it lies between `min` and
/// `max`, else the bound that it passed. The outside function asserts
/// `min <= max`, so that is required.
#[verifier::external_body]
fn clamp_i64(input: i64, min: i64, max: i64) -> (r: i64)
    requires
        min <= max,
    ensures
        r == clamped(input, min, max),
{
    num::clamp(input, min, max)
}

/// `x` limited to the interval from `lo` to `hi`.
pub fn fx_clamp(x: i64, lo: i64, hi: i64) -> (r: i64)
    requires
        lo <= hi,
    ensures
        r == clamped(x, lo, hi),
{
    clamp_i64(x, lo, hi)
}

/// The magnitude of `x`, saturated.
pub fn fx_abs(x: i64) -> (r: i64)
    ensures
        r == magnitude(x),
{
    if x == i64::MIN {
        i64::MAX
    } else if x < 0 {
        -x
    } else {
        x
    }
}

/// `x` limited to magnitude `|bound|`.
pub fn fx_clamp_sym(x: i64, bound: i64) -> (r: i64)
    ensures
        r == clamped_sym(x, bound),
{
    let b: i64 = fx_abs(bound);
    clamp_i64(x, -b, b)
}

/// The fixed-point value of a whole number.
pub fn fx_from_i32(x: i32) -> (r: i64)
    ensures
        r as int == x as int * ONE as int,
{
    (x as i64) * ONE
}

/// The whole part of a fixed-point value, rounded toward zero and saturated.
pub fn fx_to_i32(x: i64) -> (r: i32)
    ensures
        r == sat32(trunc_div(x as int, ONE as int)),
{
    let q: i64 = x / ONE;
    if q < i32::MIN as i64 {
        i32::MIN
    } else if q > i32::MAX as i64 {
        i32::MAX
    } else {
        q as i32
    }
}

/// The fixed-point square root of a non-negative `a`, rounded down: the
/// largest `r` with `r * r <= a * ONE`.
pub open spec fn is_fx_root(a: i64, r: i64) -> bool {
    &&& r >= 0
    &&& r * r <= a * (ONE as int)
    &&& a * (ONE as int) < (r + 1) * (r + 1)
}

/// The square root of `a`, rounded down; zero for a negative `a`.
pub open spec fn fx_root(a: i64) -> i64 {
    if a < 0 {
        0
    } else {
        choose|r: i64| is_fx_root(a, r)
    }
}

/// A number has at most one rounded-down square root.
pub proof fn lemma_root_unique(a: i64, r1: i64, r2: i64)
    requires
        is_fx_root(a, r1),
        is_fx_root(a, r2),
    ensures
        r1 == r2,
{
    let n = a * (ONE as int);
    if r1 < r2 {
        assert((r1 + 1) * (r1 + 1) <= r2 * r2) by (nonlinear_arith)
            requires
                0 <= r1,
                r1 + 1 <= r2,
        ;
    } else if r2 < r1 {
        assert((r2 + 1) * (r2 + 1) <= r1 * r1) by (nonlinear_arith)
            requires
                0 <= r2,
                r2 + 1 <= r1,
        ;
    }
}

proof fn lemma_int_root_exists(n: int) -> (r: int)
    requires
        n >= 0,
    ensures
        r >= 0,
        r * r <= n < (r + 1) * (r + 1),
    decreases n,
{
    if n == 0 {
        0
    } else {
        let r = lemma_int_root_exists(n - 1);
        if (r + 1) * (r + 1) <= n {
            assert(n < (r + 2) * (r + 2)) by (nonlinear_arith)
                requires
                    r >= 0,
                    n - 1 < (r + 1) * (r + 1),
            ;
            r + 1
        } else {
            r
        }
    }
}

/// Every number that is not negative has a rounded-down square root, and
/// no root is negative.
pub proof fn lemma_root_exists(a: i64)
    ensures
        a >= 0 ==> is_fx_root(a, fx_root(a)),
        fx_root(a) >= 0,
{
    if a >= 0 {
        let n = a * (ONE as int);
        let r = lemma_int_root_exists(n);
        assert(r < 0x400_0000_0000) by (nonlinear_arith)
            requires
                r >= 0,
                r * r <= n,
                n < 0x10_0000_0000_0000_0000_0000,
        ;
        assert(is_fx_root(a, r as i64));
    }
}

proof fn lemma_square_bound(m: int, bound: int)
    requires
        0 <= m <= bound,
    ensures
        0 <= m * m <= bound * bound,
{
    assert(0 <= m * m <= bound * bound) by (nonlinear_arith)
        requires
            0 <= m <= bound,
    ;
}

/// The square root of `a`, rounded down; zero for a negative `a`.
pub fn fx_sqrt(a: i64) -> (r: i64)
    ensures
        r == fx_root(a),
        a >= 0 ==> is_fx_root(a, r),
        a < 0 ==> r == 0,
{
    if a < 0 {
        return 0;
    }
    let n: u128 = (a as u128) * 1_000_000u128;
    let mut lo: u128 = 0;
    let mut hi: u128 = 0x400_0000_0000;
    proof {
        assert(0x400_0000_0000int * 0x400_0000_0000int == 0x10_0000_0000_0000_0000_0000int)
            by (nonlinear_arith);
    }
    while hi - lo > 1
        invariant
            lo < hi <= 0x400_0000_0000,
            lo * lo <= n,
            n < hi * hi,
            n == a as int * ONE as int,
        decreases hi - lo,
    {
        let mid: u128 = lo + (hi - lo) / 2;
        proof {
            lemma_square_bound(mid as int, 0x400_0000_0000);
            assert(0x400_0000_0000int * 0x400_0000_0000int == 0x10_0000_0000_0000_0000_0000int)
                by (nonlinear_arith);
        }
        if mid * mid <= n {
            lo = mid;
        } else {
            hi = mid;
        }
    }
    let r = lo as i64;
    proof {
        assert(is_fx_root(a, r));
        lemma_root_unique(a, r, fx_root(a));
    }
    r
}

} // verus!
