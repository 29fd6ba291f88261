//! Saturating fixed-point scalar arithmetic.
//!
//! A scalar is an `i64` raw value counting units of `1 / FX_ONE` (20
//! fractional bits). Every operation is total: results are clamped into
//! `[-FX_MAX, FX_MAX]`, and division by zero saturates toward the sign of the
//! numerator. Each executable operation is specified exactly by an integer
//! model (`s_mul`, `s_div`, ...), so callers reason about plain integers.

use vstd::prelude::*;

verus! {

/// Raw units per 1.0: fixed-point values carry 20 fractional bits.
pub const FX_ONE: i64 = 1048576;

/// Raw value of one half.
pub const FX_HALF: i64 = 524288;

/// Saturation bound on every raw value (2^46 - 1).
pub const FX_MAX: i64 = 70368744177663;

/// Clamp an unbounded integer into the representable raw range.
pub open spec fn s_sat(x: int) -> int {
    if x > FX_MAX {
        FX_MAX as int
    } else if x < -FX_MAX {
        -FX_MAX as int
    } else {
        x
    }
}

/// Truncating (round toward zero) division by a positive divisor.
pub open spec fn s_tdiv(x: int, d: int) -> int
    recommends
        d > 0,
{
    if x >= 0 {
        x / d
    } else {
        -((-x) / d)
    }
}

/// Truncating division by any nonzero divisor.
pub open spec fn s_tdiv_s(x: int, d: int) -> int
    recommends
        d != 0,
{
    if d >= 0 {
        s_tdiv(x, d)
    } else {
        -s_tdiv(x, -d)
    }
}

/// Saturating sum of two raw values.
pub open spec fn s_add(a: int, b: int) -> int {
    s_sat(a + b)
}

/// Saturating difference of two raw values.
pub open spec fn s_sub(a: int, b: int) -> int {
    s_sat(a - b)
}

/// Saturating negation of a raw value.
pub open spec fn s_neg(a: int) -> int {
    s_sat(-a)
}

/// The fixed-point product: truncating scale-down of the wide product.
pub open spec fn s_mul(a: int, b: int) -> int {
    s_sat(s_tdiv(a * b, FX_ONE as int))
}

/// The fixed-point quotient; division by zero saturates by the numerator's sign.
pub open spec fn s_div(a: int, b: int) -> int {
    if b == 0 {
        if a > 0 {
            FX_MAX as int
        } else if a < 0 {
            -FX_MAX as int
        } else {
            0
        }
    } else {
        s_sat(s_tdiv_s(a * FX_ONE, b))
    }
}

/// `r` is the integer square root of `x`.
pub open spec fn is_isqrt(x: int, r: int) -> bool {
    0 <= r && r * r <= x && x < (r + 1) * (r + 1)
}

/// The integer square root, as a function.
pub open spec fn s_isqrt(x: int) -> int {
    choose|r: int| is_isqrt(x, r)
}

/// The fixed-point square root; nonpositive inputs map to zero.
pub open spec fn s_sqrt(a: int) -> int {
    if a <= 0 {
        0
    } else {
        s_isqrt(a * FX_ONE)
    }
}

/// Absolute value of a raw value (saturating, so total on all of `i64`).
pub open spec fn s_abs(a: int) -> int {
    if a >= 0 {
        s_sat(a)
    } else {
        s_sat(-a)
    }
}

/// A raw value the saturating operations can never leave their range.
pub open spec fn fx_in_range(a: int) -> bool {
    -FX_MAX <= a <= FX_MAX
}

pub proof fn lemma_tdiv_bound(x: int, d: int)
    requires
        d > 0,
    ensures
        s_tdiv(x, d) * d <= x || x < 0,
        x <= s_tdiv(x, d) * d || x >= 0,
        x >= 0 ==> 0 <= s_tdiv(x, d) <= x,
        x < 0 ==> x <= s_tdiv(x, d) <= 0,
{
    if x >= 0 {
        vstd::arithmetic::div_mod::lemma_fundamental_div_mod(x, d);
        vstd::arithmetic::div_mod::lemma_div_pos_is_pos(x, d);
        vstd::arithmetic::div_mod::lemma_div_nonincreasing(x, d);
        assert(s_tdiv(x, d) * d <= x) by (nonlinear_arith)
            requires
                d > 0 && x >= 0 && x == d * (x / d) + x % d && 0 <= x % d,
        ;
    } else {
        vstd::arithmetic::div_mod::lemma_fundamental_div_mod(-x, d);
        vstd::arithmetic::div_mod::lemma_div_pos_is_pos(-x, d);
        vstd::arithmetic::div_mod::lemma_div_nonincreasing(-x, d);
        assert(x <= s_tdiv(x, d) * d) by (nonlinear_arith)
            requires
                d > 0 && x < 0 && -x == d * ((-x) / d) + (-x) % d && 0 <= (-x) % d,
        ;
    }
}

/// Truncating division is an odd function of the numerator.
pub proof fn lemma_tdiv_neg(x: int, d: int)
    requires
        d > 0,
    ensures
        s_tdiv(-x, d) == -s_tdiv(x, d),
{
}

/// Scaling by `FX_ONE` and dividing back is the identity.
pub proof fn lemma_tdiv_cancel(x: int, d: int)
    requires
        d > 0,
    ensures
        s_tdiv(x * d, d) == x,
{
    if x >= 0 {
        vstd::arithmetic::div_mod::lemma_div_multiples_vanish(x, d);
        assert(x * d == d * x) by (nonlinear_arith);
    } else {
        vstd::arithmetic::div_mod::lemma_div_multiples_vanish(-x, d);
        assert(-(x * d) == d * -x) by (nonlinear_arith);
    }
}

/// The product with `FX_ONE` (the raw 1.0) gives the other factor back.
pub proof fn lemma_mul_one(a: int)
    requires
        fx_in_range(a),
    ensures
        s_mul(FX_ONE as int, a) == a,
        s_mul(a, FX_ONE as int) == a,
{
    lemma_tdiv_cancel(a, FX_ONE as int);
    assert(a * FX_ONE == FX_ONE * a) by (nonlinear_arith);
}

/// The product with zero is zero.
pub proof fn lemma_mul_zero(a: int)
    ensures
        s_mul(0, a) == 0,
        s_mul(a, 0) == 0,
{
    assert(0 * a == 0) by (nonlinear_arith);
    assert(a * 0 == 0) by (nonlinear_arith);
}

/// The fixed-point product is odd in each argument.
pub proof fn lemma_mul_neg(a: int, b: int)
    ensures
        s_mul(-a, b) == -s_mul(a, b),
        s_mul(a, -b) == -s_mul(a, b),
{
    assert((-a) * b == -(a * b) && a * (-b) == -(a * b)) by (nonlinear_arith);
    lemma_tdiv_neg(a * b, FX_ONE as int);
}

fn sat_i128(x: i128) -> (r: i64)
    ensures
        r as int == s_sat(x as int),
{
    if x > FX_MAX as i128 {
        FX_MAX
    } else if x < -(FX_MAX as i128) {
        -FX_MAX
    } else {
        x as i64
    }
}

fn tdiv_i128(x: i128, d: i128) -> (q: i128)
    requires
        d > 0,
        x > i128::MIN,
    ensures
        q == s_tdiv(x as int, d as int),
        x >= 0 ==> 0 <= q <= x,
        x < 0 ==> x <= q <= 0,
{
    proof {
        lemma_tdiv_bound(x as int, d as int);
    }
    if x >= 0 {
        x / d
    } else {
        -((-x) / d)
    }
}

/// Fixed-point division with a wide numerator, as the quadratic root
/// computation needs; same convention as `s_div`.
pub fn fx_div_wide(n: i128, d: i64) -> (r: i64)
    requires
        -0x1000000000000000000000000 <= n <= 0x1000000000000000000000000,
    ensures
        r as int == s_div(n as int, d as int),
{
    if d == 0 {
        if n > 0 {
            FX_MAX
        } else if n < 0 {
            -FX_MAX
        } else {
            0
        }
    } else {
        proof {
            assert(i128::MIN < (n as int) * (FX_ONE as int) < i128::MAX) by (nonlinear_arith)
                requires
                    -0x1000000000000000000000000 <= n <= 0x1000000000000000000000000 && FX_ONE
                        == 0x100000,
            ;
        }
        let num: i128 = n * (FX_ONE as i128);
        let q: i128 = if d > 0 {
            tdiv_i128(num, d as i128)
        } else {
            let m: i128 = tdiv_i128(num, -(d as i128));
            -m
        };
        sat_i128(q)
    }
}

/// Integer square root of a wide nonnegative value (for quadratic
/// discriminants, which are held at double scale).
pub fn fx_isqrt_wide(x: i128) -> (r: i64)
    requires
        0 <= x < 0x400000000000000000000000,
    ensures
        r as int == s_isqrt(x as int),
        0 <= r < 0x800000000000,
{
    let r: u64 = isqrt_u128(x as u128);
    proof {
        lemma_isqrt_exists(x as int);
        lemma_isqrt_unique(x as int, r as int, s_isqrt(x as int));
    }
    r as i64
}

/// The fixed-point value of an integer count (saturating).
pub fn fx_from_int(i: i64) -> (r: i64)
    ensures
        r as int == s_sat(i * FX_ONE),
{
    proof {
        assert(i128::MIN < (i as int) * (FX_ONE as int) < i128::MAX) by (nonlinear_arith)
            requires
                i64::MIN <= i <= i64::MAX && FX_ONE == 0x100000,
        ;
    }
    sat_i128((i as i128) * (FX_ONE as i128))
}

/// The fixed-point value of a collection size (saturating).
pub fn fx_from_count(n: usize) -> (r: i64)
    ensures
        r as int == s_sat(n as int * FX_ONE),
{
    if n >= 67108864 {
        proof {
            assert((n as int) * (FX_ONE as int) > FX_MAX) by (nonlinear_arith)
                requires
                    n >= 67108864 && FX_ONE == 0x100000 && FX_MAX == 0x3fffffffffff,
            ;
        }
        FX_MAX
    } else {
        fx_from_int(n as i64)
    }
}

/// The integer part of a fixed-point value (truncating toward zero).
pub fn fx_to_int(a: i64) -> (r: i64)
    ensures
        r as int == s_tdiv(a as int, FX_ONE as int),
{
    let q: i128 = tdiv_i128(a as i128, FX_ONE as i128);
    q as i64
}

/// Saturating fixed-point addition.
pub fn fx_add(a: i64, b: i64) -> (r: i64)
    ensures
        r as int == s_add(a as int, b as int),
{
    sat_i128(a as i128 + b as i128)
}

/// Saturating fixed-point subtraction.
pub fn fx_sub(a: i64, b: i64) -> (r: i64)
    ensures
        r as int == s_sub(a as int, b as int),
{
    sat_i128(a as i128 - b as i128)
}

/// Saturating fixed-point negation.
pub fn fx_neg(a: i64) -> (r: i64)
    ensures
        r as int == s_neg(a as int),
{
    sat_i128(-(a as i128))
}

/// Saturating fixed-point absolute value.
pub fn fx_abs(a: i64) -> (r: i64)
    ensures
        r as int == s_abs(a as int),
{
    if a >= 0 {
        sat_i128(a as i128)
    } else {
        sat_i128(-(a as i128))
    }
}

/// Saturating fixed-point multiplication.
pub fn fx_mul(a: i64, b: i64) -> (r: i64)
    ensures
        r as int == s_mul(a as int, b as int),
{
    proof {
        assert(i128::MIN < (a as int) * (b as int) <= i128::MAX) by (nonlinear_arith)
            requires
                i64::MIN <= a <= i64::MAX && i64::MIN <= b <= i64::MAX,
        ;
    }
    let p: i128 = (a as i128) * (b as i128);
    let q: i128 = tdiv_i128(p, FX_ONE as i128);
    sat_i128(q)
}

/// Saturating fixed-point division; a zero divisor saturates by the
/// numerator's sign.
pub fn fx_div(a: i64, b: i64) -> (r: i64)
    ensures
        r as int == s_div(a as int, b as int),
{
    if b == 0 {
        if a > 0 {
            FX_MAX
        } else if a < 0 {
            -FX_MAX
        } else {
            0
        }
    } else {
        proof {
            assert(i128::MIN < (a as int) * (FX_ONE as int) < i128::MAX) by (nonlinear_arith)
                requires
                    i64::MIN <= a <= i64::MAX,
            ;
        }
        let n: i128 = (a as i128) * (FX_ONE as i128);
        let q: i128 = if b > 0 {
            tdiv_i128(n, b as i128)
        } else {
            let m: i128 = tdiv_i128(n, -(b as i128));
            -m
        };
        sat_i128(q)
    }
}

/// The smaller of two raw values.
pub fn fx_min(a: i64, b: i64) -> (r: i64)
    ensures
        r == if a as int <= b as int {
            a
        } else {
            b
        },
{
    if a <= b {
        a
    } else {
        b
    }
}

/// Integer square roots are unique.
pub proof fn lemma_isqrt_unique(x: int, r1: int, r2: int)
    requires
        is_isqrt(x, r1),
        is_isqrt(x, r2),
    ensures
        r1 == r2,
{
    assert(r1 == r2) by (nonlinear_arith)
        requires
            0 <= r1 && r1 * r1 <= x && x < (r1 + 1) * (r1 + 1) && 0 <= r2 && r2 * r2 <= x && x < (
            r2 + 1) * (r2 + 1),
    ;
}

/// Every nonnegative integer has a square root, and `s_isqrt` returns it.
pub proof fn lemma_isqrt_exists(x: int)
    requires
        x >= 0,
    ensures
        is_isqrt(x, s_isqrt(x)),
    decreases x,
{
    if x == 0 {
        assert(is_isqrt(0, 0));
    } else {
        lemma_isqrt_exists(x - 1);
        let r = s_isqrt(x - 1);
        if (r + 1) * (r + 1) <= x {
            assert(is_isqrt(x, r + 1)) by (nonlinear_arith)
                requires
                    is_isqrt(x - 1, r) && (r + 1) * (r + 1) <= x,
            ;
        } else {
            assert(is_isqrt(x, r));
        }
    }
}

fn isqrt_u128(x: u128) -> (r: u64)
    requires
        x < 0x400000000000000000000000,
    ensures
        is_isqrt(x as int, r as int),
        r < 0x800000000000,
{
    let mut lo: u64 = 0;
    let mut hi: u64 = 0x800000000000;
    proof {
        assert(0x800000000000int * 0x800000000000int == 0x400000000000000000000000int);
    }
    while lo + 1 < hi
        invariant
            lo < hi <= 0x800000000000,
            (lo as int) * (lo as int) <= x as int,
            (x as int) < (hi as int) * (hi as int),
        decreases hi - lo,
    {
        let mid: u64 = lo + (hi - lo) / 2;
        proof {
            assert((mid as int) * (mid as int) < 0x1000000000000000000000000) by (nonlinear_arith)
                requires
                    0 <= mid < 0x1000000000000,
            ;
        }
        let sq: u128 = (mid as u128) * (mid as u128);
        if sq <= x {
            lo = mid;
        } else {
            hi = mid;
        }
    }
    proof {
        assert(is_isqrt(x as int, lo as int));
    }
    lo
}

/// Fixed-point square root: `s_sqrt` of the raw value, zero when nonpositive.
pub fn fx_sqrt(a: i64) -> (r: i64)
    ensures
        r as int == s_sqrt(a as int),
        0 <= r < 0x800000000000,
{
    if a <= 0 {
        0
    } else {
        proof {
            assert((a as int) * (FX_ONE as int) < 0x400000000000000000000000) by (nonlinear_arith)
                requires
                    0 < a <= i64::MAX,
            ;
        }
        let x: u128 = (a as u128) * (FX_ONE as u128);
        let r: u64 = isqrt_u128(x);
        proof {
            lemma_isqrt_exists((a as int) * (FX_ONE as int));
            lemma_isqrt_unique((a as int) * (FX_ONE as int), r as int, s_isqrt(
                (a as int) * (FX_ONE as int)));
        }
        r as i64
    }
}

/// Truncating division is monotone in the numerator.
pub proof fn lemma_tdiv_mono(x: int, y: int, d: int)
    requires
        x <= y,
        d > 0,
    ensures
        s_tdiv(x, d) <= s_tdiv(y, d),
{
    lemma_tdiv_bound(x, d);
    lemma_tdiv_bound(y, d);
    if 0 <= x {
        vstd::arithmetic::div_mod::lemma_div_is_ordered(x, y, d);
    } else if y < 0 {
        vstd::arithmetic::div_mod::lemma_div_is_ordered(-y, -x, d);
    }
}

/// The fixed-point quotient is monotone in the numerator, for a nonnegative
/// divisor (including the zero-divisor saturation convention).
pub proof fn lemma_div_mono(x: int, y: int, d: int)
    requires
        x <= y,
        d >= 0,
    ensures
        s_div(x, d) <= s_div(y, d),
{
    if d == 0 {
    } else {
        lemma_tdiv_mono(x * FX_ONE, y * FX_ONE, d);
    }
}

/// Magnitude bound for the fixed-point quotient, from a numerator bound and a
/// positive divisor lower bound.
pub proof fn lemma_div_bound(a: int, b: int, ba: int, bmin: int)
    requires
        -ba <= a <= ba,
        0 <= ba,
        0 < bmin <= b,
    ensures
        -s_tdiv(ba * FX_ONE, bmin) <= s_div(a, b) <= s_tdiv(ba * FX_ONE, bmin),
{
    let f = FX_ONE as int;
    let n = a * f;
    let top = ba * f;
    assert(-top <= n <= top && 0 <= top) by (nonlinear_arith)
        requires
            -ba <= a <= ba && 0 <= ba && f > 0 && n == a * f && top == ba * f,
    ;
    lemma_tdiv_bound(n, b);
    lemma_tdiv_bound(top, bmin);
    if n >= 0 {
        vstd::arithmetic::div_mod::lemma_div_is_ordered(n, top, b);
        vstd::arithmetic::div_mod::lemma_div_is_ordered_by_denominator(top, bmin, b);
    } else {
        vstd::arithmetic::div_mod::lemma_div_is_ordered(-n, top, b);
        vstd::arithmetic::div_mod::lemma_div_is_ordered_by_denominator(top, bmin, b);
    }
}

/// A lower bound for the fixed-point square root.
pub proof fn lemma_sqrt_at_least(a: int, m: int)
    requires
        a > 0,
        m >= 0,
        m * m <= a * FX_ONE,
    ensures
        s_sqrt(a) >= m,
{
    lemma_isqrt_exists(a * (FX_ONE as int));
    let r = s_isqrt(a * (FX_ONE as int));
    assert(r >= m) by (nonlinear_arith)
        requires
            m >= 0 && m * m <= a * FX_ONE && is_isqrt(a * (FX_ONE as int), r) && FX_ONE == 0x100000,
    ;
}

/// An upper bound for the fixed-point square root.
pub proof fn lemma_sqrt_at_most(a: int, m: int)
    requires
        a > 0,
        m >= 0,
        a * FX_ONE <= m * m,
    ensures
        s_sqrt(a) <= m,
{
    lemma_isqrt_exists(a * (FX_ONE as int));
    let r = s_isqrt(a * (FX_ONE as int));
    assert(r <= m) by (nonlinear_arith)
        requires
            m >= 0 && a * FX_ONE <= m * m && is_isqrt(a * (FX_ONE as int), r) && a > 0 && FX_ONE
                == 0x100000,
    ;
}

/// The square root of the fixed-point square of `v` is `v` back, whenever the
/// square loses no precision (for example `v == FX_ONE`, whose raw square is
/// exactly representable).
pub proof fn lemma_sqrt_of_square(v: int)
    requires
        0 < v <= 0x100000000,
        (v * v) % (FX_ONE as int) == 0,
    ensures
        s_mul(v, v) == (v * v) / (FX_ONE as int),
        s_sqrt(s_mul(v, v)) == v,
{
    let f = FX_ONE as int;
    let q = (v * v) / f;
    assert(v * v >= 0) by (nonlinear_arith)
        requires
            v > 0,
    ;
    vstd::arithmetic::div_mod::lemma_fundamental_div_mod(v * v, f);
    assert(q * f == v * v);
    assert(0 <= q <= 0x100000000000) by (nonlinear_arith)
        requires
            q * f == v * v && 0 < v <= 0x100000000 && f == 0x100000,
    ;
    assert(s_mul(v, v) == q);
    assert(q > 0) by (nonlinear_arith)
        requires
            q * f == v * v && v > 0 && f > 0,
    ;
    assert(is_isqrt(q * f, v)) by (nonlinear_arith)
        requires
            0 < v && q * f == v * v,
    ;
    lemma_isqrt_exists(q * f);
    lemma_isqrt_unique(q * f, v, s_isqrt(q * f));
}

} // verus!
