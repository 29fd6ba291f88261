//! Shared constants, random sampling, and small scalar helpers.

use vstd::prelude::*;

use rand::RngExt;

use crate::fx::{fx_abs, fx_add, fx_div, fx_mul, fx_sub, fx_in_range, s_abs, s_add, s_div, s_mul,
    s_sub, s_tdiv, FX_MAX, FX_ONE};

verus! {

/// A ray parameter bound no real hit reaches: the saturation bound.
pub const INFINITY: i64 = FX_MAX;

/// The circle constant, in raw fixed-point units.
pub const FX_PI: i64 = 3294199;

/// 180.0 in raw fixed-point units.
pub const FX_180: i64 = 188743680;

/// Relies on rand::RngExt::random_range (rand crate): returns a value
/// uniformly distributed in `[0, n)`; panics only on an empty range.
#[verifier::external_body]
fn rand_below(n: u64) -> (r: u64)
    requires
        n > 0,
    ensures
        r < n,
{
    rand::rng().random_range(0..n)
}

/// A random fixed-point value in `[0, 1)`.
pub fn rand_double() -> (r: i64)
    ensures
        0 <= r < FX_ONE,
{
    rand_below(FX_ONE as u64) as i64
}

/// A random fixed-point value in `[min, max)` (collapsing to `min` when the
/// interval is empty).
pub fn rand_range(min: i64, max: i64) -> (r: i64)
    ensures
        exists|t: int|
            0 <= t < FX_ONE && r as int == s_add(min as int, s_mul(s_sub(max as int, min as int),
            t)),
        (fx_in_range(min as int) && fx_in_range(max as int) && min <= max) ==> min <= r <= max,
{
    let t: i64 = rand_double();
    let d: i64 = fx_sub(max, min);
    let m: i64 = fx_mul(d, t);
    let r: i64 = fx_add(min, m);
    proof {
        let ti = t as int;
        assert(0 <= ti < FX_ONE && r as int == s_add(min as int, s_mul(s_sub(max as int,
        min as int), ti)));
        if fx_in_range(min as int) && fx_in_range(max as int) && min <= max {
            let di = max as int - min as int;
            let de = d as int;
            assert(0 <= de <= di);
            assert(0 <= de * ti <= de * (FX_ONE as int)) by (nonlinear_arith)
                requires
                    0 <= de && 0 <= ti <= FX_ONE,
            ;
            crate::fx::lemma_tdiv_cancel(de, FX_ONE as int);
            vstd::arithmetic::div_mod::lemma_div_is_ordered(de * ti, de * (FX_ONE as int),
                FX_ONE as int);
            vstd::arithmetic::div_mod::lemma_div_pos_is_pos(de * ti, FX_ONE as int);
            assert(0 <= s_tdiv(de * ti, FX_ONE as int) <= de);
        }
    }
    r
}

/// Degrees to radians, in fixed point.
pub fn deg_to_rad(degs: i64) -> (r: i64)
    ensures
        r as int == s_div(s_mul(degs as int, FX_PI as int), FX_180 as int),
{
    fx_div(fx_mul(degs, FX_PI), FX_180)
}

/// One quarter turn (pi / 2) in raw fixed-point units.
pub const FX_PI_2: i64 = 1647099;

/// One full turn (2 pi) in raw fixed-point units.
pub const FX_TWO_PI: i64 = 6588397;

/// The Taylor polynomial for the sine on `[0, pi/2]`, in fixed point.
pub open spec fn s_sin_base(x: int) -> int {
    let x2 = s_mul(x, x);
    let x3 = s_mul(x2, x);
    let x5 = s_mul(x3, x2);
    let x7 = s_mul(x5, x2);
    let x9 = s_mul(x7, x2);
    s_add(s_sub(s_add(s_sub(x, s_div(x3, 6291456)), s_div(x5, 125829120)), s_div(x7, 5284823040)),
        s_div(x9, 380507258880))
}

/// The sine: reduce the angle into one turn, fold into the first quadrant,
/// then evaluate the Taylor polynomial.
pub open spec fn s_sin(x: int) -> int {
    let ax = s_abs(x);
    let rem = ax - s_tdiv(ax, FX_TWO_PI as int) * FX_TWO_PI;
    let s = if rem < FX_PI_2 {
        s_sin_base(rem)
    } else if rem < FX_PI {
        s_sin_base(FX_PI - rem)
    } else if rem < FX_PI + FX_PI_2 {
        -s_sin_base(rem - FX_PI)
    } else {
        -s_sin_base(FX_TWO_PI - rem)
    };
    if x < 0 {
        -s
    } else {
        s
    }
}

/// The cosine, as the sine shifted by a quarter turn.
pub open spec fn s_cos(x: int) -> int {
    s_sin(s_add(x, FX_PI_2 as int))
}

/// The tangent, as the quotient of sine and cosine; near a half turn the
/// quotient saturates, as the real tangent diverges.
pub open spec fn s_tan(x: int) -> int {
    s_div(s_sin(x), s_cos(x))
}

fn sin_base(x: i64) -> (r: i64)
    requires
        0 <= x <= 2000000,
    ensures
        r as int == s_sin_base(x as int),
{
    let x2: i64 = fx_mul(x, x);
    let x3: i64 = fx_mul(x2, x);
    let x5: i64 = fx_mul(x3, x2);
    let x7: i64 = fx_mul(x5, x2);
    let x9: i64 = fx_mul(x7, x2);
    fx_add(fx_sub(fx_add(fx_sub(x, fx_div(x3, 6291456)), fx_div(x5, 125829120)), fx_div(x7,
        5284823040)), fx_div(x9, 380507258880))
}

/// The fixed-point sine.
pub fn sin_fx(x: i64) -> (r: i64)
    ensures
        r as int == s_sin(x as int),
{
    let ax: i64 = fx_abs(x);
    let q: i64 = ax / FX_TWO_PI;
    proof {
        crate::fx::lemma_tdiv_bound(ax as int, FX_TWO_PI as int);
        vstd::arithmetic::div_mod::lemma_fundamental_div_mod(ax as int, FX_TWO_PI as int);
        vstd::arithmetic::div_mod::lemma_mod_bound(ax as int, FX_TWO_PI as int);
        assert(q * FX_TWO_PI <= ax) by (nonlinear_arith)
            requires
                q == (ax as int) / (FX_TWO_PI as int) && ax >= 0 && FX_TWO_PI == 6588397 && (
                ax as int) == FX_TWO_PI * ((ax as int) / (FX_TWO_PI as int)) + ((ax as int) % (
                FX_TWO_PI as int)) && 0 <= ((ax as int) % (FX_TWO_PI as int)) < FX_TWO_PI,
        ;
    }
    let rem: i64 = ax - q * FX_TWO_PI;
    let s: i64 = if rem < FX_PI_2 {
        sin_base(rem)
    } else if rem < FX_PI {
        sin_base(FX_PI - rem)
    } else if rem < FX_PI + FX_PI_2 {
        sin_base(rem - FX_PI)
    } else {
        sin_base(FX_TWO_PI - rem)
    };
    let folded: i64 = if rem < FX_PI {
        s
    } else {
        -s
    };
    if x < 0 {
        -folded
    } else {
        folded
    }
}

/// The fixed-point cosine.
pub fn cos_fx(x: i64) -> (r: i64)
    ensures
        r as int == s_cos(x as int),
{
    sin_fx(fx_add(x, FX_PI_2))
}

/// The fixed-point tangent.
pub fn tan_fx(x: i64) -> (r: i64)
    ensures
        r as int == s_tan(x as int),
{
    fx_div(sin_fx(x), cos_fx(x))
}

/// Clamp a raw value into `[min, max]`.
pub fn clamp(x: i64, min: i64, max: i64) -> (r: i64)
    ensures
        r == if (x as int) < min as int {
            min
        } else if x as int > max as int {
            max
        } else {
            x
        },
{
    if x < min {
        min
    } else if x > max {
        max
    } else {
        x
    }
}

} // verus!
