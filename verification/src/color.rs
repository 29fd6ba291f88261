//! Colors as fixed-point vectors, and the conversion to output bytes.

use vstd::prelude::*;

use crate::common::clamp;
use crate::fx::{fx_div, fx_from_int, fx_mul, fx_sqrt, s_div, s_mul, s_sat, s_sqrt, s_tdiv,
    FX_ONE};
use crate::vec3::Vec3;

verus! {

/// A color: components are fixed-point channel intensities, 1.0 = full.
pub type Color = Vec3;

/// Raw value of the clamp ceiling 0.999 applied before byte conversion.
pub const FX_CEIL: i64 = 1047527;

/// One gamma-corrected channel as a byte: average the accumulated channel over
/// the sample count, take the square root (gamma 2), clamp to [0, 0.999], and
/// scale by 256.
pub open spec fn s_channel_byte(c: int, scale: int) -> int {
    let g = s_sqrt(s_mul(scale, c));
    let k = if g < 0 {
        0
    } else if g > FX_CEIL {
        FX_CEIL as int
    } else {
        g
    };
    s_tdiv(k * 256, FX_ONE as int)
}

fn channel_byte(c: i64, scale: i64) -> (r: u8)
    ensures
        r as int == s_channel_byte(c as int, scale as int),
{
    let g: i64 = fx_sqrt(fx_mul(scale, c));
    let k: i64 = clamp(g, 0, FX_CEIL);
    proof {
        assert(0 <= k * 256 <= 268166912) by (nonlinear_arith)
            requires
                0 <= k <= FX_CEIL && FX_CEIL == 1047527,
        ;
        crate::fx::lemma_tdiv_bound(k as int * 256, FX_ONE as int);
        vstd::arithmetic::div_mod::lemma_div_is_ordered(k as int * 256, 268166912, FX_ONE as int);
        assert(268166912int / 0x100000int == 255);
    }
    let wide: i64 = k * 256;
    let b: i64 = wide / FX_ONE;
    b as u8
}

/// Finalize one pixel: divide the accumulated color by the sample count,
/// gamma-correct each channel, and produce the three output bytes.
pub fn color_to_array(color: Color, samples: i32) -> (r: [u8; 3])
    ensures
        ({
            let scale = s_div(FX_ONE as int, s_sat(samples as int * FX_ONE));
            r[0] as int == s_channel_byte(color.x as int, scale) && r[1] as int == s_channel_byte(
                color.y as int, scale) && r[2] as int == s_channel_byte(color.z as int, scale)
        }),
{
    let samples_fx: i64 = fx_from_int(samples as i64);
    let scale: i64 = fx_div(FX_ONE, samples_fx);
    [channel_byte(color.x, scale), channel_byte(color.y, scale), channel_byte(color.z, scale)]
}

} // verus!
