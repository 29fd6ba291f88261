//! Exact-value checks for the fixed-point scalar layer.

use ray_tracer::color::color_to_array;
use ray_tracer::common::{clamp, cos_fx, deg_to_rad, rand_double, rand_range, sin_fx, tan_fx,
    FX_PI};
use ray_tracer::fx::{fx_abs, fx_add, fx_div, fx_from_int, fx_mul, fx_neg, fx_sqrt, fx_sub,
    fx_to_int, FX_HALF, FX_MAX, FX_ONE};
use ray_tracer::vec3::Vec3;

#[test]
fn fx_add_sub_neg_abs() {
    assert_eq!(fx_add(FX_ONE, FX_ONE), 2 * FX_ONE);
    assert_eq!(fx_sub(FX_ONE, 3 * FX_ONE), -2 * FX_ONE);
    assert_eq!(fx_neg(5), -5);
    assert_eq!(fx_abs(-7 * FX_ONE), 7 * FX_ONE);
    assert_eq!(fx_add(FX_MAX, FX_MAX), FX_MAX);
    assert_eq!(fx_sub(-FX_MAX, FX_MAX), -FX_MAX);
}

#[test]
fn fx_mul_exact() {
    assert_eq!(fx_mul(2 * FX_ONE, 3 * FX_ONE), 6 * FX_ONE);
    assert_eq!(fx_mul(FX_HALF, FX_HALF), FX_ONE / 4);
    assert_eq!(fx_mul(-2 * FX_ONE, 3 * FX_ONE), -6 * FX_ONE);
    assert_eq!(fx_mul(0, 123456789), 0);
    assert_eq!(fx_mul(FX_ONE, 987654), 987654);
}

#[test]
fn fx_div_exact() {
    assert_eq!(fx_div(6 * FX_ONE, 3 * FX_ONE), 2 * FX_ONE);
    assert_eq!(fx_div(FX_ONE, 2 * FX_ONE), FX_HALF);
    assert_eq!(fx_div(-6 * FX_ONE, 3 * FX_ONE), -2 * FX_ONE);
    // division by zero saturates by the numerator's sign
    assert_eq!(fx_div(5, 0), FX_MAX);
    assert_eq!(fx_div(-5, 0), -FX_MAX);
    assert_eq!(fx_div(0, 0), 0);
}

#[test]
fn fx_sqrt_exact_squares() {
    assert_eq!(fx_sqrt(FX_ONE), FX_ONE);
    assert_eq!(fx_sqrt(4 * FX_ONE), 2 * FX_ONE);
    assert_eq!(fx_sqrt(9 * FX_ONE), 3 * FX_ONE);
    assert_eq!(fx_sqrt(FX_ONE / 4), FX_HALF);
    assert_eq!(fx_sqrt(0), 0);
    assert_eq!(fx_sqrt(-FX_ONE), 0);
}

#[test]
fn fx_conversions() {
    assert_eq!(fx_from_int(7), 7 * FX_ONE);
    assert_eq!(fx_to_int(7 * FX_ONE + 3), 7);
    assert_eq!(fx_to_int(-7 * FX_ONE - 3), -7);
}

#[test]
fn clamp_picks_bounds() {
    assert_eq!(clamp(5, 0, 10), 5);
    assert_eq!(clamp(-5, 0, 10), 0);
    assert_eq!(clamp(15, 0, 10), 10);
}

#[test]
fn deg_to_rad_half_turn() {
    let pi = deg_to_rad(180 * FX_ONE);
    assert!((pi - FX_PI).abs() <= 4, "pi = {pi}");
}

#[test]
fn trig_known_angles() {
    let r30 = deg_to_rad(30 * FX_ONE);
    let r45 = deg_to_rad(45 * FX_ONE);
    let r60 = deg_to_rad(60 * FX_ONE);
    let tol = 16;
    assert!((sin_fx(r30) - FX_HALF).abs() <= tol);
    assert!((cos_fx(r60) - FX_HALF).abs() <= tol);
    assert!((tan_fx(r45) - FX_ONE).abs() <= tol);
    assert!(sin_fx(0) == 0);
    // odd symmetry of the sine
    assert_eq!(sin_fx(-r30), -sin_fx(r30));
}

#[test]
fn rand_double_in_unit_interval() {
    for _ in 0..100 {
        let r = rand_double();
        assert!(0 <= r && r < FX_ONE);
    }
}

#[test]
fn rand_range_stays_inside() {
    for _ in 0..100 {
        let r = rand_range(-FX_ONE, FX_ONE);
        assert!(-FX_ONE <= r && r <= FX_ONE);
    }
}

#[test]
fn bytes_for_full_white_single_sample() {
    let c = Vec3 { x: FX_ONE, y: FX_ONE, z: FX_ONE };
    assert_eq!(color_to_array(c, 1), [255, 255, 255]);
}

#[test]
fn bytes_for_black() {
    let c = Vec3 { x: 0, y: 0, z: 0 };
    assert_eq!(color_to_array(c, 1), [0, 0, 0]);
}

#[test]
fn bytes_gamma_corrects_quarter_gray() {
    // 0.25 averaged over one sample, gamma 2 -> 0.5 -> byte 128
    let c = Vec3 { x: FX_ONE / 4, y: FX_ONE / 4, z: FX_ONE / 4 };
    assert_eq!(color_to_array(c, 1), [128, 128, 128]);
}

#[test]
fn bytes_average_over_samples() {
    // a sum of 4 samples of 0.25 averages to 0.25 -> byte 128
    let c = Vec3 { x: FX_ONE, y: FX_ONE, z: FX_ONE };
    assert_eq!(color_to_array(c, 4), [128, 128, 128]);
}
