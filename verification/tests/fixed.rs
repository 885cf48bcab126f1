use tatk::fixed::{
    fx_abs, fx_add, fx_count, fx_div, fx_max, fx_mul, fx_quot, fx_ratio, fx_smooth, fx_sqrt,
    fx_sub, narrow, SCALE,
};
use tatk::Num;

#[test]
fn scale_is_a_million() {
    assert_eq!(SCALE, 1_000_000);
}

#[test]
fn narrow_saturates() {
    assert_eq!(narrow(5), 5);
    assert_eq!(narrow(Num::MAX as i128 + 1), Num::MAX);
    assert_eq!(narrow(Num::MIN as i128 - 1), Num::MIN);
    assert_eq!(narrow(i128::MAX), Num::MAX);
    assert_eq!(narrow(i128::MIN), Num::MIN);
}

#[test]
fn add_and_sub_saturate() {
    assert_eq!(fx_add(1_500_000, 2_250_000), 3_750_000);
    assert_eq!(fx_add(Num::MAX, 1), Num::MAX);
    assert_eq!(fx_add(Num::MIN, -1), Num::MIN);
    assert_eq!(fx_sub(1_500_000, 2_250_000), -750_000);
    assert_eq!(fx_sub(Num::MIN, 1), Num::MIN);
    assert_eq!(fx_sub(Num::MAX, -1), Num::MAX);
    assert_eq!(fx_sub(0, Num::MIN), Num::MAX);
}

#[test]
fn mul_rounds_toward_zero_and_saturates() {
    assert_eq!(fx_mul(1_500_000, 2_000_000), 3_000_000);
    assert_eq!(fx_mul(333_333, 3_000_000), 999_999);
    assert_eq!(fx_mul(1, 999_999), 0);
    assert_eq!(fx_mul(-1, 999_999), 0);
    assert_eq!(fx_mul(-1_500_000, 1_500_000), -2_250_000);
    assert_eq!(fx_mul(Num::MAX, 2_000_000), Num::MAX);
    assert_eq!(fx_mul(Num::MIN, 2_000_000), Num::MIN);
    assert_eq!(fx_mul(Num::MIN, -2_000_000), Num::MAX);
}

#[test]
fn div_rounds_toward_zero_and_saturates() {
    assert_eq!(fx_div(1_000_000, 3_000_000), 333_333);
    assert_eq!(fx_div(-1_000_000, 3_000_000), -333_333);
    assert_eq!(fx_div(1_000_000, -3_000_000), -333_333);
    assert_eq!(fx_div(-1_000_000, -3_000_000), 333_333);
    assert_eq!(fx_div(7_000_000, 2_000_000), 3_500_000);
    assert_eq!(fx_div(Num::MAX, 1), Num::MAX);
    assert_eq!(fx_div(Num::MIN, 1), Num::MIN);
}

#[test]
fn division_by_zero_saturates_by_sign() {
    assert_eq!(fx_div(1, 0), Num::MAX);
    assert_eq!(fx_div(-1, 0), Num::MIN);
    assert_eq!(fx_div(0, 0), 0);
    assert_eq!(fx_quot(5, 0), Num::MAX);
    assert_eq!(fx_quot(-5, 0), Num::MIN);
    assert_eq!(fx_quot(0, 0), 0);
}

#[test]
fn quot_and_ratio_round_toward_zero() {
    assert_eq!(fx_quot(7, 2), 3);
    assert_eq!(fx_quot(-7, 2), -3);
    assert_eq!(fx_ratio(7, -2), -3);
    assert_eq!(fx_ratio(-7, -2), 3);
    assert_eq!(fx_ratio(i128::MAX, 1), Num::MAX);
}

#[test]
fn abs_and_max() {
    assert_eq!(fx_abs(-3), 3);
    assert_eq!(fx_abs(3), 3);
    assert_eq!(fx_abs(Num::MIN), Num::MAX);
    assert_eq!(fx_max(-3, 2), 2);
    assert_eq!(fx_max(2, -3), 2);
    assert_eq!(fx_max(2, 2), 2);
}

#[test]
fn count_scales_and_saturates() {
    assert_eq!(fx_count(0), 0);
    assert_eq!(fx_count(10), 10_000_000);
    assert_eq!(fx_count(usize::MAX), Num::MAX);
}

#[test]
fn sqrt_rounds_down() {
    assert_eq!(fx_sqrt(0), 0);
    assert_eq!(fx_sqrt(-4_000_000), 0);
    assert_eq!(fx_sqrt(4_000_000), 2_000_000);
    assert_eq!(fx_sqrt(2_000_000), 1_414_213);
    assert_eq!(fx_sqrt(1), 1_000);
    assert_eq!(fx_sqrt(250_000), 500_000);
    assert_eq!(fx_sqrt(Num::MAX), 3_037_000_499_976);
}

#[test]
fn smooth_weighs_the_average_by_period_less_one() {
    // (10 * 13 + 24) / 14 = 11
    assert_eq!(fx_smooth(10_000_000, 24_000_000, 14), 11_000_000);
    // A first average: nothing before it.
    assert_eq!(fx_smooth(0, 30_000_000, 10), 3_000_000);
    assert_eq!(fx_smooth(5, 7, 1), 7);
    assert_eq!(fx_smooth(Num::MAX, Num::MAX, usize::MAX), Num::MAX);
    assert_eq!(fx_smooth(Num::MIN, Num::MIN, usize::MAX), Num::MIN);
}
