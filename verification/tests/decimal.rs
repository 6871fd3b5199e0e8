use biomarker_score_calculator::decimal::{Decimal, CENT, SCALE};

fn dec(units: i64) -> Decimal {
    Decimal { units }
}

#[test]
fn scale_is_a_million_and_cent_a_hundredth() {
    assert_eq!(SCALE, 1_000_000);
    assert_eq!(CENT * 100, SCALE);
}

#[test]
fn from_int_scales_the_whole_number() {
    assert_eq!(Decimal::from_int(3), dec(3_000_000));
    assert_eq!(Decimal::from_int(-4), dec(-4_000_000));
    assert_eq!(Decimal::from_int(0), dec(0));
    assert_eq!(Decimal::from_int(i32::MAX), dec(2_147_483_647_000_000));
    assert_eq!(Decimal::from_int(i32::MIN), dec(-2_147_483_648_000_000));
    assert_eq!(Decimal::new(42).units, 42);
}

#[test]
fn sum_of_a_tenth_and_two_tenths_is_three_tenths() {
    let sum = dec(100_000).checked_add(dec(200_000));
    assert_eq!(sum, Some(dec(300_000)));
    assert_eq!(sum.unwrap().round_to_cents(), Some(dec(300_000)));
    assert_eq!(sum.unwrap().to_text(), "0.3");
}

#[test]
fn checked_add_and_sub_are_exact() {
    assert_eq!(dec(1_500_000).checked_add(dec(-2_750_000)), Some(dec(-1_250_000)));
    assert_eq!(dec(1_500_000).checked_sub(dec(2_750_000)), Some(dec(-1_250_000)));
    assert_eq!(dec(i64::MAX).checked_add(dec(0)), Some(dec(i64::MAX)));
    assert_eq!(dec(i64::MIN).checked_sub(dec(0)), Some(dec(i64::MIN)));
}

#[test]
fn checked_add_and_sub_refuse_what_does_not_fit() {
    assert_eq!(dec(i64::MAX).checked_add(dec(1)), None);
    assert_eq!(dec(i64::MIN).checked_add(dec(-1)), None);
    assert_eq!(dec(i64::MIN).checked_sub(dec(1)), None);
    assert_eq!(dec(0).checked_sub(dec(i64::MIN)), None);
}

#[test]
fn checked_mul_rounds_to_the_nearest_millionth() {
    assert_eq!(dec(3_000_000).checked_mul(dec(2_000_000)), Some(dec(6_000_000)));
    assert_eq!(dec(1_500_000).checked_mul(dec(1_500_000)), Some(dec(2_250_000)));
    // 0.000001 * 0.4 lies below one half of a millionth, 0.000001 * 0.6 above
    assert_eq!(dec(1).checked_mul(dec(400_000)), Some(dec(0)));
    assert_eq!(dec(1).checked_mul(dec(600_000)), Some(dec(1)));
    assert_eq!(dec(-1).checked_mul(dec(600_000)), Some(dec(-1)));
    assert_eq!(dec(-1).checked_mul(dec(400_000)), Some(dec(0)));
}

#[test]
fn checked_mul_sends_a_tie_upward() {
    assert_eq!(dec(1).checked_mul(dec(500_000)), Some(dec(1)));
    assert_eq!(dec(-1).checked_mul(dec(500_000)), Some(dec(0)));
    assert_eq!(dec(3).checked_mul(dec(500_000)), Some(dec(2)));
    assert_eq!(dec(-3).checked_mul(dec(500_000)), Some(dec(-1)));
}

#[test]
fn checked_mul_refuses_what_does_not_fit() {
    assert_eq!(dec(i64::MAX).checked_mul(dec(2_000_000)), None);
    assert_eq!(dec(i64::MIN).checked_mul(dec(i64::MIN)), None);
    assert_eq!(dec(i64::MAX).checked_mul(dec(1_000_000)), Some(dec(i64::MAX)));
    assert_eq!(dec(i64::MIN).checked_mul(dec(1_000_000)), Some(dec(i64::MIN)));
}

#[test]
fn checked_div_rounds_to_the_nearest_millionth() {
    assert_eq!(dec(3_000_000).checked_div(dec(2_000_000)), Some(dec(1_500_000)));
    assert_eq!(dec(1_000_000).checked_div(dec(3_000_000)), Some(dec(333_333)));
    assert_eq!(dec(2_000_000).checked_div(dec(3_000_000)), Some(dec(666_667)));
    assert_eq!(dec(-1_000_000).checked_div(dec(3_000_000)), Some(dec(-333_333)));
    assert_eq!(dec(1_000_000).checked_div(dec(-3_000_000)), Some(dec(-333_333)));
    assert_eq!(dec(-2_000_000).checked_div(dec(-3_000_000)), Some(dec(666_667)));
}

#[test]
fn checked_div_sends_a_tie_upward() {
    // 0.000001 / 2 and 0.000003 / 2 lie halfway between two millionths
    assert_eq!(dec(1).checked_div(dec(2_000_000)), Some(dec(1)));
    assert_eq!(dec(-1).checked_div(dec(2_000_000)), Some(dec(0)));
    assert_eq!(dec(1).checked_div(dec(-2_000_000)), Some(dec(0)));
    assert_eq!(dec(3).checked_div(dec(2_000_000)), Some(dec(2)));
}

#[test]
fn checked_div_refuses_zero_and_what_does_not_fit() {
    assert_eq!(dec(3_000_000).checked_div(dec(0)), None);
    assert_eq!(dec(0).checked_div(dec(0)), None);
    assert_eq!(dec(i64::MAX).checked_div(dec(1)), None);
    assert_eq!(dec(i64::MIN).checked_div(dec(-1_000_000)), None);
    assert_eq!(dec(i64::MIN).checked_div(dec(1_000_000)), Some(dec(i64::MIN)));
}

#[test]
fn round_to_cents_goes_to_the_nearest_hundredth() {
    assert_eq!(dec(1_234_999).round_to_cents(), Some(dec(1_230_000)));
    assert_eq!(dec(1_235_000).round_to_cents(), Some(dec(1_240_000)));
    assert_eq!(dec(125_000).round_to_cents(), Some(dec(130_000)));
    assert_eq!(dec(-125_000).round_to_cents(), Some(dec(-120_000)));
    assert_eq!(dec(-125_001).round_to_cents(), Some(dec(-130_000)));
    assert_eq!(dec(0).round_to_cents(), Some(dec(0)));
    assert_eq!(dec(i64::MAX).round_to_cents(), None);
    assert_eq!(dec(i64::MIN).round_to_cents(), None);
}

#[test]
fn to_text_writes_whole_part_point_and_fraction() {
    assert_eq!(dec(7_500_000).to_text(), "7.5");
    assert_eq!(dec(2_000_000).to_text(), "2.0");
    assert_eq!(dec(0).to_text(), "0.0");
    assert_eq!(dec(-250_000).to_text(), "-0.25");
    assert_eq!(dec(1).to_text(), "0.000001");
    assert_eq!(dec(-1).to_text(), "-0.000001");
    assert_eq!(dec(10_000_010).to_text(), "10.00001");
    assert_eq!(dec(123_456_789).to_text(), "123.456789");
    assert_eq!(dec(100_000).to_text(), "0.1");
    assert_eq!(dec(1_050_000).to_text(), "1.05");
}

#[test]
fn to_text_reaches_both_ends_of_the_range() {
    assert_eq!(dec(i64::MAX).to_text(), "9223372036854.775807");
    assert_eq!(dec(i64::MIN).to_text(), "-9223372036854.775808");
}
