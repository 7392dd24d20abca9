use dash_ir::Format;

// Fixed-point convention: all values count thousandths of a unit.

#[test]
fn time_one_hour_one_minute_one_second() {
    // 3661.0 seconds at scale 1.0 -> 1 h, 1 min, 1 s, 0 hundredths.
    let s = Format::Time(1000).format_value(3_661_000);
    assert_eq!(s, " 1:01:01.00");
}

#[test]
fn time_zero() {
    let s = Format::Time(1000).format_value(0);
    assert_eq!(s, " 0:00:00.00");
}

#[test]
fn time_scale_factor_applied() {
    // 30.0 units at scale 2.0 -> 60 seconds.
    let s = Format::Time(2000).format_value(30_000);
    assert_eq!(s, " 0:01:00.00");
}

#[test]
fn time_subseconds() {
    // 1.234 seconds -> 23 hundredths.
    let s = Format::Time(1000).format_value(1_234);
    assert_eq!(s, " 0:00:01.23");
}

#[test]
fn time_hours_widen_past_two_chars() {
    // 100 hours of seconds.
    let s = Format::Time(1000).format_value(360_000_000);
    assert_eq!(s, "100:00:00.00");
}

#[test]
fn time_negative_span_floors() {
    // -1.0 seconds: floor division carries the sign into the hours field
    // and keeps the trailing components in range.
    let s = Format::Time(1000).format_value(-1_000);
    assert_eq!(s, "-1:59:59.00");
}

#[test]
fn decimal_minimum_integer_field() {
    // 7.5 as Decimal(3, 2): integer field of width 3, two fraction digits.
    let s = Format::Decimal(3, 2).format_value(7_500);
    assert_eq!(s, "  7.50");
}

#[test]
fn decimal_negative_sign_inside_field() {
    let s = Format::Decimal(1, 3).format_value(-1_234);
    assert_eq!(s, "-1.234");
}

#[test]
fn decimal_zero_fraction_digits_rounds_and_prints_no_point() {
    let s = Format::Decimal(2, 0).format_value(9_999);
    assert_eq!(s, "10");
}

#[test]
fn decimal_fraction_padded_past_precision() {
    let s = Format::Decimal(1, 5).format_value(1_500);
    assert_eq!(s, "1.50000");
}

#[test]
fn decimal_fraction_rounds_to_one_digit() {
    let s = Format::Decimal(4, 1).format_value(12_399);
    assert_eq!(s, "  12.4");
}

#[test]
fn decimal_hidden_digits_round_to_nearest() {
    // 0.16 at one fraction digit rounds up to 0.2.
    let s = Format::Decimal(1, 1).format_value(160);
    assert_eq!(s, "0.2");
    let s = Format::Decimal(1, 1).format_value(-160);
    assert_eq!(s, "-0.2");
    // 0.14 rounds down.
    let s = Format::Decimal(1, 1).format_value(140);
    assert_eq!(s, "0.1");
}

#[test]
fn decimal_rounding_ties_go_away_from_zero() {
    let s = Format::Decimal(1, 1).format_value(250);
    assert_eq!(s, "0.3");
    let s = Format::Decimal(1, 1).format_value(-250);
    assert_eq!(s, "-0.3");
}

#[test]
fn decimal_rounding_carries_into_the_units() {
    // 0.96 at one fraction digit is 1.0.
    let s = Format::Decimal(1, 1).format_value(960);
    assert_eq!(s, "1.0");
    let s = Format::Decimal(1, 2).format_value(9_999);
    assert_eq!(s, "10.00");
}

#[test]
fn integer_right_justified() {
    let s = Format::Integer(5).format_value(-12_345);
    assert_eq!(s, "  -12");
}

#[test]
fn integer_field_widens_when_needed() {
    let s = Format::Integer(2).format_value(123_456);
    assert_eq!(s, "123");
}

#[test]
fn integer_truncates_toward_zero() {
    // -0.5 truncates to 0, with no sign.
    let s = Format::Integer(4).format_value(-500);
    assert_eq!(s, "   0");
}

#[test]
fn time_just_under_a_minute() {
    // 59.999 seconds: the hundredths floor to 99, nothing carries.
    let s = Format::Time(1000).format_value(59_999);
    assert_eq!(s, " 0:00:59.99");
}

#[test]
fn decimal_small_fraction_keeps_leading_zeros() {
    // -0.01 as Decimal(2, 3).
    let s = Format::Decimal(2, 3).format_value(-10);
    assert_eq!(s, "-0.010");
}
