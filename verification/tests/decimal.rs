use linux_3_finger_drag::decimal::{parse_count, parse_thousandths};
use linux_3_finger_drag::units::round_up_units;

fn chars(s: &str) -> Vec<char> {
    s.chars().collect()
}

#[test]
fn count_of_plain_digits() {
    assert_eq!(parse_count(&chars("3")), Some(3));
    assert_eq!(parse_count(&chars("0")), Some(0));
    assert_eq!(parse_count(&chars("03")), Some(3));
    assert_eq!(parse_count(&chars("4294967295")), Some(4294967295));
}

#[test]
fn count_rejects_what_is_no_count() {
    assert_eq!(parse_count(&chars("")), None);
    assert_eq!(parse_count(&chars("+3")), None);
    assert_eq!(parse_count(&chars("-3")), None);
    assert_eq!(parse_count(&chars("3.0")), None);
    assert_eq!(parse_count(&chars("three")), None);
    assert_eq!(parse_count(&chars("3 ")), None);
    assert_eq!(parse_count(&chars("4294967296")), None);
    assert_eq!(parse_count(&chars("99999999999999999999999999")), None);
}

#[test]
fn thousandths_of_log_numbers() {
    assert_eq!(parse_thousandths(&chars("0.25")), Some(250));
    assert_eq!(parse_thousandths(&chars("-0.48")), Some(-480));
    assert_eq!(parse_thousandths(&chars("1.85")), Some(1850));
    assert_eq!(parse_thousandths(&chars("12.30")), Some(12300));
    assert_eq!(parse_thousandths(&chars("0.00")), Some(0));
    assert_eq!(parse_thousandths(&chars("-0.00")), Some(0));
}

#[test]
fn thousandths_of_other_shapes() {
    assert_eq!(parse_thousandths(&chars("7")), Some(7000));
    assert_eq!(parse_thousandths(&chars("+7")), Some(7000));
    assert_eq!(parse_thousandths(&chars("7.")), Some(7000));
    assert_eq!(parse_thousandths(&chars(".5")), Some(500));
    assert_eq!(parse_thousandths(&chars("-.5")), Some(-500));
    assert_eq!(parse_thousandths(&chars("0.1")), Some(100));
    assert_eq!(parse_thousandths(&chars("0.123")), Some(123));
    assert_eq!(parse_thousandths(&chars("007.5")), Some(7500));
}

#[test]
fn thousandths_cut_further_digits_off() {
    assert_eq!(parse_thousandths(&chars("1.2345")), Some(1234));
    assert_eq!(parse_thousandths(&chars("1.2399")), Some(1239));
    assert_eq!(parse_thousandths(&chars("-1.2399")), Some(-1239));
    assert_eq!(parse_thousandths(&chars("0.0009")), Some(0));
}

#[test]
fn thousandths_reject_what_is_no_decimal() {
    assert_eq!(parse_thousandths(&chars("")), None);
    assert_eq!(parse_thousandths(&chars("-")), None);
    assert_eq!(parse_thousandths(&chars("+")), None);
    assert_eq!(parse_thousandths(&chars(".")), None);
    assert_eq!(parse_thousandths(&chars("-.")), None);
    assert_eq!(parse_thousandths(&chars("abc")), None);
    assert_eq!(parse_thousandths(&chars("1.2.3")), None);
    assert_eq!(parse_thousandths(&chars("1e3")), None);
    assert_eq!(parse_thousandths(&chars("--1")), None);
    assert_eq!(parse_thousandths(&chars("1,5")), None);
    assert_eq!(parse_thousandths(&chars("1.5)")), None);
    assert_eq!(parse_thousandths(&chars("cancelled")), None);
    assert_eq!(parse_thousandths(&chars("inf")), None);
}

#[test]
fn thousandths_at_the_ends_of_the_range() {
    assert_eq!(parse_thousandths(&chars("2147483.647")), Some(2147483647));
    assert_eq!(parse_thousandths(&chars("-2147483.647")), Some(-2147483647));
    assert_eq!(parse_thousandths(&chars("2147483.648")), None);
    assert_eq!(parse_thousandths(&chars("-2147483.648")), None);
    assert_eq!(parse_thousandths(&chars("2147484")), None);
    assert_eq!(parse_thousandths(&chars("99999999999999999999")), None);
}

#[test]
fn rounding_goes_up() {
    assert_eq!(round_up_units(0), 0);
    assert_eq!(round_up_units(1), 1);
    assert_eq!(round_up_units(100_000), 1);
    assert_eq!(round_up_units(999_999), 1);
    assert_eq!(round_up_units(1_000_000), 1);
    assert_eq!(round_up_units(1_000_001), 2);
    assert_eq!(round_up_units(1_500_000), 2);
    assert_eq!(round_up_units(-1), 0);
    assert_eq!(round_up_units(-100_000), 0);
    assert_eq!(round_up_units(-999_999), 0);
    assert_eq!(round_up_units(-1_000_000), -1);
    assert_eq!(round_up_units(-1_000_001), -1);
    assert_eq!(round_up_units(-1_500_000), -1);
}

#[test]
fn rounding_stays_in_range() {
    assert_eq!(round_up_units(i64::MAX), i32::MAX);
    assert_eq!(round_up_units(i64::MIN), i32::MIN);
    assert_eq!(round_up_units(2_147_483_647_000_000), 2_147_483_647);
    assert_eq!(round_up_units(2_147_483_647_000_001), 2_147_483_647);
    assert_eq!(round_up_units(-2_147_483_648_000_000), -2_147_483_648);
    assert_eq!(round_up_units(-2_147_483_649_000_000), -2_147_483_648);
}
