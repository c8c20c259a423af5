use pi_monitor::numfmt::{format_tenths, u64_to_string};

#[test]
fn u64_zero() {
    assert_eq!(u64_to_string(0), "0");
}

#[test]
fn u64_ten() {
    assert_eq!(u64_to_string(10), "10");
}

#[test]
fn u64_many_digits() {
    assert_eq!(u64_to_string(12345), "12345");
    assert_eq!(u64_to_string(1000000), "1000000");
}

#[test]
fn tenths_one_decimal_place() {
    assert_eq!(format_tenths(253), "25.3");
    assert_eq!(format_tenths(471), "47.1");
}

#[test]
fn tenths_zero() {
    assert_eq!(format_tenths(0), "0.0");
}

#[test]
fn tenths_threshold_value() {
    assert_eq!(format_tenths(300), "30.0");
}

#[test]
fn tenths_negative() {
    assert_eq!(format_tenths(-53), "-5.3");
    assert_eq!(format_tenths(-7), "-0.7");
}

#[test]
fn tenths_large() {
    assert_eq!(format_tenths(1000), "100.0");
    assert_eq!(format_tenths(349), "34.9");
}
