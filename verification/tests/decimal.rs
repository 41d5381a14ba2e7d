use veritas_core::decimal::{milli_to_text, parse_milli};

#[test]
fn whole_numbers_scale_to_milli() {
    assert_eq!(parse_milli(b"0"), Some(0));
    assert_eq!(parse_milli(b"1"), Some(1_000));
    assert_eq!(parse_milli(b"100"), Some(100_000));
    assert_eq!(parse_milli(b"007"), Some(7_000));
}

#[test]
fn fractional_digits_are_kept_to_three_places() {
    assert_eq!(parse_milli(b"0.5"), Some(500));
    assert_eq!(parse_milli(b"1234.567"), Some(1_234_567));
    assert_eq!(parse_milli(b"1234.5"), Some(1_234_500));
    assert_eq!(parse_milli(b"2.25"), Some(2_250));
}

#[test]
fn extra_fractional_digits_truncate() {
    assert_eq!(parse_milli(b"1.9999"), Some(1_999));
    assert_eq!(parse_milli(b"0.0004"), Some(0));
}

#[test]
fn malformed_number_text_is_rejected() {
    assert_eq!(parse_milli(b""), None);
    assert_eq!(parse_milli(b"."), None);
    assert_eq!(parse_milli(b"1."), None);
    assert_eq!(parse_milli(b".5"), None);
    assert_eq!(parse_milli(b"-1"), None);
    assert_eq!(parse_milli(b"1e5"), None);
    assert_eq!(parse_milli(b"12a4"), None);
    assert_eq!(parse_milli(b"1.2.3"), None);
    assert_eq!(parse_milli(b" 1"), None);
}

#[test]
fn out_of_range_values_are_rejected() {
    assert_eq!(parse_milli(b"99999999999999999999999999"), None);
    // u64::MAX milli-units is 18446744073709551.615
    assert_eq!(parse_milli(b"18446744073709551.615"), Some(u64::MAX));
    assert_eq!(parse_milli(b"18446744073709552"), None);
}

#[test]
fn milli_values_render_back_as_decimal_text() {
    assert_eq!(milli_to_text(100_000), "100");
    assert_eq!(milli_to_text(0), "0");
    assert_eq!(milli_to_text(500), "0.500");
    assert_eq!(milli_to_text(1_234_567), "1234.567");
}
