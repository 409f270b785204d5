use radar_chart::numtext::format_milli;
use radar_chart::numtext::parse_milli;

#[test]
fn formats_whole_values_without_a_fraction() {
    assert_eq!(format_milli(0), "0");
    assert_eq!(format_milli(70_000), "70");
    assert_eq!(format_milli(100_000), "100");
    assert_eq!(format_milli(-5_000), "-5");
}

#[test]
fn formats_fractions_with_trailing_zeros_trimmed() {
    assert_eq!(format_milli(500), "0.5");
    assert_eq!(format_milli(-2_500), "-2.5");
    assert_eq!(format_milli(1_234), "1.234");
    assert_eq!(format_milli(990), "0.99");
    assert_eq!(format_milli(900), "0.9");
    assert_eq!(format_milli(42_500), "42.5");
    assert_eq!(format_milli(1_001), "1.001");
}

#[test]
fn parses_plain_decimals() {
    assert_eq!(parse_milli("70"), Some(70_000));
    assert_eq!(parse_milli("0.5"), Some(500));
    assert_eq!(parse_milli("-2.5"), Some(-2_500));
    assert_eq!(parse_milli("12.34"), Some(12_340));
    assert_eq!(parse_milli("007"), Some(7_000));
    assert_eq!(parse_milli("0"), Some(0));
    assert_eq!(parse_milli("1.234"), Some(1_234));
}

#[test]
fn rejects_text_that_is_not_a_plain_decimal() {
    assert_eq!(parse_milli("abc"), None);
    assert_eq!(parse_milli(""), None);
    assert_eq!(parse_milli("-"), None);
    assert_eq!(parse_milli("."), None);
    assert_eq!(parse_milli(".5"), None);
    assert_eq!(parse_milli("5."), None);
    assert_eq!(parse_milli("1e3"), None);
    assert_eq!(parse_milli("1.2345"), None);
    assert_eq!(parse_milli("12a"), None);
    assert_eq!(parse_milli("1.2.3"), None);
    assert_eq!(parse_milli("+5"), None);
    assert_eq!(parse_milli("1234567890123"), None);
}

#[test]
fn parsing_inverts_formatting() {
    for v in [0i64, 1, 999, 1_000, 70_000, -70_000, 42_500, -1, 123_456_789] {
        let text = format_milli(v);
        assert_eq!(parse_milli(&text), Some(v), "round trip of {v} via {text:?}");
    }
}
