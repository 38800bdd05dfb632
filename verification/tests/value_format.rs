use co2_alert::ppm::{format_value, parse_decimal, Ppm};

fn parsed(s: &str) -> Option<i64> {
    parse_decimal(s).map(|p| p.centi)
}

#[test]
fn parse_integer_and_fraction() {
    assert_eq!(parsed("812.5"), Some(81250));
    assert_eq!(parsed("450"), Some(45000));
    assert_eq!(parsed("800.01"), Some(80001));
    assert_eq!(parsed("799.99"), Some(79999));
    assert_eq!(parsed("0.05"), Some(5));
}

#[test]
fn parse_negative_values() {
    assert_eq!(parsed("-3.25"), Some(-325));
    assert_eq!(parsed("-0.5"), Some(-50));
    assert_eq!(parsed("-450"), Some(-45000));
}

#[test]
fn parse_rounds_extra_fraction_digits() {
    assert_eq!(parsed("1.234"), Some(123));
    assert_eq!(parsed("0.999"), Some(100));
    assert_eq!(parsed("800.005"), Some(80001));
    assert_eq!(parsed("799.995"), Some(80000));
    assert_eq!(parsed("0.0049"), Some(0));
    assert_eq!(parsed("-0.005"), Some(-1));
}

#[test]
fn parse_rejects_non_numerals() {
    assert_eq!(parsed(""), None);
    assert_eq!(parsed("-"), None);
    assert_eq!(parsed("1."), None);
    assert_eq!(parsed(".5"), None);
    assert_eq!(parsed("1.2.3"), None);
    assert_eq!(parsed("abc"), None);
    assert_eq!(parsed("1e5"), None);
    assert_eq!(parsed("4 5"), None);
    assert_eq!(parsed("+5"), None);
}

#[test]
fn parse_integer_digit_limit() {
    assert_eq!(parsed("123456789012345"), Some(12345678901234500));
    assert_eq!(parsed("1234567890123456"), None);
}

#[test]
fn format_two_decimal_places() {
    assert_eq!(format_value(Ppm { centi: 95000 }), "950.00");
    assert_eq!(format_value(Ppm { centi: 81250 }), "812.50");
    assert_eq!(format_value(Ppm { centi: 5 }), "0.05");
    assert_eq!(format_value(Ppm { centi: 0 }), "0.00");
    assert_eq!(format_value(Ppm { centi: -325 }), "-3.25");
    assert_eq!(format_value(Ppm { centi: 100 }), "1.00");
}

#[test]
fn format_then_parse_round_trip() {
    for centi in [0i64, 5, 99, 100, 81250, -325, 12345678901234500] {
        let text = format_value(Ppm { centi });
        assert_eq!(parse_decimal(&text), Some(Ppm { centi }));
    }
}
