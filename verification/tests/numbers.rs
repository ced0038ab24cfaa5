use boson::number::{decimal_i64, decimal_u64, decimal_usize, parse_i64};

#[test]
fn decimal_matches_display() {
    for v in [0i64, 7, 10, 99, 100, 12345, -1, -10, -987654321, i64::MAX, i64::MIN] {
        assert_eq!(decimal_i64(v), v.to_string());
    }
    assert_eq!(decimal_u64(u64::MAX), u64::MAX.to_string());
    assert_eq!(decimal_usize(42), "42");
}

#[test]
fn parse_matches_standard_parse() {
    let cases = [
        "", "0", "-0", "+0", "42", "+42", "-42", "007", "-", "+", "--1", "+-1", " 1", "1 ", "1a",
        "a1", "9223372036854775807", "9223372036854775808", "-9223372036854775808",
        "-9223372036854775809", "99999999999999999999", "99999999999999999999x", "١٢", "12.5",
    ];
    for c in cases {
        assert_eq!(parse_i64(c), c.parse::<i64>().ok(), "input {:?}", c);
    }
}

#[test]
fn decimal_parses_back() {
    for v in [0i64, 1, -1, 255, -256, 1_000_000, i64::MAX, i64::MIN] {
        assert_eq!(parse_i64(decimal_i64(v).as_str()), Some(v));
    }
}
