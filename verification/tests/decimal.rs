use soteria::decimal::{format_i64, parse_i64};

#[test]
fn formatting_matches_to_string() {
    for v in [0i64, 1, -1, 9, 10, -10, 42, 1_700_000_000, 2_592_000, i64::MAX, i64::MIN, i64::MIN + 1] {
        assert_eq!(format_i64(v), v.to_string());
    }
}

#[test]
fn parsing_matches_str_parse() {
    let cases = [
        "", "+", "-", "0", "-0", "+0", "007", "+5", "-5", "12a", " 1", "1 ", "++1", "-+1", "1_000",
        "9223372036854775807", "9223372036854775808", "-9223372036854775808", "-9223372036854775809",
        "99999999999999999999", "٣", "1700000000",
    ];
    for s in cases {
        assert_eq!(parse_i64(s), s.parse::<i64>().ok(), "input {:?}", s);
    }
}

#[test]
fn parse_reads_back_format() {
    for v in [0i64, -7, 123_456_789, i64::MAX, i64::MIN] {
        assert_eq!(parse_i64(&format_i64(v)), Some(v));
    }
}
