use auto_clicker::text::{decimal_string, fmt_secs, parse_duration_text, str_equal, chars_of};

#[test]
fn fmt_secs_shortest_form() {
    assert_eq!(fmt_secs(100), "0.1");
    assert_eq!(fmt_secs(50), "0.05");
    assert_eq!(fmt_secs(1), "0.001");
    assert_eq!(fmt_secs(1000), "1");
    assert_eq!(fmt_secs(60000), "60");
    assert_eq!(fmt_secs(1500), "1.5");
    assert_eq!(fmt_secs(1230), "1.23");
    assert_eq!(fmt_secs(0), "0");
    assert_eq!(fmt_secs(10010), "10.01");
}

#[test]
fn fmt_secs_large_value() {
    assert_eq!(fmt_secs(u64::MAX), "18446744073709551.615");
}

#[test]
fn decimal_string_matches_to_string() {
    for n in [0u64, 7, 10, 30, 36000, 123456789, u64::MAX] {
        assert_eq!(decimal_string(n), n.to_string());
    }
}

#[test]
fn duration_text_accepts_trimmed_numbers() {
    assert_eq!(parse_duration_text("30"), Some(30));
    assert_eq!(parse_duration_text("  45\t"), Some(45));
    assert_eq!(parse_duration_text("+12"), Some(12));
    assert_eq!(parse_duration_text("0"), Some(0));
    assert_eq!(parse_duration_text("000036000"), Some(36000));
    assert_eq!(parse_duration_text("\u{3000}15\u{a0}"), Some(15));
    assert_eq!(parse_duration_text("10"), Some(10));
}

#[test]
fn duration_text_rejects_other_text() {
    assert_eq!(parse_duration_text(""), None);
    assert_eq!(parse_duration_text("   "), None);
    assert_eq!(parse_duration_text("+"), None);
    assert_eq!(parse_duration_text("-5"), None);
    assert_eq!(parse_duration_text("36001"), None);
    assert_eq!(parse_duration_text("5"), None);
    assert_eq!(parse_duration_text("9"), None);
    assert_eq!(parse_duration_text("+1"), None);
    assert_eq!(parse_duration_text("99999999999999999999999"), None);
    assert_eq!(parse_duration_text("1.5"), None);
    assert_eq!(parse_duration_text("1 2"), None);
    assert_eq!(parse_duration_text("++1"), None);
    assert_eq!(parse_duration_text("１２"), None);
}

#[test]
fn duration_text_round_trip() {
    for n in [0u64, 10, 11, 30, 600, 35999, 36000] {
        assert_eq!(parse_duration_text(&decimal_string(n)), Some(n));
    }
}

#[test]
fn duration_text_agrees_with_std_parse() {
    let samples = ["12", " 7 ", "+3", "x", "", "36000", "36001", "007", "\n42\r", "4 2", "0", "010"];
    for s in samples {
        let expected = match s.trim().parse::<u64>() {
            Ok(v) if v == 0 || (10..=36000).contains(&v) => Some(v),
            _ => None,
        };
        assert_eq!(parse_duration_text(s), expected, "text {:?}", s);
    }
}

#[test]
fn string_helpers() {
    assert!(str_equal("background", "background"));
    assert!(!str_equal("background", "backgroun"));
    assert!(!str_equal("Background", "background"));
    assert_eq!(chars_of("a连b"), vec!['a', '连', 'b']);
}
