use security_code_analisys::number::{parse_u64, push_decimal};
use security_code_analisys::text::{blank, chars_of, non_blank_lines_of, string_of, trim_bounds, white_space};
use security_code_analisys::tools::bandit::{bandit_timeout, DEFAULT_BANDIT_TIMEOUT_SECONDS};

#[test]
fn white_space_matches_std() {
    for c in ['\t', '\n', '\u{b}', '\u{c}', '\r', ' ', '\u{85}', '\u{a0}', '\u{1680}', '\u{2000}', '\u{200a}', '\u{2028}', '\u{2029}', '\u{202f}', '\u{205f}', '\u{3000}'] {
        assert!(white_space(c), "{:?}", c);
        assert_eq!(white_space(c), c.is_whitespace());
    }
    for c in ['a', '0', '\u{200b}', '\u{feff}', '{', '\u{0}'] {
        assert!(!white_space(c), "{:?}", c);
        assert_eq!(white_space(c), c.is_whitespace());
    }
}

#[test]
fn blank_text() {
    assert!(blank(""));
    assert!(blank(" \t\r\n \u{3000}"));
    assert!(!blank("  x "));
    assert!(!blank("{}"));
}

#[test]
fn trimming_bounds() {
    let chars = chars_of("  ab c \n");
    let (a, b) = trim_bounds(&chars, 0, chars.len());
    assert_eq!(string_of(&chars, a, b), "ab c");
    let (a, b) = trim_bounds(&chars, 0, 2);
    assert_eq!(a, b);
}

#[test]
fn non_blank_lines_are_trimmed_and_kept_in_order() {
    let lines = non_blank_lines_of("{\"a\":1}\r\n\n   \n  {\"b\":2}  \n[3]");
    assert_eq!(lines, vec!["{\"a\":1}".to_string(), "{\"b\":2}".to_string(), "[3]".to_string()]);
    assert!(non_blank_lines_of("").is_empty());
    assert!(non_blank_lines_of("\n\n \t\n").is_empty());
    assert_eq!(non_blank_lines_of("one\n"), vec!["one".to_string()]);
}

#[test]
fn parse_u64_follows_std() {
    for s in ["0", "42", "+7", "007", "18446744073709551615", "18446744073709551616", "-1", "", "+", "+-1", " 5", "5 ", "1_000", "٣", "12a"] {
        assert_eq!(parse_u64(s), s.parse::<u64>().ok(), "{:?}", s);
    }
    assert_eq!(parse_u64("+30"), Some(30));
    assert_eq!(parse_u64("18446744073709551615"), Some(u64::MAX));
    assert_eq!(parse_u64("99999999999999999999"), None);
}

#[test]
fn decimal_text() {
    for n in [0u64, 7, 10, 60, 1234, u64::MAX] {
        let mut s = String::from("after ");
        push_decimal(&mut s, n);
        assert_eq!(s, format!("after {}", n));
    }
}

#[test]
fn timeout_setting() {
    assert_eq!(DEFAULT_BANDIT_TIMEOUT_SECONDS, 60);
    assert_eq!(bandit_timeout(None), 60);
    assert_eq!(bandit_timeout(Some("30")), 30);
    assert_eq!(bandit_timeout(Some("+5")), 5);
    assert_eq!(bandit_timeout(Some("0")), 60);
    assert_eq!(bandit_timeout(Some("-3")), 60);
    assert_eq!(bandit_timeout(Some("ten")), 60);
    assert_eq!(bandit_timeout(Some(" 30")), 60);
}

#[test]
fn non_blank_lines_match_std_lines() {
    for s in [
        "",
        "\n",
        "a",
        "a\nb",
        "a\r\nb\r\n",
        "  x  \n\u{3000}y\u{a0}\n\n\r\n",
        "\r",
        "x\ry\n",
        "\n\n  \t",
        "{\"k\": \"v w\"}\n  [1, 2]\n",
    ] {
        let expected: Vec<String> = s.lines().map(str::trim).filter(|l| !l.is_empty()).map(String::from).collect();
        assert_eq!(non_blank_lines_of(s), expected, "{:?}", s);
        assert_eq!(blank(s), s.trim().is_empty(), "{:?}", s);
    }
}
