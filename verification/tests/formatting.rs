use gift_for_dragons::decimal::{parse_u64, push_decimal};
use gift_for_dragons::liquidity_liquidity::{format_with_dot, format_with_dot_6_decimals};
use gift_for_dragons::text::{first_word, split_lines};

#[test]
fn format_with_dot_places_four_decimals() {
    assert_eq!(format_with_dot("12345"), "1.2345");
    assert_eq!(format_with_dot("123456789"), "12345.6789");
    assert_eq!(format_with_dot("10000"), "1.0000");
}

#[test]
fn format_with_dot_pads_short_values() {
    assert_eq!(format_with_dot("5"), "0.0005");
    assert_eq!(format_with_dot("1234"), "0.1234");
    assert_eq!(format_with_dot("0"), "0.0000");
    assert_eq!(format_with_dot("00012"), "0.0012");
}

#[test]
fn format_with_dot_keeps_values_with_a_point() {
    assert_eq!(format_with_dot("12.5"), "12.5");
    assert_eq!(format_with_dot("0.0003"), "0.0003");
    assert_eq!(format_with_dot("1.2.3"), "1.2.3");
}

#[test]
fn format_with_dot_reads_unparsable_values_as_zero() {
    assert_eq!(format_with_dot("abc"), "0.0000");
    assert_eq!(format_with_dot(""), "0.0000");
    assert_eq!(format_with_dot("-5"), "0.0000");
    assert_eq!(format_with_dot("18446744073709551616"), "0.0000");
    assert_eq!(format_with_dot("+123456"), "12.3456");
}

#[test]
fn format_with_dot_is_idempotent_on_examples() {
    for v in ["7", "123456", "abc", "3.14"] {
        let once = format_with_dot(v);
        assert_eq!(format_with_dot(&once), once);
    }
}

#[test]
fn format_with_dot_6_decimals_places_six_decimals() {
    assert_eq!(format_with_dot_6_decimals("1234567"), "1.234567");
    assert_eq!(format_with_dot_6_decimals("42"), "0.000042");
    assert_eq!(format_with_dot_6_decimals("123456"), "0.123456");
    assert_eq!(format_with_dot_6_decimals("2.5"), "2.5");
}

#[test]
fn parse_u64_follows_from_str() {
    for s in ["0", "42", "+7", "18446744073709551615", "18446744073709551616", "", "+", "-1", "1a", " 1", "007"] {
        assert_eq!(parse_u64(s), s.parse::<u64>().ok(), "input {:?}", s);
    }
}

#[test]
fn push_decimal_prints_like_to_string() {
    for n in [0u64, 7, 10, 99, 100, 12345, u64::MAX] {
        let mut v = Vec::new();
        push_decimal(n, &mut v);
        let s: String = v.into_iter().collect();
        assert_eq!(s, n.to_string());
    }
}

#[test]
fn split_lines_follows_str_lines() {
    for s in ["a\nb\r\nc", "a\n", "a\r", "", "\n\n", "x\r\ny\r\n", "one"] {
        let expected: Vec<String> = s.lines().map(|l| l.to_string()).collect();
        assert_eq!(split_lines(s), expected, "input {:?}", s);
    }
}

#[test]
fn first_word_follows_split_whitespace() {
    for s in ["  123.4567 XPR", "12.000000 XUSDC", "", "   ", "\u{a0}9 X", "word"] {
        let expected = s.split_whitespace().next().map(|w| w.to_string());
        assert_eq!(first_word(s), expected, "input {:?}", s);
    }
}
