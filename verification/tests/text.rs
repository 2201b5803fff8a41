use vdr::metadata::{sanitize_reason, REASON_MAX_BYTES};
use vdr::number::{parse_i32, parse_u32, push_digits, push_padded};
use vdr::text::{is_whitespace, replace_char, same_text, strip_suffix, trim, truncate_for_log};

fn digits(n: u64, base: u64) -> String {
    let mut s = String::new();
    push_digits(&mut s, n, base);
    s
}

#[test]
fn renders_numbers_like_std() {
    for n in [0u64, 1, 7, 8, 9, 10, 99, 100, 4095, 65536, u32::MAX as u64, u64::MAX] {
        assert_eq!(digits(n, 10), format!("{}", n));
        assert_eq!(digits(n, 8), format!("{:o}", n));
        assert_eq!(digits(n, 16), format!("{:x}", n));
        assert_eq!(digits(n, 2), format!("{:b}", n));
    }
}

#[test]
fn pads_numbers_like_std() {
    for n in [0u64, 1, 42, 999_999_999, 1_000_000_000, u64::MAX] {
        let mut s = "x".to_string();
        push_padded(&mut s, n, 9);
        assert_eq!(s, format!("x{:09}", n));
    }
}

#[test]
fn parses_integers_like_std() {
    let cases = [
        "", "0", "1", "+1", "-1", "+", "-", "-0", "+-1", "++1", "001", " 1", "1 ", "1\n", "12a",
        "4294967295", "4294967296", "2147483647", "2147483648", "-2147483648", "-2147483649",
        "99999999999999999999999999", "\u{664}", "1.0", "0x10",
    ];
    for s in cases {
        assert_eq!(parse_u32(s), s.parse::<u32>().ok(), "{:?}", s);
        assert_eq!(parse_i32(s), s.parse::<i32>().ok(), "{:?}", s);
    }
}

#[test]
fn decimal_rendering_parses_back() {
    for n in [0u32, 5, 10, 12345, u32::MAX] {
        assert_eq!(parse_u32(&digits(n as u64, 10)), Some(n));
    }
}

#[test]
fn whitespace_is_that_of_unicode() {
    for n in 0..=0x10ffffu32 {
        if let Some(c) = char::from_u32(n) {
            assert_eq!(is_whitespace(c), c.is_whitespace(), "{:x}", n);
        }
    }
}

#[test]
fn trims_like_std() {
    for s in ["", " ", "a", " a", "a ", "\t a b \n", "\u{3000}x\u{a0}", "\0 x \0", "\n\n"] {
        assert_eq!(trim(s), s.trim());
        assert_eq!(trim(&trim(s)), trim(s));
    }
}

#[test]
fn replaces_like_std() {
    for s in ["", "!", "!usr!bin!x", "plain", "a!\u{e9}!"] {
        assert_eq!(replace_char(s, '!', '/'), s.replace('!', "/"));
    }
}

#[test]
fn strips_suffix_like_std() {
    let suffix = " (deleted)";
    for s in ["", " (deleted)", "/bin/x (deleted)", "/bin/x", "x (deleted) ", "(deleted)"] {
        assert_eq!(strip_suffix(s, suffix), s.strip_suffix(suffix).unwrap_or(s));
    }
    assert_eq!(strip_suffix("a (deleted) (deleted)", suffix), "a (deleted)");
}

#[test]
fn compares_texts() {
    assert!(same_text("", ""));
    assert!(same_text("cmdline", "cmdline"));
    assert!(!same_text("cmdline", "cmdlinE"));
    assert!(!same_text("cmdline", "cmdlines"));
}

#[test]
fn truncates_on_character_boundaries() {
    assert_eq!(truncate_for_log("hello", 10), "hello");
    assert_eq!(truncate_for_log("hello", 5), "hello");
    assert_eq!(truncate_for_log("hello", 4), "hell");
    assert_eq!(truncate_for_log("hello", 0), "");
    let s = "a\u{e9}\u{20ac}\u{1f600}b";
    let expected = ["", "a", "a", "a\u{e9}", "a\u{e9}", "a\u{e9}", "a\u{e9}\u{20ac}"];
    for (max, want) in expected.iter().enumerate() {
        assert_eq!(truncate_for_log(s, max), *want);
    }
    assert_eq!(truncate_for_log(s, 9), "a\u{e9}\u{20ac}");
    assert_eq!(truncate_for_log(s, 10), "a\u{e9}\u{20ac}\u{1f600}");
    assert_eq!(truncate_for_log(s, 11), s);
    for max in 0..12 {
        assert!(truncate_for_log(s, max).len() <= max);
    }
}

#[test]
fn sanitizes_reasons() {
    assert_eq!(sanitize_reason("plain reason"), "plain reason");
    assert_eq!(sanitize_reason("error: bad\nvalue \"x\\y\"\t\x1b[0m"), "error: bad?value ?x?y???[0m");
    assert_eq!(sanitize_reason("caf\u{e9}\x7f~!"), "caf??~!");
    assert_eq!(sanitize_reason(""), "");
}

#[test]
fn sanitized_reasons_keep_the_budget() {
    let long = "x".repeat(1000);
    assert_eq!(sanitize_reason(&long), "x".repeat(REASON_MAX_BYTES));
    let wide = "\u{20ac}".repeat(1000);
    let r = sanitize_reason(&wide);
    assert_eq!(r, "?".repeat(133));
    assert_eq!(sanitize_reason(&r), r);
    for c in r.chars() {
        assert!((c.is_ascii_graphic() && c != '"' && c != '\\') || c == ' ');
    }
}
