use listaisto::text::{
    chars_of, contains_chars, decimal_string, eq_ignore_ascii_case_chars, hex_lower_string,
    leading_number_chars, parse_u32_chars, starts_with_chars, str_eq, string_of, trim_str,
};

fn cs(s: &str) -> Vec<char> {
    s.chars().collect()
}

#[test]
fn trim_removes_unicode_whitespace() {
    assert_eq!(trim_str("  olá \t\n"), "olá");
    assert_eq!(trim_str("\u{3000}x\u{00A0}"), "x");
    assert_eq!(trim_str("\u{2003}a b\u{205F}"), "a b");
    assert_eq!(trim_str("   "), "");
    assert_eq!(trim_str(""), "");
    // Zero-width space is not White_Space.
    assert_eq!(trim_str("\u{200B}x"), "\u{200B}x");
}

#[test]
fn trim_matches_std_on_samples() {
    for s in ["  a  ", "\u{85}b\u{1680}", "c", "\u{2028}d e\u{2029}", "\u{202F}"] {
        assert_eq!(trim_str(s), s.trim());
    }
}

#[test]
fn parse_u32_follows_std() {
    for s in ["0", "42", "+7", "-7", "", "+", "4294967295", "4294967296", "00012", "1a", " 1"] {
        assert_eq!(parse_u32_chars(&cs(s)), s.parse::<u32>().ok(), "input {:?}", s);
    }
}

#[test]
fn leading_number_reads_digit_prefix() {
    assert_eq!(leading_number_chars(&cs("2x")), 2);
    assert_eq!(leading_number_chars(&cs("500g")), 500);
    assert_eq!(leading_number_chars(&cs("x2")), 1);
    assert_eq!(leading_number_chars(&cs("")), 1);
    assert_eq!(leading_number_chars(&cs("0")), 0);
    assert_eq!(leading_number_chars(&cs("9223372036854775807")), i64::MAX);
    assert_eq!(leading_number_chars(&cs("9223372036854775808")), 1);
}

#[test]
fn decimal_and_hex() {
    assert_eq!(decimal_string(0), "0");
    assert_eq!(decimal_string(600000), "600000");
    assert_eq!(decimal_string(u64::MAX), u64::MAX.to_string());
    assert_eq!(hex_lower_string(&[0x00, 0x0f, 0xab, 0xff]), "000fabff");
    assert_eq!(hex_lower_string(&[]), "");
}

#[test]
fn searching_and_comparing() {
    assert!(starts_with_chars(&cs("/home"), &cs("/")));
    assert!(!starts_with_chars(&cs("home"), &cs("/")));
    assert!(contains_chars(&cs("http://x"), &cs("://")));
    assert!(!contains_chars(&cs("/a/b"), &cs("://")));
    assert!(eq_ignore_ascii_case_chars(&cs("xmlHTTPrequest"), &cs("XMLHttpRequest")));
    assert!(!eq_ignore_ascii_case_chars(&cs("Ça"), &cs("ça")));
    assert!(str_eq("mais", "mais"));
    assert!(!str_eq("mais", "menos"));
    assert_eq!(string_of(&chars_of("abç")), "abç");
}
