use weather::text::{decimal_text, parse_i32, percent_encode, trim};

#[test]
fn trim_removes_surrounding_whitespace() {
    assert_eq!(trim("  KEY123 \n"), "KEY123");
    assert_eq!(trim("\t\u{3000}a b\u{2003}"), "a b");
    assert_eq!(trim("   "), "");
    assert_eq!(trim(""), "");
}

#[test]
fn trim_agrees_with_std() {
    for s in ["x", " x", "x ", "\u{85}x\u{a0}", "\u{1680}\u{2000}\u{200a}x y\u{2028}\u{2029}\u{202f}\u{205f}", "\u{200b}x\u{200b}", "\u{b}\u{c}\r"] {
        assert_eq!(trim(s), s.trim(), "{:?}", s);
    }
}

#[test]
fn decimal_text_writes_signed_numbers() {
    assert_eq!(decimal_text(0), "0");
    assert_eq!(decimal_text(7), "7");
    assert_eq!(decimal_text(-42), "-42");
    assert_eq!(decimal_text(i32::MAX), "2147483647");
    assert_eq!(decimal_text(i32::MIN), "-2147483648");
}

#[test]
fn parse_i32_accepts_what_std_accepts() {
    assert_eq!(parse_i32("3"), Some(3));
    assert_eq!(parse_i32("+14"), Some(14));
    assert_eq!(parse_i32("-7"), Some(-7));
    assert_eq!(parse_i32("007"), Some(7));
    assert_eq!(parse_i32("2147483647"), Some(i32::MAX));
    assert_eq!(parse_i32("-2147483648"), Some(i32::MIN));
}

#[test]
fn parse_i32_rejects_what_std_rejects() {
    for s in ["", "-", "+", "abc", "1a", " 1", "2147483648", "-2147483649", "99999999999999"] {
        assert_eq!(parse_i32(s), None, "{}", s);
        assert!(s.parse::<i32>().is_err());
    }
}

#[test]
fn percent_encode_keeps_unreserved_characters() {
    assert_eq!(percent_encode("Toledo"), "Toledo");
    assert_eq!(percent_encode("a-b_c.d~e09"), "a-b_c.d~e09");
    assert_eq!(percent_encode(""), "");
}

#[test]
fn percent_encode_escapes_the_rest_as_utf8() {
    assert_eq!(percent_encode("New York"), "New%20York");
    assert_eq!(percent_encode("a&b=c"), "a%26b%3Dc");
    assert_eq!(percent_encode("São Paulo"), "S%C3%A3o%20Paulo");
    assert_eq!(percent_encode("€"), "%E2%82%AC");
    assert_eq!(percent_encode("😀"), "%F0%9F%98%80");
}
