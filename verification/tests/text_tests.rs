use telegram_mp3_bot::text::{
    chars_before, chars_of, contains_chars, decimal_i64, decimal_u64, find_chars, parse_bool,
    parse_i64, push_padded, split_second_piece, split_words, string_from_chars, to_lower_hex,
};

fn cv(s: &str) -> Vec<char> {
    s.chars().collect()
}

#[test]
fn decimal_rendering_matches_display() {
    assert_eq!(decimal_u64(0), "0");
    assert_eq!(decimal_u64(7), "7");
    assert_eq!(decimal_u64(10), "10");
    assert_eq!(decimal_u64(1234567890), "1234567890");
    assert_eq!(decimal_u64(u64::MAX), u64::MAX.to_string());
    assert_eq!(decimal_i64(-42), "-42");
    assert_eq!(decimal_i64(0), "0");
    assert_eq!(decimal_i64(i64::MIN), i64::MIN.to_string());
    assert_eq!(decimal_i64(i64::MAX), i64::MAX.to_string());
}

#[test]
fn parse_i64_follows_from_str() {
    for s in [
        "0", "42", "+42", "-42", "007", "-0", "9223372036854775807", "-9223372036854775808",
        "9223372036854775808", "-9223372036854775809", "", "+", "-", "12a", " 1", "1 ", "--1",
        "+-1", "99999999999999999999999", "١٢",
    ] {
        assert_eq!(parse_i64(&cv(s)), s.parse::<i64>().ok(), "input {:?}", s);
    }
}

#[test]
fn parse_bool_follows_from_str() {
    for s in ["true", "false", "True", "FALSE", "", "yes", "true ", "1"] {
        assert_eq!(parse_bool(&cv(s)), s.parse::<bool>().ok(), "input {:?}", s);
    }
}

#[test]
fn split_words_follows_split_whitespace() {
    for s in [
        "/setpremium 123 true",
        "  lead and trail  ",
        "",
        "   ",
        "tab\tsep\nnew\u{3000}ideo\u{a0}nbsp\u{2003}em",
        "one",
    ] {
        let got: Vec<String> = split_words(&cv(s)).iter().map(|w| w.iter().collect()).collect();
        let want: Vec<String> = s.split_whitespace().map(|w| w.to_string()).collect();
        assert_eq!(got, want, "input {:?}", s);
    }
}

#[test]
fn searching_and_cutting() {
    let s = cv("abcabc");
    assert_eq!(find_chars(&s, &cv("bc"), 0), Some(1));
    assert_eq!(find_chars(&s, &cv("bc"), 2), Some(4));
    assert_eq!(find_chars(&s, &cv("bc"), 5), None);
    assert_eq!(find_chars(&s, &cv("x"), 0), None);
    assert!(contains_chars(&s, &cv("cab")));
    assert!(!contains_chars(&s, &cv("abcabcd")));
    assert_eq!(split_second_piece(&cv("a=b=c"), &cv("=")), Some(cv("b")));
    assert_eq!(split_second_piece(&cv("a=bc"), &cv("=")), Some(cv("bc")));
    assert_eq!(split_second_piece(&cv("abc"), &cv("=")), None);
    assert_eq!(chars_before(&cv("id&t=1"), '&'), cv("id"));
    assert_eq!(chars_before(&cv("id"), '&'), cv("id"));
    assert_eq!(string_from_chars(&chars_of("héllo")), "héllo");
}

#[test]
fn padding_matches_format() {
    let mut s = String::from("[");
    push_padded(&mut s, "12", 5);
    assert_eq!(s, format!("[{: <5}", "12"));
    let mut t = String::new();
    push_padded(&mut t, "toolong", 3);
    assert_eq!(t, format!("{: <3}", "toolong"));
}

#[test]
fn lower_hex_matches_format() {
    let bytes = [0u8, 1, 15, 16, 171, 255];
    let want: String = bytes.iter().map(|b| format!("{:02x}", b)).collect();
    assert_eq!(to_lower_hex(&bytes), want);
    assert_eq!(to_lower_hex(&[]), "");
}
