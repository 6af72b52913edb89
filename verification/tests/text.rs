use nod_krai_gi::text::{is_float_text, chars_of, parse_u32_text, push_decimal, split_text, trim_bounds, words_between, is_whitespace, join_strings};

#[test]
fn reads_u32() {
    assert_eq!(parse_u32_text("0"), Some(0));
    assert_eq!(parse_u32_text("+12"), Some(12));
    assert_eq!(parse_u32_text("4294967295"), Some(u32::MAX));
    assert_eq!(parse_u32_text("4294967296"), None);
    assert_eq!(parse_u32_text("99999999999999999999"), None);
    assert_eq!(parse_u32_text(""), None);
    assert_eq!(parse_u32_text("1 "), None);
    assert_eq!(parse_u32_text("-0"), None);
}

#[test]
fn writes_decimals() {
    let mut s = String::from("n=");
    push_decimal(&mut s, 0);
    assert_eq!(s, "n=0");
    let mut s = String::new();
    push_decimal(&mut s, 1234567890);
    assert_eq!(s, "1234567890");
}

#[test]
fn splits_like_str_split() {
    assert_eq!(split_text("1,2;3,4", ';'), vec!["1,2", "3,4"]);
    assert_eq!(split_text("", ';'), vec![""]);
    assert_eq!(split_text(";a;", ';'), vec!["", "a", ""]);
}

#[test]
fn words_and_trim_like_std() {
    let s = " \u{3000}ab  c\td\u{85} ";
    let c = chars_of(s);
    let (k, e) = trim_bounds(&c);
    let trimmed: String = c[k..e].iter().collect();
    assert_eq!(trimmed, s.trim());
    let w = words_between(s, &c, 0, c.len());
    assert_eq!(w, s.split_whitespace().collect::<Vec<_>>());
    assert!(is_whitespace('\u{a0}'));
    assert!(!is_whitespace('\u{200b}'));
    assert_eq!(join_strings(&vec!["a".to_string(), "b".to_string()], ", "), "a, b");
}

#[test]
fn whitespace_matches_char_is_whitespace() {
    for c in (0u32..0x3100).filter_map(char::from_u32) {
        assert_eq!(is_whitespace(c), c.is_whitespace(), "{:?}", c);
    }
}

#[test]
fn float_text_matches_f32_from_str() {
    let samples = [
        "0", "1", "+1", "-1", "1.", ".5", "-.5", ".", "+.", "1.5", "1.5.2", "1e5", "1E5", "1e+5", "1e-5",
        "1e", "e5", ".e5", "1.e5", ".5e5", "1e5.0", "inf", "INF", "-Infinity", "+nan", "NaN", "nana",
        "infinit", "infinityy", "", "+", "-", " 1", "1 ", "1_000", "0x10", "١", "1e+", "--1", "+-1",
        "00012.34000", "3.4028236e38", "1e999", "ｉｎｆ",
    ];
    for s in samples {
        assert_eq!(is_float_text(s), s.parse::<f32>().is_ok(), "{:?}", s);
    }
}
