use open_provider::text::{
    chars_of, contains_chars, ends_with_chars, i64_text, parse_i64, replace_chars, same_text,
    trim_end_matching, trim_ws, u64_text, text_less,
};

fn s(v: &Vec<char>) -> String {
    v.iter().collect()
}

#[test]
fn decimal_texts() {
    assert_eq!(s(&u64_text(0)), "0");
    assert_eq!(s(&u64_text(1234567890)), "1234567890");
    assert_eq!(s(&u64_text(u64::MAX)), "18446744073709551615");
    assert_eq!(s(&i64_text(-42)), "-42");
    assert_eq!(s(&i64_text(i64::MIN)), "-9223372036854775808");
    assert_eq!(s(&i64_text(i64::MAX)), "9223372036854775807");
}

#[test]
fn parsing_integers() {
    assert_eq!(parse_i64(&chars_of("123")), Some(123));
    assert_eq!(parse_i64(&chars_of("+7")), Some(7));
    assert_eq!(parse_i64(&chars_of("-0")), Some(0));
    assert_eq!(parse_i64(&chars_of("007")), Some(7));
    assert_eq!(parse_i64(&chars_of("-9223372036854775808")), Some(i64::MIN));
    assert_eq!(parse_i64(&chars_of("9223372036854775807")), Some(i64::MAX));
    assert_eq!(parse_i64(&chars_of("9223372036854775808")), None);
    assert_eq!(parse_i64(&chars_of("-9223372036854775809")), None);
    assert_eq!(parse_i64(&chars_of("99999999999999999999999")), None);
    assert_eq!(parse_i64(&chars_of("")), None);
    assert_eq!(parse_i64(&chars_of("-")), None);
    assert_eq!(parse_i64(&chars_of("+")), None);
    assert_eq!(parse_i64(&chars_of("1a")), None);
    assert_eq!(parse_i64(&chars_of(" 1")), None);
    for n in [0i64, 1, -1, 42, i64::MIN, i64::MAX, 1700000000] {
        assert_eq!(parse_i64(&i64_text(n)), Some(n));
        assert_eq!(parse_i64(&chars_of(&n.to_string())), n.to_string().parse::<i64>().ok());
    }
}

#[test]
fn searching_and_replacing() {
    assert!(contains_chars(&chars_of("abc-free"), &chars_of("-free")));
    assert!(!contains_chars(&chars_of("abcfree"), &chars_of("-free")));
    assert!(contains_chars(&chars_of("x"), &chars_of("")));
    assert!(ends_with_chars(&chars_of("m:free"), &chars_of(":free")));
    assert!(!ends_with_chars(&chars_of("free"), &chars_of(":free")));
    assert_eq!(s(&replace_chars(&chars_of("a{K}b{K}"), &chars_of("{K}"), &chars_of("xy"))), "axybxy");
    assert_eq!(s(&replace_chars(&chars_of("aaa"), &chars_of("aa"), &chars_of("b"))), "ba");
    assert_eq!(s(&trim_end_matching(&chars_of("https://x//"), '/')), "https://x");
    assert_eq!(s(&trim_ws(&chars_of(" \t tok\n\u{3000}"))), "tok");
    assert_eq!(s(&trim_ws(&chars_of("   "))), "");
    assert!(same_text("abc", "abc"));
    assert!(!same_text("abc", "abd"));
}

#[test]
fn lowercase_and_order() {
    assert!(text_less(&chars_of("a"), &chars_of("b")));
    assert!(text_less(&chars_of("ab"), &chars_of("abc")));
    assert!(!text_less(&chars_of("b"), &chars_of("ab")));
    assert!(!text_less(&chars_of("a"), &chars_of("a")));
    assert!(text_less(&chars_of("Z"), &chars_of("a")));
}
