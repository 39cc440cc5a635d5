use tmt_core::text::{
    chars_of, decimal, ends_with, find_char, holds, matches_at, parse_decimal, parse_u32, reads,
    replace, same, signed_decimal, starts_with, string_of, trim, whitespace,
};

#[test]
fn trim_takes_white_space_from_both_ends() {
    assert_eq!(trim("  45000\n"), "45000");
    assert_eq!(trim("\t a b \r\n"), "a b");
    assert_eq!(trim(""), "");
    assert_eq!(trim("   "), "");
    assert_eq!(trim("x"), "x");
    assert_eq!(trim("\u{a0}\u{3000}x\u{2003}\u{85}"), "x");
    assert_eq!(trim("\u{200b}x"), "\u{200b}x");
    for text in ["  45000\n", "\u{1680} y \u{2028}\u{2029}\u{202f}\u{205f}", "\u{b}\u{c}z\u{1c}"] {
        assert_eq!(trim(text), text.trim());
    }
}

#[test]
fn white_space_is_what_the_standard_says() {
    for n in 0..0x3100u32 {
        if let Some(c) = char::from_u32(n) {
            assert_eq!(whitespace(c), c.is_whitespace(), "{:x}", n);
        }
    }
    assert!(!whitespace('\u{10ffff}'));
}

#[test]
fn decimal_numbers_are_parsed_as_the_standard_does() {
    for text in [
        "0", "7", "45000", "+12", "4294967295", "4294967296", "99999999999999999999", "", "+",
        "-", "-1", "1 ", " 1", "1_000", "0x10", "12a", "007", "++1", "+-1", "٣", "1.5",
        "18446744073709551615", "18446744073709551616",
    ] {
        assert_eq!(parse_u32(text), text.parse::<u32>().ok(), "{:?}", text);
        assert_eq!(parse_decimal(text, u64::MAX), text.parse::<u64>().ok(), "{:?}", text);
    }
    assert_eq!(parse_decimal("100", 99), None);
    assert_eq!(parse_decimal("99", 99), Some(99));
    assert_eq!(parse_decimal("5", 0), None);
    assert_eq!(parse_decimal("0", 0), Some(0));
}

#[test]
fn numbers_are_written_in_decimal() {
    for n in [0u32, 1, 9, 10, 11, 99, 100, 12345, u32::MAX] {
        assert_eq!(decimal(n), n.to_string());
    }
    for n in [0i32, 1, -1, 10, -10, i32::MAX, i32::MIN] {
        assert_eq!(signed_decimal(n), n.to_string());
    }
}

#[test]
fn prefixes_and_suffixes_are_matched() {
    assert!(starts_with("temp1_input", "temp"));
    assert!(ends_with("temp1_input", "_input"));
    assert!(!starts_with("tem", "temp"));
    assert!(!ends_with("input", "_input"));
    assert!(starts_with("temp", ""));
    assert!(ends_with("temp", ""));
    assert!(starts_with("", ""));
    assert!(!starts_with("xtemp", "temp"));
    assert!(same("abc", "abc"));
    assert!(!same("abc", "abd"));
    assert!(!same("abc", "ab"));
    assert!(same("", ""));
    let v = chars_of("a.b.c");
    assert_eq!(v, vec!['a', '.', 'b', '.', 'c']);
    assert_eq!(string_of(&v), "a.b.c");
    assert!(matches_at(&v, 1, &chars_of(".b")));
    assert!(!matches_at(&v, 4, &chars_of("c.")));
    assert!(!matches_at(&v, 9, &chars_of("")));
    assert!(matches_at(&v, 5, &chars_of("")));
    assert!(holds(&v, &chars_of("a.b.c")));
    assert!(reads(&v, "a.b.c"));
    assert!(!reads(&v, "a.b"));
    assert_eq!(find_char(&v, 0, '.'), 1);
    assert_eq!(find_char(&v, 2, '.'), 3);
    assert_eq!(find_char(&v, 4, '.'), 5);
    assert_eq!(find_char(&v, 5, '.'), 5);
}

#[test]
fn replace_does_as_the_standard_does() {
    for (text, from, to) in [
        ("temp1_input", "_input", "_label"),
        ("temp_input_input", "_input", "_max"),
        ("aaa", "aa", "b"),
        ("aaaa", "aa", "b"),
        ("abc", "x", "y"),
        ("", "x", "y"),
        ("abc", "abc", ""),
        ("abcabc", "bc", "bcbc"),
        ("ab", "abc", "x"),
        ("trip_point_0_temp", "_temp", "_type"),
        ("é_input", "_input", "_é"),
    ] {
        assert_eq!(replace(text, from, to), text.replace(from, to), "{:?}", (text, from, to));
    }
    assert_eq!(replace("abc", "", "x"), "abc");
}
