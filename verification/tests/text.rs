use lyrics_overlay::text::{
    chars_of, find_char, is_whitespace, joined, parse_decimal, push_chars, push_decimal,
    push_seconds, same_text, string_of, trimmed, wrapped,
};

#[test]
fn white_space_is_what_std_calls_white_space() {
    for code in 0..=0x10_FFFFu32 {
        if let Some(c) = char::from_u32(code) {
            assert_eq!(is_whitespace(c), c.is_whitespace(), "U+{:04X}", code);
        }
    }
}

#[test]
fn trimming_is_what_std_does() {
    for s in [
        "",
        " ",
        "a",
        "  a b  ",
        "\t\r\n x \u{a0}\u{2003}",
        "\u{3000}\u{3000}",
        "x\u{200b}",
        "\u{feff}x ",
        " \u{85}y\u{1680}",
    ] {
        let chars = chars_of(s);
        let got: String = trimmed(&chars).iter().collect();
        assert_eq!(got, s.trim(), "{:?}", s);
    }
}

#[test]
fn decimal_numbers_are_read_as_std_reads_them() {
    for s in [
        "", "0", "7", "007", "+7", "+", "-7", "++7", "7+", " 7", "7 ", "1_000", "12a", "a12",
        "18446744073709551615", "18446744073709551616", "+18446744073709551615",
        "000000000000000000000000000000000018446744073709551615", "99999999999999999999",
        "184467440737095516150", "\u{661}", "1.5", "0x10",
    ] {
        let chars = chars_of(s);
        assert_eq!(parse_decimal(&chars), s.parse::<u64>().ok(), "{:?}", s);
    }
}

#[test]
fn decimal_numbers_are_written_as_std_writes_them() {
    for n in [0u64, 1, 9, 10, 11, 99, 100, 101, 8123, 65_535, 1_000_000, u64::MAX / 10, u64::MAX] {
        let mut s = String::from("n=");
        push_decimal(&mut s, n);
        assert_eq!(s, format!("n={}", n));
    }
}

#[test]
fn seconds_are_written_as_the_float_is() {
    let mut samples: Vec<u64> = (0..=2_500).collect();
    samples.extend([5_999, 6_000, 59_990, 60_000, 213_573, 213_570, 213_500, 213_000, 3_599_999]);
    samples.extend([10_000_000, 86_400_000, 123_456_789, 999_999_999_999, 1_000_000_000_001]);
    for ms in samples {
        let mut s = String::new();
        push_seconds(&mut s, ms);
        assert_eq!(s, format!("{}", ms as f64 / 1000.0), "{} ms", ms);
    }
}

#[test]
fn seconds_examples() {
    for (ms, text) in [(0u64, "0"), (1, "0.001"), (10, "0.01"), (100, "0.1"), (1_000, "1"), (213_570, "213.57")] {
        let mut s = String::new();
        push_seconds(&mut s, ms);
        assert_eq!(s, text);
    }
}

#[test]
fn finding_a_character() {
    let chars = chars_of("ab]c]");
    assert_eq!(find_char(&chars, ']'), 2);
    assert_eq!(find_char(&chars, 'a'), 0);
    assert_eq!(find_char(&chars, 'x'), 5);
    assert_eq!(find_char(&[], 'x'), 0);
}

#[test]
fn strings_and_characters() {
    let s = "h\u{e9}llo \u{1f3b5}";
    let chars = chars_of(s);
    assert_eq!(chars.len(), 7);
    assert_eq!(string_of(&chars), s);
    let mut out = String::from(">");
    push_chars(&mut out, &chars[1..3]);
    assert_eq!(out, ">\u{e9}l");
    assert_eq!(joined("a", "bc"), "abc");
    assert_eq!(wrapped("(", "x", ")"), "(x)");
}

#[test]
fn comparing_strings() {
    assert!(same_text("", ""));
    assert!(same_text("track", "track"));
    assert!(!same_text("track", "tracks"));
    assert!(!same_text("tracks", "track"));
    assert!(!same_text("track", "trick"));
    assert!(!same_text("", "x"));
    assert!(same_text("\u{1f3b5}x", "\u{1f3b5}x"));
}
