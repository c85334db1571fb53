use git_const::text::{is_whitespace, push_decimal, to_decimal, trim};

#[test]
fn whitespace_is_what_std_calls_whitespace() {
    let mut n: u32 = 0;
    while n <= 0x10FFFF {
        if let Some(c) = char::from_u32(n) {
            assert_eq!(is_whitespace(c), c.is_whitespace(), "U+{:04X}", n);
        }
        n += 1;
    }
}

#[test]
fn whitespace_knows_the_common_characters() {
    assert!(is_whitespace(' '));
    assert!(is_whitespace('\n'));
    assert!(is_whitespace('\r'));
    assert!(is_whitespace('\t'));
    assert!(is_whitespace('\u{0B}'));
    assert!(is_whitespace('\u{0C}'));
    assert!(is_whitespace('\u{85}'));
    assert!(is_whitespace('\u{A0}'));
    assert!(is_whitespace('\u{3000}'));
    assert!(!is_whitespace('a'));
    assert!(!is_whitespace('0'));
    assert!(!is_whitespace('\u{0}'));
    assert!(!is_whitespace('\u{8}'));
    assert!(!is_whitespace('\u{E}'));
    assert!(!is_whitespace('\u{200B}'));
    assert!(!is_whitespace('\u{180E}'));
}

#[test]
fn trim_takes_white_space_from_both_ends() {
    assert_eq!(trim("  HEAD \n"), "HEAD");
    assert_eq!(trim("HEAD"), "HEAD");
    assert_eq!(trim("\tv1.0\r\n"), "v1.0");
    assert_eq!(trim("x"), "x");
    assert_eq!(trim(" x"), "x");
    assert_eq!(trim("x "), "x");
}

#[test]
fn trim_keeps_white_space_inside() {
    assert_eq!(trim(" a b\nc "), "a b\nc");
    assert_eq!(trim("HEAD ~ 1"), "HEAD ~ 1");
}

#[test]
fn trim_of_blank_text_is_empty() {
    assert_eq!(trim(""), "");
    assert_eq!(trim(" "), "");
    assert_eq!(trim(" \t\r\n\u{3000}"), "");
}

#[test]
fn trim_handles_characters_of_several_bytes() {
    assert_eq!(trim("\u{3000}\u{e9}t\u{e9}\u{a0}"), "\u{e9}t\u{e9}");
    assert_eq!(trim("\u{2003}\u{1F600}\u{2003}"), "\u{1F600}");
    assert_eq!(trim("\u{200B} x \u{200B}"), "\u{200B} x \u{200B}");
}

#[test]
fn trim_agrees_with_std() {
    let samples = [
        "",
        " ",
        "abc",
        "  abc",
        "abc  ",
        "\n\nabc def\n\n",
        "\u{85}a\u{85}",
        "\u{1680}a b\u{205F}",
        "\u{2028}\u{2029}z\u{202F}",
        "a\u{0}",
        "\u{FEFF}a",
    ];
    for sample in samples {
        assert_eq!(trim(sample), sample.trim());
    }
}

#[test]
fn to_decimal_writes_numerals() {
    assert_eq!(to_decimal(0), "0");
    assert_eq!(to_decimal(1), "1");
    assert_eq!(to_decimal(9), "9");
    assert_eq!(to_decimal(10), "10");
    assert_eq!(to_decimal(128), "128");
    assert_eq!(to_decimal(1000), "1000");
    assert_eq!(to_decimal(-1), "-1");
    assert_eq!(to_decimal(-128), "-128");
}

#[test]
fn to_decimal_reaches_the_ends_of_the_range() {
    assert_eq!(to_decimal(i32::MAX), "2147483647");
    assert_eq!(to_decimal(i32::MIN), "-2147483648");
}

#[test]
fn to_decimal_agrees_with_std() {
    let samples = [0, 5, 10, 99, 100, 101, 255, 256, 65535, -7, -10, -100, 123456789, -987654321];
    for n in samples {
        assert_eq!(to_decimal(n), n.to_string());
    }
}

#[test]
fn push_decimal_appends() {
    let mut text = String::from("status ");
    push_decimal(&mut text, 0);
    assert_eq!(text, "status 0");
    push_decimal(&mut text, 4294967295);
    assert_eq!(text, "status 04294967295");
}
