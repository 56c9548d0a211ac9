use bagpack_core::text::{
    char_is_space, chars_of, join, push_decimal, push_signed_decimal, scan_line_end, scan_run_end,
    scan_run_start, text_is_blank,
};

#[test]
fn whitespace_is_the_unicode_property() {
    for c in ['\t', '\n', '\u{0B}', '\u{0C}', '\r', ' ', '\u{85}', '\u{A0}', '\u{1680}',
        '\u{2000}', '\u{200A}', '\u{2028}', '\u{2029}', '\u{202F}', '\u{205F}', '\u{3000}']
    {
        assert!(char_is_space(c), "{:?}", c);
    }
    for c in ['a', '0', '-', '\u{08}', '\u{0E}', '\u{1F}', '\u{200B}', '\u{FEFF}', '\u{2060}'] {
        assert!(!char_is_space(c), "{:?}", c);
    }
}

#[test]
fn whitespace_agrees_with_std_on_every_char() {
    let mut code: u32 = 0;
    while code <= 0x10FFFF {
        if let Some(c) = char::from_u32(code) {
            assert_eq!(char_is_space(c), c.is_whitespace(), "U+{:04X}", code);
        }
        code += 1;
    }
}

#[test]
fn blank_text_is_empty_or_white() {
    assert!(text_is_blank(""));
    assert!(text_is_blank(" \n\t\r\n"));
    assert!(text_is_blank("\u{3000}\u{A0}"));
    assert!(!text_is_blank(" {} "));
    assert!(!text_is_blank("x"));
}

#[test]
fn chars_of_keeps_every_char() {
    assert_eq!(chars_of("a\u{e9}\u{1F600}z"), vec!['a', '\u{e9}', '\u{1F600}', 'z']);
    assert_eq!(chars_of(""), Vec::<char>::new());
}

#[test]
fn runs_are_scanned_from_both_ends() {
    let chars = chars_of("  wget  1.24.5 ");
    assert_eq!(scan_run_end(&chars, 0, chars.len(), true), 2);
    assert_eq!(scan_run_end(&chars, 2, chars.len(), false), 6);
    assert_eq!(scan_run_start(&chars, 0, chars.len(), true), 14);
    assert_eq!(scan_run_start(&chars, 0, 14, false), 8);
    assert_eq!(scan_run_end(&chars, 3, 3, true), 3);
    assert_eq!(scan_run_start(&chars, 5, 5, false), 5);
}

#[test]
fn line_ends_at_line_feed_or_end_of_text() {
    let chars = chars_of("ab\ncd");
    assert_eq!(scan_line_end(&chars, 0), 2);
    assert_eq!(scan_line_end(&chars, 2), 2);
    assert_eq!(scan_line_end(&chars, 3), 5);
    assert_eq!(scan_line_end(&chars, 5), 5);
}

#[test]
fn decimal_has_no_leading_zeros() {
    let mut out = String::from("n=");
    push_decimal(&mut out, 0);
    assert_eq!(out, "n=0");
    let mut out = String::new();
    push_decimal(&mut out, 1203);
    assert_eq!(out, "1203");
    let mut out = String::new();
    push_decimal(&mut out, u64::MAX);
    assert_eq!(out, "18446744073709551615");
}

#[test]
fn signed_decimal_covers_the_extremes() {
    let mut out = String::new();
    push_signed_decimal(&mut out, -1);
    assert_eq!(out, "-1");
    let mut out = String::new();
    push_signed_decimal(&mut out, i32::MIN);
    assert_eq!(out, "-2147483648");
    let mut out = String::new();
    push_signed_decimal(&mut out, i32::MAX);
    assert_eq!(out, "2147483647");
    let mut out = String::from("x");
    push_signed_decimal(&mut out, 0);
    assert_eq!(out, "x0");
}

#[test]
fn join_puts_the_separator_between() {
    assert_eq!(join(&vec![], " "), "");
    assert_eq!(join(&vec!["list".to_string()], " "), "list");
    assert_eq!(
        join(&vec!["ls".to_string(), "-g".to_string(), "--json".to_string()], " "),
        "ls -g --json"
    );
    assert_eq!(join(&vec!["a".to_string(), "".to_string(), "b".to_string()], ", "), "a, , b");
}
