use vex2pdf::lib_utils::text::{
    char_is_whitespace, char_to_ascii_lower, chars_of, lines_of, lowercase_is,
    str_eq_ignore_ascii_case, string_of, trim, usize_to_decimal,
};

#[test]
fn numbers_are_written_in_decimal() {
    assert_eq!(usize_to_decimal(0), "0");
    assert_eq!(usize_to_decimal(7), "7");
    assert_eq!(usize_to_decimal(10), "10");
    assert_eq!(usize_to_decimal(255), "255");
    assert_eq!(usize_to_decimal(1_000), "1000");
    assert_eq!(usize_to_decimal(4_294_967_295), "4294967295");
    assert_eq!(usize_to_decimal(usize::MAX), usize::MAX.to_string());
}

#[test]
fn only_ascii_capitals_are_folded() {
    assert_eq!(char_to_ascii_lower('A'), 'a');
    assert_eq!(char_to_ascii_lower('Z'), 'z');
    assert_eq!(char_to_ascii_lower('m'), 'm');
    assert_eq!(char_to_ascii_lower('@'), '@');
    assert_eq!(char_to_ascii_lower('['), '[');
    assert_eq!(char_to_ascii_lower('0'), '0');
    assert_eq!(char_to_ascii_lower('\u{c4}'), '\u{c4}');
    for c in ['A', 'q', 'Z', '9', '\u{e9}', '\u{4e2d}'] {
        assert_eq!(char_to_ascii_lower(c), c.to_ascii_lowercase());
    }
}

#[test]
fn comparison_disregards_ascii_case_only() {
    assert!(str_eq_ignore_ascii_case("FaLsE", "false"));
    assert!(str_eq_ignore_ascii_case("", ""));
    assert!(!str_eq_ignore_ascii_case("false", "fals"));
    assert!(!str_eq_ignore_ascii_case("fa1se", "false"));
    assert!(!str_eq_ignore_ascii_case("\u{c4}", "\u{e4}"));
    assert!(lowercase_is("XmL", "xml"));
    assert!(!lowercase_is("xml", "XML"));
    assert!(!lowercase_is("xmls", "xml"));
    for (a, b) in [("Off", "oFF"), ("no", "NO"), ("a", "b"), ("K", "\u{212a}")] {
        assert_eq!(str_eq_ignore_ascii_case(a, b), a.eq_ignore_ascii_case(b));
    }
}

#[test]
fn characters_and_ranges_of_a_text() {
    assert_eq!(chars_of("a\u{e9}\u{4e2d}z"), vec!['a', '\u{e9}', '\u{4e2d}', 'z']);
    assert!(chars_of("").is_empty());
    let chars = chars_of("report");
    assert_eq!(string_of(&chars, 0, 6), "report");
    assert_eq!(string_of(&chars, 2, 4), "po");
    assert_eq!(string_of(&chars, 3, 3), "");
}

#[test]
fn trim_removes_white_space_at_both_ends() {
    assert_eq!(trim("  a b \t\n"), "a b");
    assert_eq!(trim("a"), "a");
    assert_eq!(trim(""), "");
    assert_eq!(trim(" \r\n\t "), "");
    assert_eq!(trim("\u{a0}x\u{3000}"), "x");
    assert_eq!(trim("x \u{e9} "), "x \u{e9}");
    for text in ["  lead", "trail  ", "\u{2003}both\u{2003}", "in side", "\u{feff}x"] {
        assert_eq!(trim(text), text.trim());
    }
}

#[test]
fn lines_are_the_pieces_between_line_feeds() {
    assert_eq!(lines_of("a\nb\nc"), vec!["a", "b", "c"]);
    assert_eq!(lines_of("a"), vec!["a"]);
    assert_eq!(lines_of(""), vec![""]);
    assert_eq!(lines_of("a\n"), vec!["a", ""]);
    assert_eq!(lines_of("\n"), vec!["", ""]);
    assert_eq!(lines_of("\n\na"), vec!["", "", "a"]);
    assert_eq!(lines_of("a\r\nb"), vec!["a\r", "b"]);
    for text in ["x\ny\n\nz", "\n", "no feed", "\u{e9}\n\u{4e2d}"] {
        let expected: Vec<&str> = text.split('\n').collect();
        assert_eq!(lines_of(text), expected);
    }
}

#[test]
fn white_space_is_what_the_standard_library_takes_for_it() {
    let mut white = 0;
    for code in 0..=0x10FFFFu32 {
        if let Some(c) = char::from_u32(code) {
            assert_eq!(char_is_whitespace(c), c.is_whitespace(), "U+{code:04X}");
            if char_is_whitespace(c) {
                white += 1;
            }
        }
    }
    assert_eq!(white, 25);
    for c in ['\t', '\n', '\u{b}', '\u{c}', '\r', ' ', '\u{85}', '\u{a0}', '\u{3000}'] {
        assert!(char_is_whitespace(c));
    }
    for c in ['\u{8}', '\u{e}', '\u{1f}', 'a', '\u{200b}', '\u{feff}', '\u{180e}'] {
        assert!(!char_is_whitespace(c));
    }
}
