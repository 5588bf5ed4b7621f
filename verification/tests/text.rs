use basalt::text::{
    chars_of, followed_by_text, is_blank, is_boundary, join, parse_u8, replace_all, skip_chars, slice,
    split_lines, split_runs, split_words, starts_with, str_eq, whitespace_flags,
};

#[test]
fn chars_of_gives_the_characters_in_order() {
    assert_eq!(chars_of("añb"), vec!['a', 'ñ', 'b']);
}

#[test]
fn str_eq_compares_the_characters() {
    assert!(str_eq("quit", "quit"));
    assert!(!str_eq("quit", "quiT"));
    assert!(!str_eq("quit", "quit "));
    assert!(str_eq("", ""));
}

#[test]
fn starts_with_and_skip_chars() {
    assert!(starts_with("exec:ls", "exec:"));
    assert!(!starts_with("exe", "exec:"));
    assert!(starts_with("anything", ""));
    assert_eq!(skip_chars("exec:ls -l", 5), "ls -l");
    assert_eq!(skip_chars("añb", 2), "b");
}

#[test]
fn followed_by_text_puts_one_text_after_the_other() {
    assert_eq!(followed_by_text("ab", "cd"), "abcd");
}

#[test]
fn replace_all_replaces_every_occurrence_from_the_left() {
    assert_eq!(replace_all("a%xb%x", "%x", "12"), "a12b12");
    assert_eq!(replace_all("aaa", "aa", "b"), "ba");
    assert_eq!(replace_all("abc", "x", "y"), "abc");
    assert_eq!(replace_all("", "x", "y"), "");
    assert_eq!(replace_all("%note_path", "%note", "n"), "n_path");
}

#[test]
fn replace_all_with_an_empty_pattern_puts_the_text_everywhere() {
    assert_eq!(replace_all("abc", "", "-"), "-a-b-c-");
    assert_eq!(replace_all("abc", "", "-"), "abc".replace("", "-"));
    assert_eq!(replace_all("", "", "-"), "-");
}

#[test]
fn split_words_splits_at_any_whitespace() {
    assert_eq!(split_words("  open   /vault/a.md\t-x\n"), vec!["open", "/vault/a.md", "-x"]);
    assert_eq!(split_words("one\u{a0}two\u{3000}three"), vec!["one", "two", "three"]);
    assert_eq!(split_words("   "), Vec::<String>::new());
    assert_eq!(split_words(""), Vec::<String>::new());
}

#[test]
fn is_blank_holds_of_whitespace_only() {
    assert!(is_blank(""));
    assert!(is_blank(" \t\n\u{2003}"));
    assert!(!is_blank("  x "));
}

#[test]
fn split_lines_follows_the_line_feeds() {
    assert_eq!(split_lines("a\n\nb"), vec!["a", "", "b"]);
    assert_eq!(split_lines("a\n"), vec!["a"]);
    assert_eq!(split_lines("a\r\nb\r"), vec!["a", "b\r"]);
    assert_eq!(split_lines("\n"), vec![""]);
    assert_eq!(split_lines(""), Vec::<String>::new());
}

#[test]
fn split_lines_agrees_with_the_standard_library() {
    for text in ["", "x", "x\n", "\n\n", "a\r\n\r\nb", "a\rb\n", "last\r\n", "\r", "é\nü"] {
        let expected: Vec<String> = text.lines().map(|l| l.to_string()).collect();
        assert_eq!(split_lines(text), expected, "lines of {:?}", text);
    }
}

#[test]
fn join_puts_the_separator_between_neighbours() {
    let lines = vec![String::from("a"), String::from(""), String::from("b")];
    assert_eq!(join(&lines, "\n"), "a\n\nb");
    assert_eq!(join(&vec![String::from("only")], ", "), "only");
    assert_eq!(join(&Vec::new(), ", "), "");
}

#[test]
fn parse_u8_reads_decimal_numbers_below_256() {
    assert_eq!(parse_u8("0"), Some(0));
    assert_eq!(parse_u8("12"), Some(12));
    assert_eq!(parse_u8("255"), Some(255));
    assert_eq!(parse_u8("256"), None);
    assert_eq!(parse_u8("007"), Some(7));
    assert_eq!(parse_u8("+5"), Some(5));
    assert_eq!(parse_u8("+"), None);
    assert_eq!(parse_u8(""), None);
    assert_eq!(parse_u8("-1"), None);
    assert_eq!(parse_u8("1a"), None);
    assert_eq!(parse_u8("99999999999999999999"), None);
}

#[test]
fn parse_u8_agrees_with_the_standard_library() {
    for text in ["", "+", "+0", "++1", "1 ", " 1", "000000256", "0000000255", "25a", "٣"] {
        assert_eq!(parse_u8(text), text.parse::<u8>().ok(), "number {:?}", text);
    }
}

#[test]
fn slice_cuts_between_byte_offsets() {
    assert_eq!(slice("# A\n\nbody", 5, 9), "body");
    assert_eq!(slice("añb", 1, 3), "ñ");
    assert_eq!(slice("abc", 1, 1), "");
}

#[test]
fn is_boundary_tells_where_a_text_can_be_cut() {
    assert!(is_boundary("añb", 0));
    assert!(is_boundary("añb", 1));
    assert!(!is_boundary("añb", 2));
    assert!(is_boundary("añb", 3));
    assert!(is_boundary("añb", 4));
    assert!(!is_boundary("añb", 5));
}

#[test]
fn split_runs_splits_where_it_is_told_to() {
    let chars = chars_of("a+b++c");
    let breaks = vec![false, true, false, true, true, false];
    assert_eq!(split_runs(&chars, &breaks), vec!["a", "b", "c"]);
    assert_eq!(split_runs(&chars, &vec![false; 6]), vec!["a+b++c"]);
    assert_eq!(split_runs(&chars, &vec![true; 6]), Vec::<String>::new());
    assert_eq!(split_runs(&chars, &vec![false, true]), vec!["a", "b++c"]);
    assert_eq!(split_runs(&Vec::new(), &vec![true]), Vec::<String>::new());
}

#[test]
fn whitespace_flags_mark_the_whitespace() {
    assert_eq!(whitespace_flags(&chars_of("a b\t\u{a0}c")), vec![false, true, false, true, true, false]);
    assert_eq!(whitespace_flags(&Vec::new()), Vec::<bool>::new());
}
