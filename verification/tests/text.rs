use sisr::text::{
    chars_of, contains_chars, find_char, push_decimal, same_text, split_ranges, string_of,
    trim_range, unmarked_core, whitespace_marks,
};
use sisr::version::parse_u64;

#[test]
fn chars_and_strings_round_trip() {
    let cs = chars_of("héllo");
    assert_eq!(cs, vec!['h', 'é', 'l', 'l', 'o']);
    assert_eq!(string_of(&cs, 0, 5), "héllo");
    assert_eq!(string_of(&cs, 1, 3), "él");
    assert_eq!(string_of(&cs, 2, 2), "");
}

#[test]
fn same_text_compares_characters() {
    assert!(same_text("abc", "abc"));
    assert!(!same_text("abc", "abd"));
    assert!(!same_text("abc", "ab"));
    assert!(same_text("", ""));
}

#[test]
fn splitting_keeps_empty_pieces() {
    let cs = chars_of("a#bc##d");
    assert_eq!(split_ranges(&cs, '#'), vec![(0, 1), (2, 4), (5, 5), (6, 7)]);
    assert_eq!(split_ranges(&chars_of(""), '#'), vec![(0, 0)]);
    assert_eq!(split_ranges(&chars_of("#"), '#'), vec![(0, 0), (1, 1)]);
    assert_eq!(split_ranges(&chars_of("abc"), '#'), vec![(0, 3)]);
}

#[test]
fn find_char_gives_the_first_position_or_the_length() {
    let cs = chars_of("a-b-c");
    assert_eq!(find_char(&cs, '-', 0), 1);
    assert_eq!(find_char(&cs, '-', 2), 3);
    assert_eq!(find_char(&cs, '-', 4), 5);
    assert_eq!(find_char(&cs, 'x', 0), 5);
}

#[test]
fn trimming_drops_outer_whitespace_only() {
    let cs = chars_of(" \t a b \n");
    assert_eq!(trim_range(&cs, 0, cs.len()), (3, 6));
    let blank = chars_of("   ");
    let (a, b) = trim_range(&blank, 0, 3);
    assert_eq!(a, b);
    let wide = chars_of("\u{2003}x\u{00a0}");
    assert_eq!(trim_range(&wide, 0, 3), (1, 2));
}

#[test]
fn contains_finds_runs() {
    assert!(contains_chars(&chars_of("0.1-gabc"), &chars_of("-g")));
    assert!(!contains_chars(&chars_of("0.1-abc"), &chars_of("-g")));
    assert!(contains_chars(&chars_of("abc"), &chars_of("")));
    assert!(!contains_chars(&chars_of("a"), &chars_of("ab")));
    assert!(contains_chars(&chars_of("xab"), &chars_of("ab")));
}

#[test]
fn decimal_numerals() {
    let mut s = String::from("n=");
    push_decimal(&mut s, 0);
    assert_eq!(s, "n=0");
    let mut t = String::new();
    push_decimal(&mut t, 4294967295);
    assert_eq!(t, "4294967295");
    let mut u = String::new();
    push_decimal(&mut u, u64::MAX);
    assert_eq!(u, "18446744073709551615");
    let mut v = String::new();
    push_decimal(&mut v, 1050);
    assert_eq!(v, "1050");
}

#[test]
fn unsigned_numbers_parse_as_the_standard_library_parses_them() {
    let cases = [
        "0", "7", "007", "+5", "+", "", "-1", "12a", " 1", "1 ", "18446744073709551615",
        "18446744073709551616", "99999999999999999999999", "++1", "١",
    ];
    for text in cases {
        let cs = chars_of(text);
        assert_eq!(parse_u64(&cs, 0, cs.len()), text.parse::<u64>().ok(), "{}", text);
    }
    let cs = chars_of("ab123cd");
    assert_eq!(parse_u64(&cs, 2, 5), Some(123));
    assert_eq!(parse_u64(&cs, 2, 2), None);
}

#[test]
fn marked_ends_are_dropped() {
    assert_eq!(unmarked_core(&vec![true, false, true, false, true], 0, 5), (1, 4));
    assert_eq!(unmarked_core(&vec![true, false, true, false, true], 2, 5), (3, 4));
    assert_eq!(unmarked_core(&vec![false, true, false], 0, 3), (0, 3));
    assert_eq!(unmarked_core(&vec![true, true], 0, 2), (2, 2));
    assert_eq!(unmarked_core(&vec![], 0, 0), (0, 0));
    assert_eq!(unmarked_core(&vec![false], 0, 1), (0, 1));
}

#[test]
fn whitespace_is_marked_character_by_character() {
    assert_eq!(whitespace_marks(&chars_of(" a\t\u{3000}b")), vec![true, false, true, true, false]);
    assert_eq!(whitespace_marks(&chars_of("")), Vec::<bool>::new());
}
