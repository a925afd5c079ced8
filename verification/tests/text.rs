use deadlock_mod_manager::text::{
    contains, ends_with, join, lines, numeral_text, split_char, starts_with, str_eq, take_chars,
    utf8_len_upto,
};

#[test]
fn join_puts_separator_between_elements() {
    let v = vec!["a".to_string(), "b".to_string(), "c".to_string()];
    assert_eq!(join(&v, ", "), "a, b, c");
    assert_eq!(join(&vec!["only".to_string()], "; "), "only");
    assert_eq!(join(&Vec::new(), "; "), "");
}

#[test]
fn lines_split_like_str_lines() {
    let cases = ["a\nb", "a\r\nb\r\n", "", "\n", "a\n\nb\n", "x\r", "one"];
    for c in cases.iter() {
        let expected: Vec<String> = c.lines().map(|l| l.to_string()).collect();
        assert_eq!(lines(c), expected, "input {:?}", c);
    }
}

#[test]
fn split_char_keeps_empty_pieces() {
    assert_eq!(
        split_char("https://host/path", '/'),
        vec!["https:", "", "host", "path"]
    );
    assert_eq!(split_char("", '/'), vec![""]);
    assert_eq!(split_char("a//", '/'), vec!["a", "", ""]);
}

#[test]
fn numerals_in_decimal_and_hex() {
    assert_eq!(numeral_text(0, 10), "0");
    assert_eq!(numeral_text(1700000000123, 10), "1700000000123");
    assert_eq!(numeral_text(255, 16), "ff");
    assert_eq!(numeral_text(999_999_999, 16), format!("{:x}", 999_999_999u32));
}

#[test]
fn pattern_tests() {
    assert!(starts_with("profile_1", "profile_"));
    assert!(!starts_with("prof", "profile_"));
    assert!(ends_with("a.log", ".log"));
    assert!(!ends_with("log", ".log"));
    assert!(contains("my-deadlock-dump", "deadlock"));
    assert!(!contains("dead lock", "deadlock"));
    assert!(contains("abc", ""));
    assert!(str_eq("same", "same"));
    assert!(!str_eq("same", "Same"));
}

#[test]
fn take_chars_counts_characters() {
    assert_eq!(take_chars("h\u{e9}llo", 2), "h\u{e9}");
    assert_eq!(take_chars("hi", 10), "hi");
}

#[test]
fn utf8_length_up_to_a_bound() {
    assert_eq!(utf8_len_upto("h\u{e9}", 10), (3, false));
    assert_eq!(utf8_len_upto("h\u{e9}", 3), (3, false));
    assert!(utf8_len_upto("h\u{e9}", 2).1);
    assert_eq!(utf8_len_upto("\u{1F600}", 4), (4, false));
}
