use appservice_delta::numbers::{
    decimal, parse_i64, parse_u32, parse_unsigned, signed_decimal, NumberError,
};
use appservice_delta::text::{
    cut, ends_with, is_white, join, join2, join3, lines_of, same, split_word, strip_quotation,
    trim_start,
};

#[test]
fn words_are_split_at_the_first_space() {
    assert_eq!(split_word("configure a b"), ("configure", "a b"));
    assert_eq!(split_word("repl"), ("repl", ""));
    assert_eq!(split_word(""), ("", ""));
    assert_eq!(split_word(" x"), ("", "x"));
    assert_eq!(split_word("a  b"), ("a", " b"));
}

#[test]
fn texts_are_compared_and_cut() {
    assert!(same("äb", "äb"));
    assert!(!same("a", "A"));
    assert_eq!(cut("a@b@c", '@'), Some(("a", "b@c")));
    assert_eq!(cut("abc", '@'), None);
    assert!(ends_with("mail.eml", ".eml"));
    assert!(!ends_with("mail.EML", ".eml"));
    assert!(!ends_with("ml", ".eml"));
}

#[test]
fn white_space_is_that_of_unicode() {
    assert!(is_white(' '));
    assert!(is_white('\t'));
    assert!(is_white('\u{a0}'));
    assert!(is_white('\u{3000}'));
    assert!(!is_white('\u{200b}'));
    assert!(!is_white('x'));
    for c in '\u{0}'..='\u{3100}' {
        assert_eq!(is_white(c), c.is_whitespace());
    }
}

#[test]
fn leading_white_space_is_trimmed() {
    assert_eq!(trim_start(" \t\u{a0}x "), "x ");
    assert_eq!(trim_start(""), "");
    assert_eq!(trim_start("  "), "");
}

#[test]
fn lines_end_at_line_feeds() {
    for s in ["", "a", "a\n", "a\nb", "a\r\nb\r\n", "\n\nx", "a\r", "\r\n", "a\n\n"] {
        assert_eq!(lines_of(s), s.lines().collect::<Vec<_>>());
    }
}

#[test]
fn parts_are_joined() {
    assert_eq!(join(&vec!["a".to_string(), "b".to_string(), "c".to_string()], ", "), "a, b, c");
    assert_eq!(join(&vec![], ", "), "");
    assert_eq!(join2("a", "b"), "ab");
    assert_eq!(join3("a", "b", "c"), "abc");
}

#[test]
fn quotations_are_stripped_off_replies() {
    assert_eq!(strip_quotation("> <@a:b> hello\n> more\n\nmy answer"), "my answer");
    assert_eq!(strip_quotation("no quotation"), "no quotation");
    assert_eq!(strip_quotation("a\n> b\nc"), "a\nc");
    assert_eq!(strip_quotation("> only"), "");
    assert_eq!(strip_quotation(" > not at the start"), "> not at the start");
    // Stripping once more may strip more.
    assert_eq!(strip_quotation("> not at the start"), "");
}

#[test]
fn numbers_are_written() {
    for n in [0u64, 7, 10, 99, 100, 4294967295, u64::MAX] {
        assert_eq!(decimal(n), n.to_string());
    }
    for i in [0i64, -1, 42, i64::MIN, i64::MAX] {
        assert_eq!(signed_decimal(i), i.to_string());
    }
}

#[test]
fn numbers_are_read_as_they_were_written() {
    for n in [0u32, 1, 10, 4294967295] {
        assert_eq!(parse_u32(&decimal(n as u64)), Ok(n));
    }
    for i in [0i64, -1, 42, i64::MIN, i64::MAX] {
        assert_eq!(parse_i64(&signed_decimal(i)), Ok(i));
    }
}

#[test]
fn what_is_no_number_is_refused() {
    for s in ["", "+", "-", "x", "1x", "-1", "+1", "007", "4294967295", "4294967296", "99999999999x", " 1", "1 "] {
        match (parse_u32(s), s.parse::<u32>()) {
            (Ok(a), Ok(b)) => assert_eq!(a, b),
            (Err(a), Err(b)) => assert_eq!(a.text(), b.to_string()),
            (a, b) => panic!("{:?}: {:?} {:?}", s, a, b),
        }
    }
    for s in ["", "+", "-", "--1", "-9223372036854775808", "-9223372036854775809", "9223372036854775808", "+5", "-0"] {
        match (parse_i64(s), s.parse::<i64>()) {
            (Ok(a), Ok(b)) => assert_eq!(a, b),
            (Err(a), Err(b)) => assert_eq!(a.text(), b.to_string()),
            (a, b) => panic!("{:?}: {:?} {:?}", s, a, b),
        }
    }
    assert_eq!(parse_u32(""), Err(NumberError::Empty));
    assert_eq!(parse_u32("?"), Err(NumberError::InvalidDigit));
    assert_eq!(parse_unsigned("11", 10), Err(NumberError::TooLarge));
    assert_eq!(parse_i64("-9223372036854775809"), Err(NumberError::TooSmall));
}
