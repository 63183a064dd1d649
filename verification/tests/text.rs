use air::number::{decimal, parse_u32, NumberError};
use air::text::{
    chars_of, eq_ignore_ascii_case, lines, same_text, split_once, starts_with, trim, white_space,
};

#[test]
fn texts_are_trimmed_of_unicode_white_space() {
    for text in ["", " ", "a", "  a b\t\n", "\u{3000}代理\u{a0}", "\u{200b}x", "\u{2028}\u{85}"] {
        assert_eq!(trim(text), text.trim());
        assert_eq!(trim(trim(text)), trim(text));
    }
    for number in 0u32..0x3100 {
        if let Some(c) = char::from_u32(number) {
            assert_eq!(white_space(c), c.is_whitespace());
        }
    }
}

#[test]
fn lines_end_at_both_kinds_of_ends() {
    for text in ["", "\n", "a", "a\n", "a\r\nb", "a\r", "a\n\nb\n", "\r\n\r\n", "a\r\r\nb"] {
        assert_eq!(lines(text), text.lines().collect::<Vec<_>>());
    }
}

#[test]
fn texts_are_split_at_the_first_mark() {
    for text in ["", ":", "a:b:c", "ab", "代:理", ":x"] {
        assert_eq!(split_once(text, ':'), text.split_once(':'));
    }
}

#[test]
fn texts_are_compared() {
    assert!(same_text("代理", "代理"));
    assert!(!same_text("a", "A"));
    assert!(eq_ignore_ascii_case("yEs", "YeS"));
    assert!(!eq_ignore_ascii_case("é", "É"));
    assert!(!eq_ignore_ascii_case("a", "ab"));
    assert!(!eq_ignore_ascii_case("@", "`"));
    assert!(starts_with("http://", "http://"));
    assert!(!starts_with("http:/", "http://"));
    assert!(starts_with("x", ""));
    assert_eq!(chars_of("a代"), vec!['a', '代']);
}

#[test]
fn numbers_are_read_and_written() {
    for text in ["", "+", "-", "0", "007", "+5", "++5", "-1", "4294967295", "4294967296", "9x",
        "99999999999x", "４"]
    {
        let read = parse_u32(text);
        match text.parse::<u32>() {
            Ok(number) => assert_eq!(read, Ok(number)),
            Err(error) => assert_eq!(read.unwrap_err().message(), error.to_string()),
        }
    }
    assert_eq!(parse_u32(""), Err(NumberError::Empty));
    assert_eq!(parse_u32("x"), Err(NumberError::InvalidDigit));
    assert_eq!(parse_u32("4294967296"), Err(NumberError::TooLarge));
    for number in [0, 7, 10, 65535, 4294967295] {
        assert_eq!(decimal(number), number.to_string());
        assert_eq!(parse_u32(&decimal(number)), Ok(number));
    }
}
