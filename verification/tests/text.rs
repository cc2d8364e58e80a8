use arris_status::coerce::{
    coerce_u8_or_zero, coerce_u8_strict, coerce_usize_or_zero, parse_bounded, parse_u8,
    parse_usize,
};
use arris_status::text::{chars_of, join_text, split_last_token, trim_whitespace};
use arris_status::error::{COERCION_MESSAGE, STRUCTURE_MESSAGE};
use arris_status::ParseError;

#[test]
fn join_text_concatenates_in_order_without_separator() {
    assert_eq!(join_text(&vec!["549", "000000", " Hz"]), "549000000 Hz");
}

#[test]
fn join_text_of_no_fragments_is_empty() {
    assert_eq!(join_text(&Vec::new()), "");
}

#[test]
fn join_text_keeps_surrounding_whitespace() {
    assert_eq!(join_text(&vec!["  a ", "", " b\n"]), "  a  b\n");
}

#[test]
fn chars_of_keeps_every_character() {
    assert_eq!(chars_of("dB\u{b5}V"), vec!['d', 'B', '\u{b5}', 'V']);
    assert_eq!(chars_of(""), Vec::<char>::new());
}

#[test]
fn last_token_of_channel_label() {
    assert_eq!(split_last_token("Channel ID 3"), "3");
    assert_eq!(split_last_token("Channel 1"), "1");
}

#[test]
fn last_token_without_space_is_whole_text() {
    assert_eq!(split_last_token("12"), "12");
    assert_eq!(split_last_token(""), "");
}

#[test]
fn last_token_behind_trailing_space_is_empty() {
    assert_eq!(split_last_token("Channel 1 "), "");
    assert_eq!(split_last_token(" "), "");
}

#[test]
fn last_token_splits_on_spaces_only() {
    assert_eq!(split_last_token("Channel\t7"), "Channel\t7");
    assert_eq!(split_last_token("a  b\u{a0}c"), "b\u{a0}c");
}

#[test]
fn last_token_agrees_with_split() {
    for text in ["", " ", "a", "a b", "a b ", "  a", "x y z", "\u{e9}t\u{e9} 5", "a\nb c\td"] {
        assert_eq!(split_last_token(text), text.split(' ').last().unwrap());
    }
}

#[test]
fn trim_removes_whitespace_at_both_ends() {
    assert_eq!(trim_whitespace("  3 \n"), "3");
    assert_eq!(trim_whitespace("\t1 2\r\n"), "1 2");
    assert_eq!(trim_whitespace("none"), "none");
}

#[test]
fn trim_of_whitespace_alone_is_empty() {
    assert_eq!(trim_whitespace(" \t\n"), "");
    assert_eq!(trim_whitespace(""), "");
}

#[test]
fn trim_knows_whitespace_beyond_ascii() {
    assert_eq!(trim_whitespace("\u{a0}4\u{2003}"), "4");
    assert_eq!(trim_whitespace("\u{200b}4"), "\u{200b}4");
}

#[test]
fn trim_knows_each_ascii_whitespace() {
    assert_eq!(trim_whitespace(" \t\n\x0b\x0c\r1\r\x0c\x0b\n\t "), "1");
    assert_eq!(trim_whitespace("\x1c1\x1f"), "\x1c1\x1f");
    assert_eq!(trim_whitespace("\x081\x0e"), "\x081\x0e");
    assert_eq!(trim_whitespace("\x001\x7f"), "\x001\x7f");
}

#[test]
fn trim_agrees_with_standard_trim_on_every_ascii_character() {
    for code in 0u8..=0x7f {
        let c = code as char;
        let text = format!("{}x{}", c, c);
        assert_eq!(trim_whitespace(&text), text.trim());
        let expected = c == ' ' || ('\t'..='\r').contains(&c);
        assert_eq!(trim_whitespace(&text) == "x", expected);
    }
}

#[test]
fn trim_agrees_with_standard_trim() {
    for text in ["", " ", "a", " a", "a ", " a b ", "\n\t x \u{3000}", "\u{85}y\u{1680}", "_ _"] {
        assert_eq!(trim_whitespace(text), text.trim());
    }
}

#[test]
fn parse_u8_reads_decimal_digits() {
    assert_eq!(parse_u8("0"), Some(0));
    assert_eq!(parse_u8("7"), Some(7));
    assert_eq!(parse_u8("255"), Some(255));
    assert_eq!(parse_u8("007"), Some(7));
    assert_eq!(parse_u8("+12"), Some(12));
}

#[test]
fn parse_u8_rejects_what_is_no_number() {
    assert_eq!(parse_u8(""), None);
    assert_eq!(parse_u8("+"), None);
    assert_eq!(parse_u8("-"), None);
    assert_eq!(parse_u8("-1"), None);
    assert_eq!(parse_u8("++1"), None);
    assert_eq!(parse_u8(" 1"), None);
    assert_eq!(parse_u8("1 "), None);
    assert_eq!(parse_u8("1a"), None);
    assert_eq!(parse_u8("1_0"), None);
    assert_eq!(parse_u8("\u{661}"), None);
}

#[test]
fn parse_u8_rejects_what_is_out_of_range() {
    assert_eq!(parse_u8("256"), None);
    assert_eq!(parse_u8("1000"), None);
    assert_eq!(parse_u8("99999999999999999999999999"), None);
    assert_eq!(parse_u8("0000000000000000000000000255"), Some(255));
}

#[test]
fn parse_u8_agrees_with_standard_parse() {
    for text in [
        "", "+", "-", "0", "+0", "-0", "00", "9", "10", "255", "256", "+255", "+256", "2 5",
        "25.0", "0x10", "1e2", "\u{661}", "\u{b2}", " 7", "7\n", "+-7", "18446744073709551616",
    ] {
        assert_eq!(parse_u8(text), text.parse::<u8>().ok());
    }
}

#[test]
fn parse_usize_reads_large_counts() {
    assert_eq!(parse_usize("305419896"), Some(305419896));
    assert_eq!(parse_usize("0"), Some(0));
    assert_eq!(parse_usize(&usize::MAX.to_string()), Some(usize::MAX));
}

#[test]
fn parse_usize_agrees_with_standard_parse() {
    for text in [
        "", "+", "1", "4294967295", "4294967296", "18446744073709551615",
        "18446744073709551616", "184467440737095516150", "99999999999999999999", "+42", "4 2",
        "-3", "0000000000000000000000042",
    ] {
        assert_eq!(parse_usize(text), text.parse::<usize>().ok());
    }
}

#[test]
fn parse_bounded_respects_the_bound() {
    assert_eq!(parse_bounded("100", 100), Some(100));
    assert_eq!(parse_bounded("101", 100), None);
    assert_eq!(parse_bounded("0", 0), Some(0));
    assert_eq!(parse_bounded("1", 0), None);
    assert_eq!(parse_bounded("18446744073709551615", u64::MAX), Some(u64::MAX));
    assert_eq!(parse_bounded("18446744073709551616", u64::MAX), None);
}

#[test]
fn tolerant_fields_read_as_zero_on_failure() {
    assert_eq!(coerce_u8_or_zero("12"), 12);
    assert_eq!(coerce_u8_or_zero("n/a"), 0);
    assert_eq!(coerce_u8_or_zero(""), 0);
    assert_eq!(coerce_u8_or_zero("300"), 0);
    assert_eq!(coerce_usize_or_zero("305419896"), 305419896);
    assert_eq!(coerce_usize_or_zero("----"), 0);
}

#[test]
fn strict_field_fails_on_what_is_no_number() {
    assert_eq!(coerce_u8_strict("3"), Ok(3));
    assert_eq!(coerce_u8_strict("three"), Err(ParseError::Coercion));
    assert_eq!(coerce_u8_strict(""), Err(ParseError::Coercion));
    assert_eq!(coerce_u8_strict("256"), Err(ParseError::Coercion));
}

#[test]
fn errors_say_what_failed() {
    assert_eq!(ParseError::Structure.message(), STRUCTURE_MESSAGE);
    assert_eq!(ParseError::Coercion.message(), COERCION_MESSAGE);
    assert_ne!(STRUCTURE_MESSAGE, COERCION_MESSAGE);
    assert_ne!(ParseError::Structure, ParseError::Coercion);
}
