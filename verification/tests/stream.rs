use html_tokenizer::tokenizer::util::{
    hex_digit_value, is_ascii_alphabetic, is_ascii_alphanumeric, is_ascii_digit,
    is_ascii_hexdigit, is_ascii_lowercase, is_ascii_uppercase, is_tag_whitespace,
    to_ascii_lowercase, Codepoint, CodepointStream,
};

#[test]
fn peek_does_not_move() {
    let stream = CodepointStream::from_string(String::from("a\u{E9}\u{1F600}"));
    assert_eq!(stream.peek(0), Codepoint::Scalar('a'));
    assert_eq!(stream.peek(1), Codepoint::Scalar('\u{E9}'));
    assert_eq!(stream.peek(2), Codepoint::Scalar('\u{1F600}'));
    assert_eq!(stream.peek(3), Codepoint::EndOfFile);
    assert_eq!(stream.peek(usize::MAX), Codepoint::EndOfFile);
    assert_eq!(stream.peek(0), Codepoint::Scalar('a'));
}

#[test]
fn consume_next_moves_one_place_and_stops_at_the_end() {
    let mut stream = CodepointStream::from_string(String::from("\u{E9}b"));
    assert_eq!(stream.consume_next(), Codepoint::Scalar('\u{E9}'));
    assert_eq!(stream.peek(0), Codepoint::Scalar('b'));
    assert_eq!(stream.consume_next(), Codepoint::Scalar('b'));
    assert_eq!(stream.consume_next(), Codepoint::EndOfFile);
    assert_eq!(stream.consume_next(), Codepoint::EndOfFile);
    assert_eq!(stream.peek(0), Codepoint::EndOfFile);
}

#[test]
fn advance_tells_whether_input_is_left() {
    let mut stream = CodepointStream::from_string(String::from("abc"));
    assert!(stream.advance(2));
    assert_eq!(stream.peek(0), Codepoint::Scalar('c'));
    assert!(!stream.advance(1));
    assert_eq!(stream.peek(0), Codepoint::EndOfFile);
    assert!(!stream.advance(usize::MAX));
    let mut empty = CodepointStream::from_string(String::new());
    assert!(!empty.advance(0));
    assert_eq!(empty.consume_next(), Codepoint::EndOfFile);
}

#[test]
fn codepoints_compare_with_or_without_case() {
    let a = Codepoint::Scalar('a');
    assert!(a.eq_char(&'a', true));
    assert!(!a.eq_char(&'A', true));
    assert!(a.eq_char(&'A', false));
    assert!(Codepoint::Scalar('Z').eq_char(&'z', false));
    assert!(!Codepoint::Scalar('[').eq_char(&'{', false));
    assert!(!Codepoint::Scalar('@').eq_char(&'`', false));
    assert!(!Codepoint::Scalar('\u{C9}').eq_char(&'\u{E9}', false));
    assert!(!Codepoint::EndOfFile.eq_char(&'a', false));
    assert!(a.eq(&Codepoint::Scalar('A'), false));
    assert!(!a.eq(&Codepoint::Scalar('A'), true));
    assert!(!a.eq(&Codepoint::EndOfFile, false));
    assert!(!Codepoint::EndOfFile.eq(&a, false));
    assert!(Codepoint::EndOfFile.eq(&Codepoint::EndOfFile, true));
    assert_eq!(Codepoint::null(), Codepoint::Scalar('\0'));
}

#[test]
fn character_classes() {
    assert!(is_ascii_uppercase('A') && is_ascii_uppercase('Z'));
    assert!(!is_ascii_uppercase('@') && !is_ascii_uppercase('[') && !is_ascii_uppercase('a'));
    assert!(is_ascii_lowercase('a') && is_ascii_lowercase('z'));
    assert!(!is_ascii_lowercase('`') && !is_ascii_lowercase('{') && !is_ascii_lowercase('A'));
    assert!(is_ascii_alphabetic('q') && is_ascii_alphabetic('Q') && !is_ascii_alphabetic('1'));
    assert!(!is_ascii_alphabetic('\u{E9}'));
    assert!(is_ascii_digit('0') && is_ascii_digit('9'));
    assert!(!is_ascii_digit('/') && !is_ascii_digit(':'));
    assert!(is_ascii_alphanumeric('0') && is_ascii_alphanumeric('z') && !is_ascii_alphanumeric('-'));
    assert!(is_ascii_hexdigit('f') && is_ascii_hexdigit('F') && is_ascii_hexdigit('0'));
    assert!(!is_ascii_hexdigit('g') && !is_ascii_hexdigit('G'));
    assert!(is_tag_whitespace('\t') && is_tag_whitespace('\n') && is_tag_whitespace('\u{C}'));
    assert!(is_tag_whitespace(' ') && !is_tag_whitespace('\r') && !is_tag_whitespace('\u{B}'));
    assert_eq!(to_ascii_lowercase('A'), 'a');
    assert_eq!(to_ascii_lowercase('Z'), 'z');
    assert_eq!(to_ascii_lowercase('a'), 'a');
    assert_eq!(to_ascii_lowercase('['), '[');
    assert_eq!(to_ascii_lowercase('\u{C9}'), '\u{C9}');
    assert_eq!(hex_digit_value('0'), 0);
    assert_eq!(hex_digit_value('9'), 9);
    assert_eq!(hex_digit_value('a'), 10);
    assert_eq!(hex_digit_value('F'), 15);
    assert_eq!(hex_digit_value('g'), 0);
}

#[test]
fn try_consume_literal_reads_all_or_nothing() {
    let mut stream = CodepointStream::from_string(String::from("DocType html"));
    assert_eq!(stream.try_consume_literal("DOCTYPE", true), None);
    assert_eq!(stream.peek(0), Codepoint::Scalar('D'));
    assert_eq!(stream.try_consume_literal("DOCTYPES", false), None);
    assert_eq!(stream.peek(0), Codepoint::Scalar('D'));
    assert_eq!(stream.try_consume_literal("DOCTYPE", false), Some(String::from("DocType")));
    assert_eq!(stream.peek(0), Codepoint::Scalar(' '));
    assert_eq!(stream.try_consume_literal("", true), Some(String::new()));
    assert_eq!(stream.peek(0), Codepoint::Scalar(' '));
    assert_eq!(stream.try_consume_literal(" html", true), Some(String::from(" html")));
    assert_eq!(stream.peek(0), Codepoint::EndOfFile);
    assert_eq!(stream.try_consume_literal("x", true), None);
    assert_eq!(stream.try_consume_literal("", false), Some(String::new()));
}

#[test]
fn try_consume_literal_stops_at_the_end_of_input() {
    let mut stream = CodepointStream::from_string(String::from("--"));
    assert_eq!(stream.try_consume_literal("---", true), None);
    assert_eq!(stream.peek(0), Codepoint::Scalar('-'));
    assert_eq!(stream.try_consume_literal("--", true), Some(String::from("--")));
    assert_eq!(stream.consume_next(), Codepoint::EndOfFile);
    let mut stream = CodepointStream::from_string(String::from("\u{E9}\u{C9}"));
    assert_eq!(stream.try_consume_literal("\u{E9}\u{E9}", false), None);
    assert_eq!(stream.try_consume_literal("\u{E9}\u{C9}", false), Some(String::from("\u{E9}\u{C9}")));
}

#[test]
fn codepoints_convert_to_and_from_characters() {
    assert_eq!(Codepoint::from('a'), Codepoint::Scalar('a'));
    assert_eq!(u32::from(Codepoint::Scalar('A')), 65);
    assert_eq!(u32::from(Codepoint::Scalar('\u{10FFFF}')), 0x10FFFF);
    assert_eq!(u32::from(Codepoint::EndOfFile), 0xffffffff);
    assert_eq!(char::try_from(Codepoint::Scalar('\u{E9}')), Ok('\u{E9}'));
    assert_eq!(char::try_from(Codepoint::EndOfFile), Err(()));
    let number: u32 = Codepoint::Scalar(' ').into();
    assert_eq!(number, 32);
}
