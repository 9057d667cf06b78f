use html_tokenizer::parser::Parser;
use html_tokenizer::dom::Node;
use html_tokenizer::tokenizer::entities::{entity, ENTITY_COUNT};
use html_tokenizer::tokenizer::error::ParseError;
use html_tokenizer::tokenizer::impl_reference::{check_reference, resolve_reference};
use html_tokenizer::tokenizer::{Token, Tokenizer, TokenizerImpl};

type Item = Result<Token, ParseError>;

fn run(input: &str) -> Vec<Item> {
    let mut tokenizer = TokenizerImpl::new(input.into());
    let mut items = Vec::new();
    while let Some(item) = tokenizer.next() {
        items.push(item);
    }
    items
}

#[test]
fn the_table_holds_all_references_in_order() {
    assert_eq!(ENTITY_COUNT, 2231);
    assert_eq!(entity(0), ("AElig", "\u{C6}"));
    assert_eq!(entity(1), ("AElig;", "\u{C6}"));
    assert_eq!(entity(ENTITY_COUNT - 1), ("zwnj;", "\u{200C}"));
    assert_eq!(entity(ENTITY_COUNT), ("", ""));
    for index in 1..ENTITY_COUNT {
        assert!(entity(index - 1).0 < entity(index).0);
    }
    for index in 0..ENTITY_COUNT {
        let (name, text) = entity(index);
        assert!(!name.is_empty());
        assert!(name.chars().all(|c| c.is_ascii_alphanumeric() || c == ';'));
        let count = text.chars().count();
        assert!(count == 1 || count == 2);
    }
}

#[test]
fn every_reference_gives_its_characters() {
    for index in 0..ENTITY_COUNT {
        let (name, text) = entity(index);
        let mut expected: Vec<Item> = Vec::new();
        if !name.ends_with(';') {
            expected.push(Err(ParseError::MissingSemicolonAfterCharacterReference));
        }
        for c in text.chars() {
            expected.push(Ok(Token::Character(c)));
        }
        expected.push(Ok(Token::Character(' ')));
        expected.push(Ok(Token::EndOfFile));
        assert_eq!(run(&format!("&{} ", name)), expected);
    }
}

#[test]
fn some_well_known_references() {
    let known = [
        ("amp;", "&"),
        ("lt;", "<"),
        ("gt;", ">"),
        ("quot;", "\""),
        ("apos;", "'"),
        ("nbsp;", "\u{A0}"),
        ("copy;", "\u{A9}"),
        ("copy", "\u{A9}"),
        ("eacute;", "\u{E9}"),
        ("Eacute;", "\u{C9}"),
        ("hellip;", "\u{2026}"),
        ("euro;", "\u{20AC}"),
        ("NewLine;", "\n"),
        ("alpha;", "\u{3B1}"),
        ("Alpha;", "\u{391}"),
        ("nvlt;", "<\u{20D2}"),
        ("fjlig;", "fj"),
        ("bne;", "=\u{20E5}"),
        ("Afr;", "\u{1D504}"),
    ];
    for (name, text) in known {
        let found = (0..ENTITY_COUNT).map(entity).find(|(n, _)| *n == name);
        assert_eq!(found, Some((name, text)));
    }
}

#[test]
fn numeric_references_are_checked_and_resolved() {
    assert_eq!(check_reference(0x41), None);
    assert_eq!(resolve_reference(0x41), 'A');
    assert_eq!(check_reference(0), Some(ParseError::NullCharacterReference));
    assert_eq!(resolve_reference(0), '\u{FFFD}');
    assert_eq!(check_reference(0x110000), Some(ParseError::CharacterReferenceOutsideUnicodeRange));
    assert_eq!(check_reference(u32::MAX), Some(ParseError::CharacterReferenceOutsideUnicodeRange));
    assert_eq!(resolve_reference(0x110000), '\u{FFFD}');
    assert_eq!(resolve_reference(u32::MAX), '\u{FFFD}');
    assert_eq!(check_reference(0xD800), Some(ParseError::SurrogateCharacterReference));
    assert_eq!(check_reference(0xDFFF), Some(ParseError::SurrogateCharacterReference));
    assert_eq!(resolve_reference(0xDABC), '\u{FFFD}');
    assert_eq!(check_reference(0xFDD0), Some(ParseError::NoncharacterCharacterReference));
    assert_eq!(check_reference(0x2FFFF), Some(ParseError::NoncharacterCharacterReference));
    assert_eq!(resolve_reference(0x2FFFF), '\u{2FFFF}');
    assert_eq!(check_reference(0x0D), Some(ParseError::ControlCharacterReference));
    assert_eq!(resolve_reference(0x0D), '\r');
    assert_eq!(check_reference(0x9F), Some(ParseError::ControlCharacterReference));
    assert_eq!(resolve_reference(0x9F), '\u{178}');
    assert_eq!(check_reference(0x09), None);
    assert_eq!(check_reference(0x20), None);
    assert_eq!(check_reference(0x7E), None);
    assert_eq!(check_reference(0xA0), None);
    assert_eq!(check_reference(0x10FFFD), None);
    assert_eq!(resolve_reference(0x10FFFD), '\u{10FFFD}');
}

struct MockTokenizer {
    tokens: Vec<Item>,
}

impl Tokenizer for MockTokenizer {
    fn next(&mut self) -> Option<Item> {
        if self.tokens.is_empty() {
            None
        } else {
            Some(self.tokens.remove(0))
        }
    }
}

#[test]
fn parser_takes_any_tokenizer() {
    let mock_tokenizer = MockTokenizer { tokens: vec![Ok(Token::EndOfFile)] };
    let mut parser = Parser::new(mock_tokenizer);
    let actual = parser.parse();
    let expected = Node::create_document();
    assert_eq!(actual, &expected);

    let mock_tokenizer = MockTokenizer {
        tokens: vec![
            Err(ParseError::EofInTag),
            Ok(Token::Character(' ')),
            Ok(Token::Comment { data: String::from("x") }),
            Err(ParseError::EofInTag),
            Ok(Token::EndOfFile),
            Ok(Token::Comment { data: String::from("y") }),
        ],
    };
    let mut parser = Parser::new(mock_tokenizer);
    assert_eq!(parser.parse().len(), 2);
    assert_eq!(parser.parse_errors(), 2);
}
