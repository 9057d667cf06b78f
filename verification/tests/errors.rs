use html_tokenizer::tokenizer::error::ParseError;
use html_tokenizer::tokenizer::state::State;
use html_tokenizer::tokenizer::{Attribute, Attributes, TagKind, Token, Tokenizer, TokenizerImpl};

type Item = Result<Token, ParseError>;

fn run_from(input: &str, state: State) -> Vec<Item> {
    let mut tokenizer = TokenizerImpl::new(input.into());
    tokenizer.switch_to(state);
    let mut items = Vec::new();
    while let Some(item) = tokenizer.next() {
        items.push(item);
    }
    items
}

fn run(input: &str) -> Vec<Item> {
    run_from(input, State::Data)
}

fn c(ch: char) -> Item {
    Ok(Token::Character(ch))
}

fn tag(kind: TagKind, name: &str, self_closing: bool, pairs: &[(&str, &str)]) -> Item {
    let mut attributes = Attributes::new();
    for (name, value) in pairs {
        attributes.push(Attribute::new(String::from(*name), String::from(*value)));
    }
    Ok(Token::Tag { kind, tag_name: String::from(name), self_closing, attributes })
}

fn doctype(name: Option<&str>, public: Option<&str>, system: Option<&str>, quirks: bool) -> Item {
    Ok(Token::Doctype {
        name: name.map(String::from),
        public_identifier: public.map(String::from),
        system_identifier: system.map(String::from),
        force_quirks: quirks,
    })
}

fn comment(data: &str) -> Item {
    Ok(Token::Comment { data: String::from(data) })
}

fn eof() -> Item {
    Ok(Token::EndOfFile)
}

#[test]
fn abrupt_closing_of_empty_comment() {
    let error = Err(ParseError::AbruptClosingOfEmptyComment);
    assert_eq!(run("<!-->"), vec![error.clone(), comment(""), eof()]);
    assert_eq!(run("<!--->"), vec![error, comment(""), eof()]);
}

#[test]
fn abrupt_doctype_identifiers() {
    assert_eq!(
        run("<!DOCTYPE html PUBLIC \"a>"),
        vec![
            Err(ParseError::AbruptDoctypePublicIdentifier),
            doctype(Some("html"), Some("a"), None, true),
            eof(),
        ]
    );
    assert_eq!(
        run("<!DOCTYPE html SYSTEM 'a>b"),
        vec![
            Err(ParseError::AbruptDoctypeSystemIdentifier),
            doctype(Some("html"), None, Some("a"), true),
            c('b'),
            eof(),
        ]
    );
}

#[test]
fn absence_of_digits_in_numeric_character_reference() {
    let error = Err(ParseError::AbsenceOfDigitsInNumericCharacterReference);
    assert_eq!(run("&#;"), vec![error.clone(), c('&'), c('#'), c(';'), eof()]);
    assert_eq!(run("&#xg"), vec![error.clone(), c('&'), c('#'), c('x'), c('g'), eof()]);
    assert_eq!(run("&#X"), vec![error, c('&'), c('#'), c('X'), eof()]);
}

#[test]
fn character_reference_outside_unicode_range() {
    assert_eq!(
        run("&#x110000;"),
        vec![Err(ParseError::CharacterReferenceOutsideUnicodeRange), c('\u{FFFD}'), eof()]
    );
    assert_eq!(
        run("&#1114112;"),
        vec![Err(ParseError::CharacterReferenceOutsideUnicodeRange), c('\u{FFFD}'), eof()]
    );
}

#[test]
fn control_character_reference() {
    let error = Err(ParseError::ControlCharacterReference);
    assert_eq!(run("&#x80;"), vec![error.clone(), c('\u{20AC}'), eof()]);
    assert_eq!(run("&#13;"), vec![error.clone(), c('\r'), eof()]);
    assert_eq!(run("&#1;"), vec![error.clone(), c('\u{1}'), eof()]);
    assert_eq!(run("&#x7f;"), vec![error, c('\u{7F}'), eof()]);
    assert_eq!(run("&#10;&#12;&#32;&#x7e;&#xa0;"), vec![
        c('\n'),
        c('\u{C}'),
        c(' '),
        c('~'),
        c('\u{A0}'),
        eof(),
    ]);
}

#[test]
fn end_tag_with_attributes() {
    assert_eq!(
        run("</a b>"),
        vec![
            Err(ParseError::EndTagWithAttributes),
            tag(TagKind::End, "a", false, &[("b", "")]),
            eof(),
        ]
    );
}

#[test]
fn end_tag_with_trailing_solidus() {
    assert_eq!(
        run("</a/>"),
        vec![Err(ParseError::EndTagWithTrailingSolidus), tag(TagKind::End, "a", true, &[]), eof()]
    );
    assert_eq!(
        run("</a b/>"),
        vec![
            Err(ParseError::EndTagWithAttributes),
            Err(ParseError::EndTagWithTrailingSolidus),
            tag(TagKind::End, "a", true, &[("b", "")]),
            eof(),
        ]
    );
}

#[test]
fn eof_before_tag_name() {
    assert_eq!(run("<"), vec![Err(ParseError::EofBeforeTagName), c('<'), eof()]);
    assert_eq!(run("</"), vec![Err(ParseError::EofBeforeTagName), c('<'), c('/'), eof()]);
}

#[test]
fn eof_in_cdata() {
    assert_eq!(run("<![CDATA[a"), vec![c('a'), Err(ParseError::EofInCdata), eof()]);
    assert_eq!(run("<![CDATA[]"), vec![c(']'), Err(ParseError::EofInCdata), eof()]);
    assert_eq!(run("<![CDATA[]]"), vec![c(']'), c(']'), Err(ParseError::EofInCdata), eof()]);
}

#[test]
fn eof_in_comment() {
    let error = Err(ParseError::EofInComment);
    assert_eq!(run("<!--a"), vec![error.clone(), comment("a"), eof()]);
    assert_eq!(run("<!--"), vec![error.clone(), comment(""), eof()]);
    assert_eq!(run("<!---"), vec![error.clone(), comment(""), eof()]);
    assert_eq!(run("<!--a-"), vec![error.clone(), comment("a"), eof()]);
    assert_eq!(run("<!--a--"), vec![error.clone(), comment("a"), eof()]);
    assert_eq!(run("<!--a--!"), vec![error.clone(), comment("a"), eof()]);
    assert_eq!(run("<!--a<!--"), vec![error, comment("a<!"), eof()]);
}

#[test]
fn eof_in_doctype() {
    let error = Err(ParseError::EofInDoctype);
    assert_eq!(run("<!DOCTYPE"), vec![error.clone(), doctype(None, None, None, true), eof()]);
    assert_eq!(run("<!DOCTYPE "), vec![error.clone(), doctype(None, None, None, true), eof()]);
    assert_eq!(run("<!DOCTYPE a"), vec![error.clone(), doctype(Some("a"), None, None, true), eof()]);
    assert_eq!(
        run("<!DOCTYPE a "),
        vec![error.clone(), doctype(Some("a"), None, None, true), eof()]
    );
    assert_eq!(
        run("<!DOCTYPE a PUBLIC"),
        vec![error.clone(), doctype(Some("a"), None, None, true), eof()]
    );
    assert_eq!(
        run("<!DOCTYPE a PUBLIC "),
        vec![error.clone(), doctype(Some("a"), None, None, true), eof()]
    );
    assert_eq!(
        run("<!DOCTYPE a PUBLIC 'b"),
        vec![error.clone(), doctype(Some("a"), Some("b"), None, true), eof()]
    );
    assert_eq!(
        run("<!DOCTYPE a PUBLIC 'b'"),
        vec![error.clone(), doctype(Some("a"), Some("b"), None, true), eof()]
    );
    assert_eq!(
        run("<!DOCTYPE a PUBLIC 'b' "),
        vec![error.clone(), doctype(Some("a"), Some("b"), None, true), eof()]
    );
    assert_eq!(
        run("<!DOCTYPE a SYSTEM"),
        vec![error.clone(), doctype(Some("a"), None, None, true), eof()]
    );
    assert_eq!(
        run("<!DOCTYPE a SYSTEM "),
        vec![error.clone(), doctype(Some("a"), None, None, true), eof()]
    );
    assert_eq!(
        run("<!DOCTYPE a SYSTEM \"b"),
        vec![error.clone(), doctype(Some("a"), None, Some("b"), true), eof()]
    );
    assert_eq!(
        run("<!DOCTYPE a SYSTEM \"b\""),
        vec![error, doctype(Some("a"), None, Some("b"), true), eof()]
    );
}

#[test]
fn eof_in_bogus_doctype_is_no_further_error() {
    assert_eq!(
        run("<!DOCTYPE a b\0"),
        vec![
            Err(ParseError::InvalidCharacterSequenceAfterDoctypeName),
            Err(ParseError::UnexpectedNullCharacter),
            doctype(Some("a"), None, None, true),
            eof(),
        ]
    );
}

#[test]
fn eof_in_script_html_comment_like_text() {
    assert_eq!(
        run_from("<!--", State::ScriptData),
        vec![
            c('<'),
            c('!'),
            c('-'),
            c('-'),
            Err(ParseError::EofInScriptHtmlCommentLikeText),
            eof(),
        ]
    );
}

#[test]
fn eof_in_tag() {
    let error = Err(ParseError::EofInTag);
    assert_eq!(run("<a"), vec![error.clone(), eof()]);
    assert_eq!(run("<a "), vec![error.clone(), eof()]);
    assert_eq!(run("<a b"), vec![error.clone(), eof()]);
    assert_eq!(run("<a b "), vec![error.clone(), eof()]);
    assert_eq!(run("<a b="), vec![error.clone(), eof()]);
    assert_eq!(run("<a b=c"), vec![error.clone(), eof()]);
    assert_eq!(run("<a b='c"), vec![error.clone(), eof()]);
    assert_eq!(run("<a b=\"c"), vec![error.clone(), eof()]);
    assert_eq!(run("<a b='c'"), vec![error.clone(), eof()]);
    assert_eq!(run("<a/"), vec![error, eof()]);
}

#[test]
fn incorrectly_closed_comment() {
    assert_eq!(
        run("<!--a--!>"),
        vec![Err(ParseError::IncorrectlyClosedComment), comment("a"), eof()]
    );
}

#[test]
fn incorrectly_opened_comment() {
    assert_eq!(run("<!a>"), vec![Err(ParseError::IncorrectlyOpenedComment), comment("a"), eof()]);
    assert_eq!(run("<!->"), vec![Err(ParseError::IncorrectlyOpenedComment), comment("-"), eof()]);
    assert_eq!(run("<!"), vec![Err(ParseError::IncorrectlyOpenedComment), comment(""), eof()]);
    assert_eq!(
        run("<!DOCTYP>"),
        vec![Err(ParseError::IncorrectlyOpenedComment), comment("DOCTYP"), eof()]
    );
}

#[test]
fn invalid_character_sequence_after_doctype_name() {
    assert_eq!(
        run("<!DOCTYPE html foo>x"),
        vec![
            Err(ParseError::InvalidCharacterSequenceAfterDoctypeName),
            doctype(Some("html"), None, None, true),
            c('x'),
            eof(),
        ]
    );
    assert_eq!(
        run("<!DOCTYPE html PUBLIX>"),
        vec![
            Err(ParseError::InvalidCharacterSequenceAfterDoctypeName),
            doctype(Some("html"), None, None, true),
            eof(),
        ]
    );
}

#[test]
fn invalid_first_character_of_tag_name() {
    assert_eq!(
        run("<1"),
        vec![Err(ParseError::InvalidFirstCharacterOfTagName), c('<'), c('1'), eof()]
    );
    assert_eq!(
        run("< a"),
        vec![Err(ParseError::InvalidFirstCharacterOfTagName), c('<'), c(' '), c('a'), eof()]
    );
    assert_eq!(
        run("<<a>"),
        vec![
            Err(ParseError::InvalidFirstCharacterOfTagName),
            c('<'),
            tag(TagKind::Start, "a", false, &[]),
            eof(),
        ]
    );
    assert_eq!(
        run("</1>"),
        vec![Err(ParseError::InvalidFirstCharacterOfTagName), comment("1"), eof()]
    );
}

#[test]
fn missing_attribute_value() {
    assert_eq!(
        run("<a b=>"),
        vec![
            Err(ParseError::MissingAttributeValue),
            tag(TagKind::Start, "a", false, &[("b", "")]),
            eof(),
        ]
    );
}

#[test]
fn missing_doctype_name() {
    assert_eq!(
        run("<!DOCTYPE>"),
        vec![Err(ParseError::MissingDoctypeName), doctype(None, None, None, true), eof()]
    );
    assert_eq!(
        run("<!DOCTYPE >"),
        vec![Err(ParseError::MissingDoctypeName), doctype(None, None, None, true), eof()]
    );
}

#[test]
fn missing_doctype_identifiers() {
    assert_eq!(
        run("<!DOCTYPE html PUBLIC>"),
        vec![
            Err(ParseError::MissingDoctypePublicIdentifier),
            doctype(Some("html"), None, None, true),
            eof(),
        ]
    );
    assert_eq!(
        run("<!DOCTYPE html PUBLIC >"),
        vec![
            Err(ParseError::MissingDoctypePublicIdentifier),
            doctype(Some("html"), None, None, true),
            eof(),
        ]
    );
    assert_eq!(
        run("<!DOCTYPE html SYSTEM>"),
        vec![
            Err(ParseError::MissingDoctypeSystemIdentifier),
            doctype(Some("html"), None, None, true),
            eof(),
        ]
    );
    assert_eq!(
        run("<!DOCTYPE html SYSTEM >"),
        vec![
            Err(ParseError::MissingDoctypeSystemIdentifier),
            doctype(Some("html"), None, None, true),
            eof(),
        ]
    );
}

#[test]
fn missing_end_tag_name() {
    assert_eq!(run("</>a"), vec![Err(ParseError::MissingEndTagName), c('a'), eof()]);
}

#[test]
fn missing_quote_before_doctype_identifiers() {
    assert_eq!(
        run("<!DOCTYPE html PUBLIC x>"),
        vec![
            Err(ParseError::MissingQuoteBeforeDoctypePublicIdentifier),
            doctype(Some("html"), None, None, true),
            eof(),
        ]
    );
    assert_eq!(
        run("<!DOCTYPE html PUBLICx>"),
        vec![
            Err(ParseError::MissingQuoteBeforeDoctypePublicIdentifier),
            doctype(Some("html"), None, None, true),
            eof(),
        ]
    );
    assert_eq!(
        run("<!DOCTYPE html SYSTEM x>"),
        vec![
            Err(ParseError::MissingQuoteBeforeDoctypeSystemIdentifier),
            doctype(Some("html"), None, None, true),
            eof(),
        ]
    );
    assert_eq!(
        run("<!DOCTYPE html SYSTEMx>"),
        vec![
            Err(ParseError::MissingQuoteBeforeDoctypeSystemIdentifier),
            doctype(Some("html"), None, None, true),
            eof(),
        ]
    );
    assert_eq!(
        run("<!DOCTYPE html PUBLIC 'a' x>"),
        vec![
            Err(ParseError::MissingQuoteBeforeDoctypeSystemIdentifier),
            doctype(Some("html"), Some("a"), None, true),
            eof(),
        ]
    );
    assert_eq!(
        run("<!DOCTYPE html PUBLIC 'a'x>"),
        vec![
            Err(ParseError::MissingQuoteBeforeDoctypeSystemIdentifier),
            doctype(Some("html"), Some("a"), None, true),
            eof(),
        ]
    );
}

#[test]
fn missing_semicolon_after_character_reference() {
    let error = Err(ParseError::MissingSemicolonAfterCharacterReference);
    assert_eq!(run("&amp"), vec![error.clone(), c('&'), eof()]);
    assert_eq!(run("&#65"), vec![error.clone(), c('A'), eof()]);
    assert_eq!(run("&#x41 "), vec![error.clone(), c('A'), c(' '), eof()]);
    assert_eq!(run("&ampx"), vec![error, c('&'), c('x'), eof()]);
}

#[test]
fn missing_whitespace_after_doctype_keywords() {
    assert_eq!(
        run("<!DOCTYPE html PUBLIC\"a\">"),
        vec![
            Err(ParseError::MissingWhitespaceAfterDoctypePublicKeyword),
            doctype(Some("html"), Some("a"), None, false),
            eof(),
        ]
    );
    assert_eq!(
        run("<!DOCTYPE html PUBLIC'a'>"),
        vec![
            Err(ParseError::MissingWhitespaceAfterDoctypePublicKeyword),
            doctype(Some("html"), Some("a"), None, false),
            eof(),
        ]
    );
    assert_eq!(
        run("<!DOCTYPE html SYSTEM\"a\">"),
        vec![
            Err(ParseError::MissingWhitespaceAfterDoctypeSystemKeyword),
            doctype(Some("html"), None, Some("a"), false),
            eof(),
        ]
    );
    assert_eq!(
        run("<!DOCTYPE html SYSTEM'a'>"),
        vec![
            Err(ParseError::MissingWhitespaceAfterDoctypeSystemKeyword),
            doctype(Some("html"), None, Some("a"), false),
            eof(),
        ]
    );
}

#[test]
fn missing_whitespace_before_doctype_name() {
    assert_eq!(
        run("<!DOCTYPEhtml>"),
        vec![
            Err(ParseError::MissingWhitespaceBeforeDoctypeName),
            doctype(Some("html"), None, None, false),
            eof(),
        ]
    );
}

#[test]
fn missing_whitespace_between_attributes() {
    assert_eq!(
        run("<a b=\"c\"d>"),
        vec![
            Err(ParseError::MissingWhitespaceBetweenAttributes),
            tag(TagKind::Start, "a", false, &[("b", "c"), ("d", "")]),
            eof(),
        ]
    );
}

#[test]
fn missing_whitespace_between_doctype_public_and_system_identifiers() {
    assert_eq!(
        run("<!DOCTYPE html PUBLIC \"a\"\"b\">"),
        vec![
            Err(ParseError::MissingWhitespaceBetweenDoctypePublicAndSystemIdentifiers),
            doctype(Some("html"), Some("a"), Some("b"), false),
            eof(),
        ]
    );
    assert_eq!(
        run("<!DOCTYPE html PUBLIC \"a\"'b'>"),
        vec![
            Err(ParseError::MissingWhitespaceBetweenDoctypePublicAndSystemIdentifiers),
            doctype(Some("html"), Some("a"), Some("b"), false),
            eof(),
        ]
    );
}

#[test]
fn nested_comment() {
    assert_eq!(
        run("<!--a<!--b-->"),
        vec![Err(ParseError::NestedComment), comment("a<!--b"), eof()]
    );
    assert_eq!(
        run("<!--a<!--->"),
        vec![Err(ParseError::NestedComment), comment("a<!-"), eof()]
    );
    assert_eq!(run("<!--a<!-->"), vec![comment("a<!"), eof()]);
}

#[test]
fn noncharacter_character_reference() {
    let error = Err(ParseError::NoncharacterCharacterReference);
    assert_eq!(run("&#xFFFE;"), vec![error.clone(), c('\u{FFFE}'), eof()]);
    assert_eq!(run("&#xFFFF;"), vec![error.clone(), c('\u{FFFF}'), eof()]);
    assert_eq!(run("&#xFDD0;"), vec![error.clone(), c('\u{FDD0}'), eof()]);
    assert_eq!(run("&#xFDEF;"), vec![error.clone(), c('\u{FDEF}'), eof()]);
    assert_eq!(run("&#x10FFFF;"), vec![error.clone(), c('\u{10FFFF}'), eof()]);
    assert_eq!(run("&#x1FFFE;"), vec![error, c('\u{1FFFE}'), eof()]);
    assert_eq!(run("&#xFDCF;&#xFDF0;&#xFFFD;"), vec![
        c('\u{FDCF}'),
        c('\u{FDF0}'),
        c('\u{FFFD}'),
        eof(),
    ]);
}

#[test]
fn null_character_reference() {
    assert_eq!(run("&#0;"), vec![Err(ParseError::NullCharacterReference), c('\u{FFFD}'), eof()]);
    assert_eq!(run("&#x000;"), vec![Err(ParseError::NullCharacterReference), c('\u{FFFD}'), eof()]);
}

#[test]
fn surrogate_character_reference() {
    let error = Err(ParseError::SurrogateCharacterReference);
    assert_eq!(run("&#xD800;"), vec![error.clone(), c('\u{FFFD}'), eof()]);
    assert_eq!(run("&#xDFFF;"), vec![error, c('\u{FFFD}'), eof()]);
    assert_eq!(run("&#xD7FF;&#xE000;"), vec![c('\u{D7FF}'), c('\u{E000}'), eof()]);
}

#[test]
fn unexpected_character_after_doctype_system_identifier() {
    assert_eq!(
        run("<!DOCTYPE html SYSTEM \"a\" x>"),
        vec![
            Err(ParseError::UnexpectedCharacterAfterDoctypeSystemIdentifier),
            doctype(Some("html"), None, Some("a"), false),
            eof(),
        ]
    );
}

#[test]
fn unexpected_character_in_attribute_name() {
    assert_eq!(
        run("<a b\"c'<>"),
        vec![
            Err(ParseError::UnexpectedCharacterInAttributeName),
            Err(ParseError::UnexpectedCharacterInAttributeName),
            Err(ParseError::UnexpectedCharacterInAttributeName),
            tag(TagKind::Start, "a", false, &[("b\"c'<", "")]),
            eof(),
        ]
    );
}

#[test]
fn unexpected_character_in_unquoted_attribute_value() {
    assert_eq!(
        run("<a b=c\"'<=`>"),
        vec![
            Err(ParseError::UnexpectedCharacterInUnquotedAttributeValue),
            Err(ParseError::UnexpectedCharacterInUnquotedAttributeValue),
            Err(ParseError::UnexpectedCharacterInUnquotedAttributeValue),
            Err(ParseError::UnexpectedCharacterInUnquotedAttributeValue),
            Err(ParseError::UnexpectedCharacterInUnquotedAttributeValue),
            tag(TagKind::Start, "a", false, &[("b", "c\"'<=`")]),
            eof(),
        ]
    );
}

#[test]
fn unexpected_equals_sign_before_attribute_name() {
    assert_eq!(
        run("<a =b>"),
        vec![
            Err(ParseError::UnexpectedEqualsSignBeforeAttributeName),
            tag(TagKind::Start, "a", false, &[("=b", "")]),
            eof(),
        ]
    );
    assert_eq!(
        run("<a =>"),
        vec![
            Err(ParseError::UnexpectedEqualsSignBeforeAttributeName),
            tag(TagKind::Start, "a", false, &[("=", "")]),
            eof(),
        ]
    );
}

#[test]
fn unexpected_null_character() {
    assert_eq!(run("\0"), vec![Err(ParseError::UnexpectedNullCharacter), c('\0'), eof()]);
    assert_eq!(
        run("<?\0>"),
        vec![
            Err(ParseError::UnexpectedQuestionMarkInsteadOfTagName),
            Err(ParseError::UnexpectedNullCharacter),
            comment("?\u{FFFD}"),
            eof(),
        ]
    );
}

#[test]
fn unexpected_question_mark_instead_of_tag_name() {
    assert_eq!(
        run("<?xml>"),
        vec![
            Err(ParseError::UnexpectedQuestionMarkInsteadOfTagName),
            comment("?xml"),
            eof(),
        ]
    );
}

#[test]
fn unexpected_solidus_in_tag() {
    assert_eq!(
        run("<a / b>"),
        vec![
            Err(ParseError::UnexpectedSolidusInTag),
            tag(TagKind::Start, "a", false, &[("b", "")]),
            eof(),
        ]
    );
}

#[test]
fn unknown_named_character_reference() {
    assert_eq!(
        run("&foo;"),
        vec![
            c('&'),
            c('f'),
            c('o'),
            c('o'),
            Err(ParseError::UnknownNamedCharacterReference),
            c(';'),
            eof(),
        ]
    );
}
