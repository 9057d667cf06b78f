use html_tokenizer::tokenizer::error::ParseError;
use html_tokenizer::tokenizer::error::ParseError::NestedComment;
use html_tokenizer::tokenizer::state::State;
use html_tokenizer::tokenizer::Token::{Comment, Doctype, EndOfFile, Tag};
use html_tokenizer::tokenizer::{Attributes, TagKind, Token, Tokenizer, TokenizerImpl};

struct Collected {
    tokens: Vec<Token>,
    parse_errors: Vec<ParseError>,
}

fn create_and_exec_tokenizer(input: &str) -> (TokenizerImpl, Collected) {
    let mut tokenizer = TokenizerImpl::new(input.into());
    let mut output = Collected { tokens: Vec::new(), parse_errors: Vec::new() };
    while let Some(item) = tokenizer.next() {
        match item {
            Ok(token) => output.tokens.push(token),
            Err(error) => output.parse_errors.push(error),
        }
    }
    (tokenizer, output)
}

#[test]
fn empty_document() {
    let input = "";
    let (tokenizer, actual) = create_and_exec_tokenizer(input);

    assert_eq!(actual.tokens, &[EndOfFile]);
    assert_eq!(actual.parse_errors, &[]);
    assert_eq!(tokenizer.state(), State::Data);
}

#[test]
fn empty_html_tags() {
    let input = "<html></html>";
    let (tokenizer, actual) = create_and_exec_tokenizer(input);

    let expected_tokens = [
        Tag {
            kind: TagKind::Start,
            tag_name: String::from("html"),
            self_closing: false,
            attributes: Attributes::new(),
        },
        Tag {
            kind: TagKind::End,
            tag_name: String::from("html"),
            self_closing: false,
            attributes: Attributes::new(),
        },
        EndOfFile,
    ];
    assert_eq!(actual.tokens, expected_tokens);
    assert_eq!(actual.parse_errors, &[]);
    assert_eq!(tokenizer.state(), State::Data);
}

#[test]
fn dtd_less_doctype_decl() {
    let input = "<!DOCTYPE html>";
    let (tokenizer, actual) = create_and_exec_tokenizer(input);

    let expected_tokens = [
        Doctype {
            name: Some(String::from("html")),
            public_identifier: None,
            system_identifier: None,
            force_quirks: false,
        },
        EndOfFile,
    ];
    assert_eq!(actual.tokens, expected_tokens);
    assert_eq!(actual.parse_errors, &[]);
    assert_eq!(tokenizer.state(), State::Data);
}

#[test]
fn doctype_decl_with_legacy_public_identifier() {
    let input = "<!DOCTYPE html PUBLIC \"my 'public' identifier\">";
    let (tokenizer, actual) = create_and_exec_tokenizer(input);

    let expected_tokens = [
        Doctype {
            name: Some(String::from("html")),
            public_identifier: Some(String::from("my 'public' identifier")),
            system_identifier: None,
            force_quirks: false,
        },
        EndOfFile,
    ];
    assert_eq!(actual.tokens, expected_tokens);
    assert_eq!(actual.parse_errors, &[]);
    assert_eq!(tokenizer.state(), State::Data);
}

#[test]
fn doctype_decl_with_legacy_system_identifier() {
    let input = "<!DOCTYPE html SYSTEM \"my 'system' identifier\">";
    let (tokenizer, actual) = create_and_exec_tokenizer(input);

    let expected_tokens = [
        Doctype {
            name: Some(String::from("html")),
            public_identifier: None,
            system_identifier: Some(String::from("my 'system' identifier")),
            force_quirks: false,
        },
        EndOfFile,
    ];
    assert_eq!(actual.tokens, expected_tokens);
    assert_eq!(actual.parse_errors, &[]);
    assert_eq!(tokenizer.state(), State::Data);
}

#[test]
fn doctype_decl_with_legacy_public_and_system_identifiers() {
    let input = "<!DOCTYPE html PUBLIC \"my 'public' identifier\" \"my 'system' identifier\">";
    let (tokenizer, actual) = create_and_exec_tokenizer(input);

    let expected_tokens = [
        Doctype {
            name: Some(String::from("html")),
            public_identifier: Some(String::from("my 'public' identifier")),
            system_identifier: Some(String::from("my 'system' identifier")),
            force_quirks: false,
        },
        EndOfFile,
    ];
    assert_eq!(actual.tokens, expected_tokens);
    assert_eq!(actual.parse_errors, &[]);
    assert_eq!(tokenizer.state(), State::Data);
}

#[test]
fn comment() {
    let input = "<!-- This - is -- a -> comment! -->";
    let (tokenizer, actual) = create_and_exec_tokenizer(input);

    let expected_tokens = [
        Comment {
            data: String::from(" This - is -- a -> comment! "),
        },
        EndOfFile,
    ];
    assert_eq!(actual.tokens, expected_tokens);
    assert_eq!(actual.parse_errors, &[]);
    assert_eq!(tokenizer.state(), State::Data);
}

#[test]
fn nested_comment_parse_error() {
    let input = "<!-- This is a <!-- nested comment -->";
    let (tokenizer, actual) = create_and_exec_tokenizer(input);

    let expected_tokens = [
        Comment {
            data: String::from(" This is a <!-- nested comment "),
        },
        EndOfFile,
    ];
    assert_eq!(actual.tokens, expected_tokens);
    assert_eq!(actual.parse_errors, &[NestedComment]);
    assert_eq!(tokenizer.state(), State::Data);
}
