use vstd::prelude::*;
use crate::tokenizer::error::ParseError;
use crate::tokenizer::machine::{replacement, Machine};
use crate::tokenizer::state::State;
use crate::tokenizer::token::TagKind;
use crate::tokenizer::util::{
    is_alpha,
    is_ascii_alphabetic,
    is_ascii_uppercase,
    is_whitespace,
    to_ascii_lowercase,
    to_lower,
    Codepoint,
    REPLACEMENT_CHARACTER,
};
use crate::tokenizer::TokenizerImpl;

verus! {

/// The tag open state, after `<`. A letter starts a start tag, `/` an end tag and `!` a
/// markup declaration. `?` starts a bogus comment. Anything else was no tag: the `<` is
/// emitted as text.
pub open spec fn tag_open(m: Machine) -> Machine {
    let m = m.consume();
    match m.current {
        Codepoint::Scalar('!') => m.switch_to(State::MarkupDeclarationOpen),
        Codepoint::Scalar('/') => m.switch_to(State::EndTagOpen),
        Codepoint::Scalar('?') => m.emit_parse_error(
            ParseError::UnexpectedQuestionMarkInsteadOfTagName,
        ).create_new_comment_token().reconsume_in(State::BogusComment),
        Codepoint::EndOfFile => m.emit_parse_error(ParseError::EofBeforeTagName).emit_character(
            '<',
        ).emit_eof(),
        Codepoint::Scalar(ch) => if is_alpha(ch) {
            m.create_new_tag_token(TagKind::Start).reconsume_in(State::TagName)
        } else {
            m.emit_parse_error(ParseError::InvalidFirstCharacterOfTagName).emit_character(
                '<',
            ).reconsume_in(State::Data)
        },
    }
}

/// The end tag open state, after `</`. A letter starts an end tag; `>` is reported and
/// dropped; anything else starts a bogus comment.
pub open spec fn end_tag_open(m: Machine) -> Machine {
    let m = m.consume();
    match m.current {
        Codepoint::Scalar('>') => m.emit_parse_error(ParseError::MissingEndTagName).switch_to(
            State::Data,
        ),
        Codepoint::EndOfFile => m.emit_parse_error(ParseError::EofBeforeTagName).emit_character(
            '<',
        ).emit_character('/').emit_eof(),
        Codepoint::Scalar(ch) => if is_alpha(ch) {
            m.create_new_tag_token(TagKind::End).reconsume_in(State::TagName)
        } else {
            m.emit_parse_error(
                ParseError::InvalidFirstCharacterOfTagName,
            ).create_new_comment_token().reconsume_in(State::BogusComment)
        },
    }
}

/// The tag name state. The name takes every character up to white space, `/` or `>`, with
/// ASCII upper-case letters folded to lower case and NUL replaced. At the end of input the
/// tag is dropped.
pub open spec fn tag_name(m: Machine) -> Machine {
    let m = m.consume();
    match m.current {
        Codepoint::Scalar('/') => m.switch_to(State::SelfClosingStartTag),
        Codepoint::Scalar('>') => m.switch_to(State::Data).emit_current_tag_token(),
        Codepoint::Scalar('\0') => m.emit_parse_error(
            ParseError::UnexpectedNullCharacter,
        ).push_tag_name(replacement()),
        Codepoint::EndOfFile => m.emit_parse_error(ParseError::EofInTag).emit_eof(),
        Codepoint::Scalar(ch) => if is_whitespace(ch) {
            m.switch_to(State::BeforeAttributeName)
        } else {
            m.push_tag_name(to_lower(ch))
        },
    }
}

/// Whether `state` is one of the states whose transitions stand in this file.
pub open spec fn covers(state: State) -> bool {
    matches!(
        state,
        State::TagOpen | State::EndTagOpen | State::TagName
    )
}

/// The transition of the state that is active, where it is one of the states that open and
/// name a tag. In any other state the machine stays as it is.
#[verifier::opaque]
pub open spec fn transition(m: Machine) -> Machine {
    match m.state {
        State::TagOpen => tag_open(m),
        State::EndTagOpen => end_tag_open(m),
        State::TagName => tag_name(m),
        _ => m,
    }
}

impl TokenizerImpl {
    pub(crate) fn handle_tag_open(&mut self)
        ensures
            final(self)@ == tag_open(old(self)@),
    {
        let codepoint = self.next_input_character();
        match codepoint {
            Codepoint::Scalar('!') => {
                self.switch_to(State::MarkupDeclarationOpen);
            },
            Codepoint::Scalar('/') => {
                self.switch_to(State::EndTagOpen);
            },
            Codepoint::Scalar(ch) if is_ascii_alphabetic(ch) => {
                self.create_new_start_tag_token();
                self.reconsume_in(State::TagName);
            },
            Codepoint::Scalar('?') => {
                self.emit_parse_error(ParseError::UnexpectedQuestionMarkInsteadOfTagName);
                self.create_new_comment_token();
                self.reconsume_in(State::BogusComment);
            },
            Codepoint::EndOfFile => {
                self.emit_parse_error(ParseError::EofBeforeTagName);
                self.emit_character('<');
                self.emit_eof();
            },
            Codepoint::Scalar(_) => {
                self.emit_parse_error(ParseError::InvalidFirstCharacterOfTagName);
                self.emit_character('<');
                self.reconsume_in(State::Data);
            },
        }
    }

    pub(crate) fn handle_end_tag_open(&mut self)
        ensures
            final(self)@ == end_tag_open(old(self)@),
    {
        let codepoint = self.next_input_character();
        match codepoint {
            Codepoint::Scalar(ch) if is_ascii_alphabetic(ch) => {
                self.create_new_end_tag_token();
                self.reconsume_in(State::TagName);
            },
            Codepoint::Scalar('>') => {
                self.emit_parse_error(ParseError::MissingEndTagName);
                self.switch_to(State::Data);
            },
            Codepoint::EndOfFile => {
                self.emit_parse_error(ParseError::EofBeforeTagName);
                self.emit_character('<');
                self.emit_character('/');
                self.emit_eof();
            },
            Codepoint::Scalar(_) => {
                self.emit_parse_error(ParseError::InvalidFirstCharacterOfTagName);
                self.create_new_comment_token();
                self.reconsume_in(State::BogusComment);
            },
        }
    }

    pub(crate) fn handle_tag_name(&mut self)
        ensures
            final(self)@ == tag_name(old(self)@),
    {
        let codepoint = self.next_input_character();
        match codepoint {
            Codepoint::Scalar('\t') | Codepoint::Scalar('\n') | Codepoint::Scalar('\u{000C}')
            | Codepoint::Scalar(' ') => {
                self.switch_to(State::BeforeAttributeName);
            },
            Codepoint::Scalar('/') => {
                self.switch_to(State::SelfClosingStartTag);
            },
            Codepoint::Scalar('>') => {
                self.switch_to(State::Data);
                self.emit_current_tag_token();
            },
            Codepoint::Scalar(ch) if is_ascii_uppercase(ch) => {
                self.push_tag_name(to_ascii_lowercase(ch));
            },
            Codepoint::Scalar('\0') => {
                self.emit_parse_error(ParseError::UnexpectedNullCharacter);
                self.push_tag_name(REPLACEMENT_CHARACTER);
            },
            Codepoint::EndOfFile => {
                self.emit_parse_error(ParseError::EofInTag);
                self.emit_eof();
            },
            Codepoint::Scalar(ch) => {
                self.push_tag_name(ch);
            },
        }
    }
}

} // verus!
