use vstd::prelude::*;
use crate::tokenizer::error::ParseError;
use crate::tokenizer::machine::{replacement, Machine};
use crate::tokenizer::state::State;
use crate::tokenizer::util::{
    is_ascii_uppercase,
    is_whitespace,
    to_ascii_lowercase,
    to_lower,
    Codepoint,
    REPLACEMENT_CHARACTER,
};
use crate::tokenizer::TokenizerImpl;

verus! {

/// Before an attribute's name. White space is skipped. `/`, `>` and the end of input are
/// left to the state after an attribute's name. `=` is reported and becomes the first
/// character of a name. Anything else starts a name.
pub open spec fn before_attribute_name(m: Machine) -> Machine {
    let m = m.consume();
    match m.current {
        Codepoint::Scalar('/') | Codepoint::Scalar('>') | Codepoint::EndOfFile => m.reconsume_in(
            State::AfterAttributeName,
        ),
        Codepoint::Scalar('=') => m.emit_parse_error(
            ParseError::UnexpectedEqualsSignBeforeAttributeName,
        ).start_attribute().push_attribute_name('=').switch_to(State::AttributeName),
        Codepoint::Scalar(ch) => if is_whitespace(ch) {
            m
        } else {
            m.start_attribute().reconsume_in(State::AttributeName)
        },
    }
}

/// An attribute's name: every character up to white space, `/`, `>` or `=`, with ASCII
/// upper-case letters folded to lower case and NUL replaced. A quote or `<` is reported and
/// kept.
pub open spec fn attribute_name(m: Machine) -> Machine {
    let m = m.consume();
    match m.current {
        Codepoint::Scalar('/') | Codepoint::Scalar('>') | Codepoint::EndOfFile => m.reconsume_in(
            State::AfterAttributeName,
        ),
        Codepoint::Scalar('=') => m.switch_to(State::BeforeAttributeValue),
        Codepoint::Scalar('\0') => m.emit_parse_error(
            ParseError::UnexpectedNullCharacter,
        ).push_attribute_name(replacement()),
        Codepoint::Scalar(ch) => if is_whitespace(ch) {
            m.reconsume_in(State::AfterAttributeName)
        } else if ch == '"' || ch == '\'' || ch == '<' {
            m.emit_parse_error(ParseError::UnexpectedCharacterInAttributeName).push_attribute_name(
                ch,
            )
        } else {
            m.push_attribute_name(to_lower(ch))
        },
    }
}

/// After an attribute's name. White space is skipped; `=` leads to the value; `/` and `>`
/// end the tag; anything else starts the next attribute.
pub open spec fn after_attribute_name(m: Machine) -> Machine {
    let m = m.consume();
    match m.current {
        Codepoint::Scalar('/') => m.switch_to(State::SelfClosingStartTag),
        Codepoint::Scalar('=') => m.switch_to(State::BeforeAttributeValue),
        Codepoint::Scalar('>') => m.switch_to(State::Data).emit_current_tag_token(),
        Codepoint::EndOfFile => m.emit_parse_error(ParseError::EofInTag).emit_eof(),
        Codepoint::Scalar(ch) => if is_whitespace(ch) {
            m
        } else {
            m.start_attribute().reconsume_in(State::AttributeName)
        },
    }
}

/// Before an attribute's value. White space is skipped; a quote opens a quoted value; `>`
/// is reported and ends the tag; anything else begins an unquoted value.
pub open spec fn before_attribute_value(m: Machine) -> Machine {
    let m = m.consume();
    match m.current {
        Codepoint::Scalar('"') => m.switch_to(State::AttributeValueDoubleQuoted),
        Codepoint::Scalar('\'') => m.switch_to(State::AttributeValueSingleQuoted),
        Codepoint::Scalar('>') => m.emit_parse_error(ParseError::MissingAttributeValue).switch_to(
            State::Data,
        ).emit_current_tag_token(),
        Codepoint::Scalar(ch) => if is_whitespace(ch) {
            m
        } else {
            m.reconsume_in(State::AttributeValueUnquoted)
        },
        Codepoint::EndOfFile => m.reconsume_in(State::AttributeValueUnquoted),
    }
}

/// A quoted attribute value, read in `state` up to the closing `quote`. `&` starts a
/// character reference. NUL is reported and replaced.
pub open spec fn attribute_value_quoted(m: Machine, quote: char, state: State) -> Machine {
    let m = m.consume();
    match m.current {
        Codepoint::Scalar('&') => m.set_return_state(state).switch_to(State::CharacterReference),
        Codepoint::Scalar('\0') => m.emit_parse_error(
            ParseError::UnexpectedNullCharacter,
        ).push_attribute_value(replacement()),
        Codepoint::EndOfFile => m.emit_parse_error(ParseError::EofInTag).emit_eof(),
        Codepoint::Scalar(ch) => if ch == quote {
            m.switch_to(State::AfterAttributeValueQuoted)
        } else {
            m.push_attribute_value(ch)
        },
    }
}

pub open spec fn attribute_value_double_quoted(m: Machine) -> Machine {
    attribute_value_quoted(m, '"', State::AttributeValueDoubleQuoted)
}

pub open spec fn attribute_value_single_quoted(m: Machine) -> Machine {
    attribute_value_quoted(m, '\'', State::AttributeValueSingleQuoted)
}

/// An unquoted attribute value: every character up to white space or `>`. `&` starts a
/// character reference. A quote, `<`, `=` or a backtick is reported and kept. NUL is
/// reported and replaced.
pub open spec fn attribute_value_unquoted(m: Machine) -> Machine {
    let m = m.consume();
    match m.current {
        Codepoint::Scalar('&') => m.set_return_state(State::AttributeValueUnquoted).switch_to(
            State::CharacterReference,
        ),
        Codepoint::Scalar('>') => m.switch_to(State::Data).emit_current_tag_token(),
        Codepoint::Scalar('\0') => m.emit_parse_error(
            ParseError::UnexpectedNullCharacter,
        ).push_attribute_value(replacement()),
        Codepoint::EndOfFile => m.emit_parse_error(ParseError::EofInTag).emit_eof(),
        Codepoint::Scalar(ch) => if is_whitespace(ch) {
            m.switch_to(State::BeforeAttributeName)
        } else if ch == '"' || ch == '\'' || ch == '<' || ch == '=' || ch == '`' {
            m.emit_parse_error(
                ParseError::UnexpectedCharacterInUnquotedAttributeValue,
            ).push_attribute_value(ch)
        } else {
            m.push_attribute_value(ch)
        },
    }
}

/// After a quoted attribute value. White space, `/` or `>` is expected; anything else is
/// reported and read again as the start of the next attribute.
pub open spec fn after_attribute_value_quoted(m: Machine) -> Machine {
    let m = m.consume();
    match m.current {
        Codepoint::Scalar('/') => m.switch_to(State::SelfClosingStartTag),
        Codepoint::Scalar('>') => m.switch_to(State::Data).emit_current_tag_token(),
        Codepoint::EndOfFile => m.emit_parse_error(ParseError::EofInTag).emit_eof(),
        Codepoint::Scalar(ch) => if is_whitespace(ch) {
            m.switch_to(State::BeforeAttributeName)
        } else {
            m.emit_parse_error(ParseError::MissingWhitespaceBetweenAttributes).reconsume_in(
                State::BeforeAttributeName,
            )
        },
    }
}

/// After `/` inside a tag. `>` marks the tag as self-closing and ends it; anything else is
/// reported and read again as the start of an attribute.
pub open spec fn self_closing_start_tag(m: Machine) -> Machine {
    let m = m.consume();
    match m.current {
        Codepoint::Scalar('>') => m.set_self_closing().switch_to(
            State::Data,
        ).emit_current_tag_token(),
        Codepoint::EndOfFile => m.emit_parse_error(ParseError::EofInTag).emit_eof(),
        Codepoint::Scalar(_) => m.emit_parse_error(ParseError::UnexpectedSolidusInTag).reconsume_in(
            State::BeforeAttributeName,
        ),
    }
}

/// Whether `state` is one of the states whose transitions stand in this file.
pub open spec fn covers(state: State) -> bool {
    matches!(
        state,
        State::BeforeAttributeName | State::AttributeName | State::AfterAttributeName
        | State::BeforeAttributeValue | State::AttributeValueDoubleQuoted
        | State::AttributeValueSingleQuoted | State::AttributeValueUnquoted
        | State::AfterAttributeValueQuoted | State::SelfClosingStartTag
    )
}

/// The transition of the state that is active, where it is one of the states that read
/// attributes. In any other state the machine stays as it is.
#[verifier::opaque]
pub open spec fn transition(m: Machine) -> Machine {
    match m.state {
        State::BeforeAttributeName => before_attribute_name(m),
        State::AttributeName => attribute_name(m),
        State::AfterAttributeName => after_attribute_name(m),
        State::BeforeAttributeValue => before_attribute_value(m),
        State::AttributeValueDoubleQuoted => attribute_value_double_quoted(m),
        State::AttributeValueSingleQuoted => attribute_value_single_quoted(m),
        State::AttributeValueUnquoted => attribute_value_unquoted(m),
        State::AfterAttributeValueQuoted => after_attribute_value_quoted(m),
        State::SelfClosingStartTag => self_closing_start_tag(m),
        _ => m,
    }
}

impl TokenizerImpl {
    pub(crate) fn handle_before_attribute_name(&mut self)
        ensures
            final(self)@ == before_attribute_name(old(self)@),
    {
        let codepoint = self.next_input_character();
        match codepoint {
            Codepoint::Scalar('\t') | Codepoint::Scalar('\n') | Codepoint::Scalar('\u{000C}')
            | Codepoint::Scalar(' ') => {
                // ignore the character
            },
            Codepoint::Scalar('/') | Codepoint::Scalar('>') | Codepoint::EndOfFile => {
                self.reconsume_in(State::AfterAttributeName);
            },
            Codepoint::Scalar('=') => {
                self.emit_parse_error(ParseError::UnexpectedEqualsSignBeforeAttributeName);
                self.start_attribute();
                self.push_attribute_name('=');
                self.switch_to(State::AttributeName);
            },
            Codepoint::Scalar(_) => {
                self.start_attribute();
                self.reconsume_in(State::AttributeName);
            },
        }
    }

    pub(crate) fn handle_attribute_name(&mut self)
        ensures
            final(self)@ == attribute_name(old(self)@),
    {
        let codepoint = self.next_input_character();
        match codepoint {
            Codepoint::Scalar('\t') | Codepoint::Scalar('\n') | Codepoint::Scalar('\u{000C}')
            | Codepoint::Scalar(' ') | Codepoint::Scalar('/') | Codepoint::Scalar('>')
            | Codepoint::EndOfFile => {
                self.reconsume_in(State::AfterAttributeName);
            },
            Codepoint::Scalar('=') => {
                self.switch_to(State::BeforeAttributeValue);
            },
            Codepoint::Scalar(ch) if is_ascii_uppercase(ch) => {
                self.push_attribute_name(to_ascii_lowercase(ch));
            },
            Codepoint::Scalar('\0') => {
                self.emit_parse_error(ParseError::UnexpectedNullCharacter);
                self.push_attribute_name(REPLACEMENT_CHARACTER);
            },
            Codepoint::Scalar('"') | Codepoint::Scalar('\'') | Codepoint::Scalar('<') => {
                self.emit_parse_error(ParseError::UnexpectedCharacterInAttributeName);
                self.push_current_to_attribute_name();
            },
            Codepoint::Scalar(ch) => {
                self.push_attribute_name(ch);
            },
        }
    }

    /// Adds the character read last to the name of the attribute being read.
    fn push_current_to_attribute_name(&mut self)
        ensures
            final(self)@ == (match old(self)@.current {
                Codepoint::Scalar(ch) => old(self)@.push_attribute_name(ch),
                Codepoint::EndOfFile => old(self)@,
            }),
    {
        match self.current_input_character {
            Codepoint::Scalar(ch) => self.push_attribute_name(ch),
            Codepoint::EndOfFile => {},
        }
    }

    pub(crate) fn handle_after_attribute_name(&mut self)
        ensures
            final(self)@ == after_attribute_name(old(self)@),
    {
        let codepoint = self.next_input_character();
        match codepoint {
            Codepoint::Scalar('\t') | Codepoint::Scalar('\n') | Codepoint::Scalar('\u{000C}')
            | Codepoint::Scalar(' ') => {
                // ignore the character
            },
            Codepoint::Scalar('/') => {
                self.switch_to(State::SelfClosingStartTag);
            },
            Codepoint::Scalar('=') => {
                self.switch_to(State::BeforeAttributeValue);
            },
            Codepoint::Scalar('>') => {
                self.switch_to(State::Data);
                self.emit_current_tag_token();
            },
            Codepoint::EndOfFile => {
                self.emit_parse_error(ParseError::EofInTag);
                self.emit_eof();
            },
            Codepoint::Scalar(_) => {
                self.start_attribute();
                self.reconsume_in(State::AttributeName);
            },
        }
    }

    pub(crate) fn handle_before_attribute_value(&mut self)
        ensures
            final(self)@ == before_attribute_value(old(self)@),
    {
        let codepoint = self.next_input_character();
        match codepoint {
            Codepoint::Scalar('\t') | Codepoint::Scalar('\n') | Codepoint::Scalar('\u{000C}')
            | Codepoint::Scalar(' ') => {
                // ignore the character
            },
            Codepoint::Scalar('"') => {
                self.switch_to(State::AttributeValueDoubleQuoted);
            },
            Codepoint::Scalar('\'') => {
                self.switch_to(State::AttributeValueSingleQuoted);
            },
            Codepoint::Scalar('>') => {
                self.emit_parse_error(ParseError::MissingAttributeValue);
                self.switch_to(State::Data);
                self.emit_current_tag_token();
            },
            _ => {
                self.reconsume_in(State::AttributeValueUnquoted);
            },
        }
    }

    fn handle_attribute_value_quoted(&mut self, quote: char, state: State)
        requires
            quote != '&',
            quote != '\0',
        ensures
            final(self)@ == attribute_value_quoted(old(self)@, quote, state),
    {
        let codepoint = self.next_input_character();
        match codepoint {
            Codepoint::Scalar(ch) if ch == quote => {
                self.switch_to(State::AfterAttributeValueQuoted);
            },
            Codepoint::Scalar('&') => {
                self.set_return_state(state);
                self.switch_to(State::CharacterReference);
            },
            Codepoint::Scalar('\0') => {
                self.emit_parse_error(ParseError::UnexpectedNullCharacter);
                self.push_attribute_value(REPLACEMENT_CHARACTER);
            },
            Codepoint::EndOfFile => {
                self.emit_parse_error(ParseError::EofInTag);
                self.emit_eof();
            },
            Codepoint::Scalar(ch) => {
                self.push_attribute_value(ch);
            },
        }
    }

    pub(crate) fn handle_attribute_value_double_quoted(&mut self)
        ensures
            final(self)@ == attribute_value_double_quoted(old(self)@),
    {
        self.handle_attribute_value_quoted('"', State::AttributeValueDoubleQuoted);
    }

    pub(crate) fn handle_attribute_value_single_quoted(&mut self)
        ensures
            final(self)@ == attribute_value_single_quoted(old(self)@),
    {
        self.handle_attribute_value_quoted('\'', State::AttributeValueSingleQuoted);
    }

    pub(crate) fn handle_attribute_value_unquoted(&mut self)
        ensures
            final(self)@ == attribute_value_unquoted(old(self)@),
    {
        let codepoint = self.next_input_character();
        match codepoint {
            Codepoint::Scalar('\t') | Codepoint::Scalar('\n') | Codepoint::Scalar('\u{000C}')
            | Codepoint::Scalar(' ') => {
                self.switch_to(State::BeforeAttributeName);
            },
            Codepoint::Scalar('&') => {
                self.set_return_state(State::AttributeValueUnquoted);
                self.switch_to(State::CharacterReference);
            },
            Codepoint::Scalar('>') => {
                self.switch_to(State::Data);
                self.emit_current_tag_token();
            },
            Codepoint::Scalar('\0') => {
                self.emit_parse_error(ParseError::UnexpectedNullCharacter);
                self.push_attribute_value(REPLACEMENT_CHARACTER);
            },
            Codepoint::Scalar('"') | Codepoint::Scalar('\'') | Codepoint::Scalar('<')
            | Codepoint::Scalar('=') | Codepoint::Scalar('`') => {
                self.emit_parse_error(ParseError::UnexpectedCharacterInUnquotedAttributeValue);
                self.push_current_to_attribute_value();
            },
            Codepoint::EndOfFile => {
                self.emit_parse_error(ParseError::EofInTag);
                self.emit_eof();
            },
            Codepoint::Scalar(ch) => {
                self.push_attribute_value(ch);
            },
        }
    }

    /// Adds the character read last to the value of the attribute being read.
    pub(crate) fn push_current_to_attribute_value(&mut self)
        ensures
            final(self)@ == (match old(self)@.current {
                Codepoint::Scalar(ch) => old(self)@.push_attribute_value(ch),
                Codepoint::EndOfFile => old(self)@,
            }),
    {
        match self.current_input_character {
            Codepoint::Scalar(ch) => self.push_attribute_value(ch),
            Codepoint::EndOfFile => {},
        }
    }

    pub(crate) fn handle_after_attribute_value_quoted(&mut self)
        ensures
            final(self)@ == after_attribute_value_quoted(old(self)@),
    {
        let codepoint = self.next_input_character();
        match codepoint {
            Codepoint::Scalar('\t') | Codepoint::Scalar('\n') | Codepoint::Scalar('\u{000C}')
            | Codepoint::Scalar(' ') => {
                self.switch_to(State::BeforeAttributeName);
            },
            Codepoint::Scalar('/') => {
                self.switch_to(State::SelfClosingStartTag);
            },
            Codepoint::Scalar('>') => {
                self.switch_to(State::Data);
                self.emit_current_tag_token();
            },
            Codepoint::EndOfFile => {
                self.emit_parse_error(ParseError::EofInTag);
                self.emit_eof();
            },
            Codepoint::Scalar(_) => {
                self.emit_parse_error(ParseError::MissingWhitespaceBetweenAttributes);
                self.reconsume_in(State::BeforeAttributeName);
            },
        }
    }

    pub(crate) fn handle_self_closing_start_tag(&mut self)
        ensures
            final(self)@ == self_closing_start_tag(old(self)@),
    {
        let codepoint = self.next_input_character();
        match codepoint {
            Codepoint::Scalar('>') => {
                self.set_self_closing();
                self.switch_to(State::Data);
                self.emit_current_tag_token();
            },
            Codepoint::EndOfFile => {
                self.emit_parse_error(ParseError::EofInTag);
                self.emit_eof();
            },
            Codepoint::Scalar(_) => {
                self.emit_parse_error(ParseError::UnexpectedSolidusInTag);
                self.reconsume_in(State::BeforeAttributeName);
            },
        }
    }
}

} // verus!
