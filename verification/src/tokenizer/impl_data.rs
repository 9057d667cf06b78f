use vstd::prelude::*;
use crate::tokenizer::error::ParseError;
use crate::tokenizer::machine::{replacement, Machine};
use crate::tokenizer::state::State;
use crate::tokenizer::util::{Codepoint, REPLACEMENT_CHARACTER};
use crate::tokenizer::TokenizerImpl;

verus! {

/// The data state: text between tags. `&` starts a character reference and `<` a tag. NUL
/// is reported and then emitted as it is; every other character is emitted; the end of
/// input ends the output.
pub open spec fn data(m: Machine) -> Machine {
    let m = m.consume();
    match m.current {
        Codepoint::Scalar('&') => m.set_return_state(State::Data).switch_to(
            State::CharacterReference,
        ),
        Codepoint::Scalar('<') => m.switch_to(State::TagOpen),
        Codepoint::Scalar('\0') => m.emit_parse_error(
            ParseError::UnexpectedNullCharacter,
        ).emit_current_input_character(),
        Codepoint::EndOfFile => m.emit_eof(),
        Codepoint::Scalar(_) => m.emit_current_input_character(),
    }
}

/// The RCDATA state: text in which no tag starts but character references count. `<` may
/// start an end tag. NUL is reported and replaced.
pub open spec fn rcdata(m: Machine) -> Machine {
    let m = m.consume();
    match m.current {
        Codepoint::Scalar('&') => m.set_return_state(State::RCDATA).switch_to(
            State::CharacterReference,
        ),
        Codepoint::Scalar('<') => m.switch_to(State::RCDATALessThanSign),
        Codepoint::Scalar('\0') => m.emit_parse_error(
            ParseError::UnexpectedNullCharacter,
        ).emit_character(replacement()),
        Codepoint::EndOfFile => m.emit_eof(),
        Codepoint::Scalar(_) => m.emit_current_input_character(),
    }
}

/// A state of raw text: every character is emitted, but `<` leads to `less_than_sign` and
/// NUL is reported and replaced.
pub open spec fn raw_text(m: Machine, less_than_sign: State) -> Machine {
    let m = m.consume();
    match m.current {
        Codepoint::Scalar('<') => m.switch_to(less_than_sign),
        Codepoint::Scalar('\0') => m.emit_parse_error(
            ParseError::UnexpectedNullCharacter,
        ).emit_character(replacement()),
        Codepoint::EndOfFile => m.emit_eof(),
        Codepoint::Scalar(_) => m.emit_current_input_character(),
    }
}

/// The RAWTEXT state.
pub open spec fn rawtext(m: Machine) -> Machine {
    raw_text(m, State::RAWTEXTLessThanSign)
}

/// The script data state.
pub open spec fn script_data(m: Machine) -> Machine {
    raw_text(m, State::ScriptDataLessThanSign)
}

/// The PLAINTEXT state: everything up to the end of input is text. NUL is reported and
/// replaced.
pub open spec fn plaintext(m: Machine) -> Machine {
    let m = m.consume();
    match m.current {
        Codepoint::Scalar('\0') => m.emit_parse_error(
            ParseError::UnexpectedNullCharacter,
        ).emit_character(replacement()),
        Codepoint::EndOfFile => m.emit_eof(),
        Codepoint::Scalar(_) => m.emit_current_input_character(),
    }
}

/// Whether `state` is one of the states whose transitions stand in this file.
pub open spec fn covers(state: State) -> bool {
    matches!(
        state,
        State::Data | State::RCDATA | State::RAWTEXT | State::ScriptData | State::PLAINTEXT
    )
}

/// The transition of the state that is active, where it is one of the text states. In any other
/// state the machine stays as it is.
#[verifier::opaque]
pub open spec fn transition(m: Machine) -> Machine {
    match m.state {
        State::Data => data(m),
        State::RCDATA => rcdata(m),
        State::RAWTEXT => rawtext(m),
        State::ScriptData => script_data(m),
        State::PLAINTEXT => plaintext(m),
        _ => m,
    }
}

impl TokenizerImpl {
    pub(crate) fn handle_data(&mut self)
        ensures
            final(self)@ == data(old(self)@),
    {
        let codepoint = self.next_input_character();
        match codepoint {
            Codepoint::Scalar('&') => {
                self.set_return_state(State::Data);
                self.switch_to(State::CharacterReference);
            },
            Codepoint::Scalar('<') => {
                self.switch_to(State::TagOpen);
            },
            Codepoint::Scalar('\0') => {
                self.emit_parse_error(ParseError::UnexpectedNullCharacter);
                self.emit_current_input_character();
            },
            Codepoint::EndOfFile => {
                self.emit_eof();
            },
            Codepoint::Scalar(_) => {
                self.emit_current_input_character();
            },
        }
    }
    pub(crate) fn handle_rcdata(&mut self)
        ensures
            final(self)@ == rcdata(old(self)@),
    {
        let codepoint = self.next_input_character();
        match codepoint {
            Codepoint::Scalar('&') => {
                self.set_return_state(State::RCDATA);
                self.switch_to(State::CharacterReference);
            },
            Codepoint::Scalar('<') => {
                self.switch_to(State::RCDATALessThanSign);
            },
            Codepoint::Scalar('\0') => {
                self.emit_parse_error(ParseError::UnexpectedNullCharacter);
                self.emit_character(REPLACEMENT_CHARACTER);
            },
            Codepoint::EndOfFile => {
                self.emit_eof();
            },
            Codepoint::Scalar(_) => {
                self.emit_current_input_character();
            },
        }
    }

    fn handle_raw_text(&mut self, less_than_sign: State)
        ensures
            final(self)@ == raw_text(old(self)@, less_than_sign),
    {
        let codepoint = self.next_input_character();
        match codepoint {
            Codepoint::Scalar('<') => {
                self.switch_to(less_than_sign);
            },
            Codepoint::Scalar('\0') => {
                self.emit_parse_error(ParseError::UnexpectedNullCharacter);
                self.emit_character(REPLACEMENT_CHARACTER);
            },
            Codepoint::EndOfFile => {
                self.emit_eof();
            },
            Codepoint::Scalar(_) => {
                self.emit_current_input_character();
            },
        }
    }

    pub(crate) fn handle_rawtext(&mut self)
        ensures
            final(self)@ == rawtext(old(self)@),
    {
        self.handle_raw_text(State::RAWTEXTLessThanSign);
    }

    pub(crate) fn handle_script_data(&mut self)
        ensures
            final(self)@ == script_data(old(self)@),
    {
        self.handle_raw_text(State::ScriptDataLessThanSign);
    }

    pub(crate) fn handle_plaintext(&mut self)
        ensures
            final(self)@ == plaintext(old(self)@),
    {
        let codepoint = self.next_input_character();
        match codepoint {
            Codepoint::Scalar('\0') => {
                self.emit_parse_error(ParseError::UnexpectedNullCharacter);
                self.emit_character(REPLACEMENT_CHARACTER);
            },
            Codepoint::EndOfFile => {
                self.emit_eof();
            },
            Codepoint::Scalar(_) => {
                self.emit_current_input_character();
            },
        }
    }
}

} // verus!
