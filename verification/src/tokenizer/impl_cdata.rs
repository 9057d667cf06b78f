use vstd::prelude::*;
use crate::tokenizer::error::ParseError;
use crate::tokenizer::machine::Machine;
use crate::tokenizer::state::State;
use crate::tokenizer::util::Codepoint;
use crate::tokenizer::TokenizerImpl;

verus! {

/// Inside a CDATA section: every character is emitted as it is, NUL too. `]` may begin the
/// end of the section.
pub open spec fn cdata_section(m: Machine) -> Machine {
    let m = m.consume();
    match m.current {
        Codepoint::Scalar(']') => m.switch_to(State::CDATASectionBracket),
        Codepoint::EndOfFile => m.emit_parse_error(ParseError::EofInCdata).emit_eof(),
        Codepoint::Scalar(_) => m.emit_current_input_character(),
    }
}

/// Inside a CDATA section after `]`.
pub open spec fn cdata_section_bracket(m: Machine) -> Machine {
    let m = m.consume();
    match m.current {
        Codepoint::Scalar(']') => m.switch_to(State::CDATASectionEnd),
        _ => m.emit_character(']').reconsume_in(State::CDATASection),
    }
}

/// Inside a CDATA section after `]]`: `>` ends the section.
pub open spec fn cdata_section_end(m: Machine) -> Machine {
    let m = m.consume();
    match m.current {
        Codepoint::Scalar(']') => m.emit_character(']'),
        Codepoint::Scalar('>') => m.switch_to(State::Data),
        _ => m.emit_character(']').emit_character(']').reconsume_in(State::CDATASection),
    }
}

/// Whether `state` is one of the states whose transitions stand in this file.
pub open spec fn covers(state: State) -> bool {
    matches!(
        state,
        State::CDATASection | State::CDATASectionBracket | State::CDATASectionEnd
    )
}

/// The transition of the state that is active, where it is one of the states that read a
/// CDATA section. In any other state the machine stays as it is.
#[verifier::opaque]
pub open spec fn transition(m: Machine) -> Machine {
    match m.state {
        State::CDATASection => cdata_section(m),
        State::CDATASectionBracket => cdata_section_bracket(m),
        State::CDATASectionEnd => cdata_section_end(m),
        _ => m,
    }
}

impl TokenizerImpl {
    pub(crate) fn handle_cdata_section(&mut self)
        ensures
            final(self)@ == cdata_section(old(self)@),
    {
        let codepoint = self.next_input_character();
        match codepoint {
            Codepoint::Scalar(']') => {
                self.switch_to(State::CDATASectionBracket);
            },
            Codepoint::EndOfFile => {
                self.emit_parse_error(ParseError::EofInCdata);
                self.emit_eof();
            },
            Codepoint::Scalar(_) => {
                self.emit_current_input_character();
            },
        }
    }

    pub(crate) fn handle_cdata_section_bracket(&mut self)
        ensures
            final(self)@ == cdata_section_bracket(old(self)@),
    {
        let codepoint = self.next_input_character();
        match codepoint {
            Codepoint::Scalar(']') => {
                self.switch_to(State::CDATASectionEnd);
            },
            _ => {
                self.emit_character(']');
                self.reconsume_in(State::CDATASection);
            },
        }
    }

    pub(crate) fn handle_cdata_section_end(&mut self)
        ensures
            final(self)@ == cdata_section_end(old(self)@),
    {
        let codepoint = self.next_input_character();
        match codepoint {
            Codepoint::Scalar(']') => {
                self.emit_character(']');
            },
            Codepoint::Scalar('>') => {
                self.switch_to(State::Data);
            },
            _ => {
                self.emit_character(']');
                self.emit_character(']');
                self.reconsume_in(State::CDATASection);
            },
        }
    }
}

} // verus!
