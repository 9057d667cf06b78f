use vstd::prelude::*;
use crate::tokenizer::machine::Machine;
use crate::tokenizer::state::State;
use crate::tokenizer::token::TagKind;
use crate::tokenizer::util::{
    is_alpha,
    is_ascii_alphabetic,
    is_whitespace,
    to_ascii_lowercase,
    to_lower,
    Codepoint,
};
use crate::tokenizer::TokenizerImpl;

verus! {

/// After `<` inside text in which only the matching end tag counts. `/` may start that end
/// tag; anything else was text, and the `<` is emitted.
pub open spec fn text_less_than_sign(m: Machine, text: State, end_tag_open: State) -> Machine {
    let m = m.consume();
    match m.current {
        Codepoint::Scalar('/') => m.clear_buffer().switch_to(end_tag_open),
        _ => m.emit_character('<').reconsume_in(text),
    }
}

/// After `</` inside such text. A letter starts an end tag whose name is then read;
/// anything else was text, and `</` is emitted.
pub open spec fn text_end_tag_open(m: Machine, text: State, end_tag_name: State) -> Machine {
    let m = m.consume();
    match m.current {
        Codepoint::Scalar(ch) if is_alpha(ch) => m.create_new_tag_token(
            TagKind::End,
        ).reconsume_in(end_tag_name),
        _ => m.emit_character('<').emit_character('/').reconsume_in(text),
    }
}

/// What was read as an end tag turns out to be text: `</` and the characters read since
/// are emitted, the tag is given up, and the item read last is read again as text.
pub open spec fn abandon_end_tag(m: Machine, text: State) -> Machine {
    m.emit_character('<').emit_character(
        '/',
    ).emit_buffer().discard_current_tag_token().reconsume_in(text)
}

/// The name of an end tag inside such text. Letters go to the name, folded to lower case,
/// and to the temporary buffer as they are. White space, `/` or `>` ends the name, and the
/// tag counts only if it closes the start tag emitted last. In every other case all of it
/// was text.
pub open spec fn text_end_tag_name(m: Machine, text: State) -> Machine {
    let m = m.consume();
    match m.current {
        Codepoint::Scalar(ch) => if is_whitespace(ch) && m.is_appropriate_end_tag() {
            m.switch_to(State::BeforeAttributeName)
        } else if ch == '/' && m.is_appropriate_end_tag() {
            m.switch_to(State::SelfClosingStartTag)
        } else if ch == '>' && m.is_appropriate_end_tag() {
            m.switch_to(State::Data).emit_current_tag_token()
        } else if is_alpha(ch) {
            m.push_tag_name(to_lower(ch)).push_buffer(ch)
        } else {
            abandon_end_tag(m, text)
        },
        Codepoint::EndOfFile => abandon_end_tag(m, text),
    }
}

pub open spec fn rcdata_less_than_sign(m: Machine) -> Machine {
    text_less_than_sign(m, State::RCDATA, State::RCDATAEndTagOpen)
}

pub open spec fn rcdata_end_tag_open(m: Machine) -> Machine {
    text_end_tag_open(m, State::RCDATA, State::RCDATAEndTagName)
}

pub open spec fn rcdata_end_tag_name(m: Machine) -> Machine {
    text_end_tag_name(m, State::RCDATA)
}

pub open spec fn rawtext_less_than_sign(m: Machine) -> Machine {
    text_less_than_sign(m, State::RAWTEXT, State::RAWTEXTEndTagOpen)
}

pub open spec fn rawtext_end_tag_open(m: Machine) -> Machine {
    text_end_tag_open(m, State::RAWTEXT, State::RAWTEXTEndTagName)
}

pub open spec fn rawtext_end_tag_name(m: Machine) -> Machine {
    text_end_tag_name(m, State::RAWTEXT)
}

/// Whether `state` is one of the states whose transitions stand in this file.
pub open spec fn covers(state: State) -> bool {
    matches!(
        state,
        State::RCDATALessThanSign | State::RCDATAEndTagOpen | State::RCDATAEndTagName
        | State::RAWTEXTLessThanSign | State::RAWTEXTEndTagOpen | State::RAWTEXTEndTagName
    )
}

/// The transition of the state that is active, where it is one of the states that look for
/// an end tag in RCDATA and RAWTEXT. In any other state the machine stays as it is.
#[verifier::opaque]
pub open spec fn transition(m: Machine) -> Machine {
    match m.state {
        State::RCDATALessThanSign => rcdata_less_than_sign(m),
        State::RCDATAEndTagOpen => rcdata_end_tag_open(m),
        State::RCDATAEndTagName => rcdata_end_tag_name(m),
        State::RAWTEXTLessThanSign => rawtext_less_than_sign(m),
        State::RAWTEXTEndTagOpen => rawtext_end_tag_open(m),
        State::RAWTEXTEndTagName => rawtext_end_tag_name(m),
        _ => m,
    }
}

impl TokenizerImpl {
    pub(crate) fn handle_text_less_than_sign(&mut self, text: State, end_tag_open: State)
        ensures
            final(self)@ == text_less_than_sign(old(self)@, text, end_tag_open),
    {
        let codepoint = self.next_input_character();
        match codepoint {
            Codepoint::Scalar('/') => {
                self.clear_buffer();
                self.switch_to(end_tag_open);
            },
            _ => {
                self.emit_character('<');
                self.reconsume_in(text);
            },
        }
    }

    pub(crate) fn handle_text_end_tag_open(&mut self, text: State, end_tag_name: State)
        ensures
            final(self)@ == text_end_tag_open(old(self)@, text, end_tag_name),
    {
        let codepoint = self.next_input_character();
        match codepoint {
            Codepoint::Scalar(ch) if is_ascii_alphabetic(ch) => {
                self.create_new_end_tag_token();
                self.reconsume_in(end_tag_name);
            },
            _ => {
                self.emit_character('<');
                self.emit_character('/');
                self.reconsume_in(text);
            },
        }
    }

    fn abandon_end_tag(&mut self, text: State)
        requires
            !old(self)@.reconsume,
        ensures
            final(self)@ == abandon_end_tag(old(self)@, text),
    {
        self.emit_character('<');
        self.emit_character('/');
        self.emit_buffer();
        self.discard_current_tag_token();
        self.reconsume_in(text);
    }

    pub(crate) fn handle_text_end_tag_name(&mut self, text: State)
        ensures
            final(self)@ == text_end_tag_name(old(self)@, text),
    {
        let codepoint = self.next_input_character();
        match codepoint {
            Codepoint::Scalar('\t') | Codepoint::Scalar('\n') | Codepoint::Scalar('\u{000C}')
            | Codepoint::Scalar(' ') => {
                if self.is_appropriate_end_tag() {
                    self.switch_to(State::BeforeAttributeName);
                } else {
                    self.abandon_end_tag(text);
                }
            },
            Codepoint::Scalar('/') => {
                if self.is_appropriate_end_tag() {
                    self.switch_to(State::SelfClosingStartTag);
                } else {
                    self.abandon_end_tag(text);
                }
            },
            Codepoint::Scalar('>') => {
                if self.is_appropriate_end_tag() {
                    self.switch_to(State::Data);
                    self.emit_current_tag_token();
                } else {
                    self.abandon_end_tag(text);
                }
            },
            Codepoint::Scalar(ch) if is_ascii_alphabetic(ch) => {
                self.push_tag_name(to_ascii_lowercase(ch));
                self.push_buffer(ch);
            },
            _ => {
                self.abandon_end_tag(text);
            },
        }
    }

    pub(crate) fn handle_rcdata_less_than_sign(&mut self)
        ensures
            final(self)@ == rcdata_less_than_sign(old(self)@),
    {
        self.handle_text_less_than_sign(State::RCDATA, State::RCDATAEndTagOpen);
    }

    pub(crate) fn handle_rcdata_end_tag_open(&mut self)
        ensures
            final(self)@ == rcdata_end_tag_open(old(self)@),
    {
        self.handle_text_end_tag_open(State::RCDATA, State::RCDATAEndTagName);
    }

    pub(crate) fn handle_rcdata_end_tag_name(&mut self)
        ensures
            final(self)@ == rcdata_end_tag_name(old(self)@),
    {
        self.handle_text_end_tag_name(State::RCDATA);
    }

    pub(crate) fn handle_rawtext_less_than_sign(&mut self)
        ensures
            final(self)@ == rawtext_less_than_sign(old(self)@),
    {
        self.handle_text_less_than_sign(State::RAWTEXT, State::RAWTEXTEndTagOpen);
    }

    pub(crate) fn handle_rawtext_end_tag_open(&mut self)
        ensures
            final(self)@ == rawtext_end_tag_open(old(self)@),
    {
        self.handle_text_end_tag_open(State::RAWTEXT, State::RAWTEXTEndTagName);
    }

    pub(crate) fn handle_rawtext_end_tag_name(&mut self)
        ensures
            final(self)@ == rawtext_end_tag_name(old(self)@),
    {
        self.handle_text_end_tag_name(State::RAWTEXT);
    }
}

} // verus!
