use vstd::prelude::*;
use crate::tokenizer::error::ParseError;
use crate::tokenizer::impl_rawtext::{text_end_tag_name, text_end_tag_open};
use crate::tokenizer::machine::{replacement, Machine};
use crate::tokenizer::state::State;
use crate::tokenizer::util::{
    is_alpha,
    is_ascii_alphabetic,
    is_whitespace,
    to_ascii_lowercase,
    to_lower,
    Codepoint,
    REPLACEMENT_CHARACTER,
};
use crate::tokenizer::TokenizerImpl;

verus! {

/// The word that starts and ends a doubly escaped part of a script.
pub open spec fn script_word() -> Seq<char> {
    seq!['s', 'c', 'r', 'i', 'p', 't']
}

/// After `<` in script data: `/` may start the end tag, `!` may start an escaped part, in
/// which case `<!` is emitted; anything else was text.
pub open spec fn script_data_less_than_sign(m: Machine) -> Machine {
    let m = m.consume();
    match m.current {
        Codepoint::Scalar('/') => m.clear_buffer().switch_to(State::ScriptDataEndTagOpen),
        Codepoint::Scalar('!') => m.switch_to(State::ScriptDataEscapeStart).emit_character(
            '<',
        ).emit_character('!'),
        _ => m.emit_character('<').reconsume_in(State::ScriptData),
    }
}

pub open spec fn script_data_end_tag_open(m: Machine) -> Machine {
    text_end_tag_open(m, State::ScriptData, State::ScriptDataEndTagName)
}

pub open spec fn script_data_end_tag_name(m: Machine) -> Machine {
    text_end_tag_name(m, State::ScriptData)
}

/// After `<!` in script data: a `-` is emitted and leads to `on_dash`; anything else is
/// read again as script data.
pub open spec fn script_data_escape_dash(m: Machine, on_dash: State) -> Machine {
    let m = m.consume();
    match m.current {
        Codepoint::Scalar('-') => m.switch_to(on_dash).emit_character('-'),
        _ => m.reconsume_in(State::ScriptData),
    }
}

pub open spec fn script_data_escape_start(m: Machine) -> Machine {
    script_data_escape_dash(m, State::ScriptDataEscapeStartDash)
}

pub open spec fn script_data_escape_start_dash(m: Machine) -> Machine {
    script_data_escape_dash(m, State::ScriptDataEscapedDashDash)
}

/// Escaped script data: every character is emitted. `-` may begin the end of the escaped
/// part and `<` may start a tag.
pub open spec fn script_data_escaped(m: Machine) -> Machine {
    let m = m.consume();
    match m.current {
        Codepoint::Scalar('-') => m.switch_to(State::ScriptDataEscapedDash).emit_character('-'),
        Codepoint::Scalar('<') => m.switch_to(State::ScriptDataEscapedLessThanSign),
        Codepoint::Scalar('\0') => m.emit_parse_error(
            ParseError::UnexpectedNullCharacter,
        ).emit_character(replacement()),
        Codepoint::EndOfFile => m.emit_parse_error(
            ParseError::EofInScriptHtmlCommentLikeText,
        ).emit_eof(),
        Codepoint::Scalar(_) => m.emit_current_input_character(),
    }
}

/// Escaped script data after one `-`.
pub open spec fn script_data_escaped_dash(m: Machine) -> Machine {
    let m = m.consume();
    match m.current {
        Codepoint::Scalar('-') => m.switch_to(State::ScriptDataEscapedDashDash).emit_character(
            '-',
        ),
        Codepoint::Scalar('<') => m.switch_to(State::ScriptDataEscapedLessThanSign),
        Codepoint::Scalar('\0') => m.emit_parse_error(
            ParseError::UnexpectedNullCharacter,
        ).switch_to(State::ScriptDataEscaped).emit_character(replacement()),
        Codepoint::EndOfFile => m.emit_parse_error(
            ParseError::EofInScriptHtmlCommentLikeText,
        ).emit_eof(),
        Codepoint::Scalar(_) => m.switch_to(
            State::ScriptDataEscaped,
        ).emit_current_input_character(),
    }
}

/// Escaped script data after `--`: `>` ends the escaped part.
pub open spec fn script_data_escaped_dash_dash(m: Machine) -> Machine {
    let m = m.consume();
    match m.current {
        Codepoint::Scalar('-') => m.emit_character('-'),
        Codepoint::Scalar('<') => m.switch_to(State::ScriptDataEscapedLessThanSign),
        Codepoint::Scalar('>') => m.switch_to(State::ScriptData).emit_character('>'),
        Codepoint::Scalar('\0') => m.emit_parse_error(
            ParseError::UnexpectedNullCharacter,
        ).switch_to(State::ScriptDataEscaped).emit_character(replacement()),
        Codepoint::EndOfFile => m.emit_parse_error(
            ParseError::EofInScriptHtmlCommentLikeText,
        ).emit_eof(),
        Codepoint::Scalar(_) => m.switch_to(
            State::ScriptDataEscaped,
        ).emit_current_input_character(),
    }
}

/// After `<` in escaped script data: `/` may start the end tag, a letter may start a doubly
/// escaped part; anything else was text.
pub open spec fn script_data_escaped_less_than_sign(m: Machine) -> Machine {
    let m = m.consume();
    match m.current {
        Codepoint::Scalar('/') => m.clear_buffer().switch_to(State::ScriptDataEscapedEndTagOpen),
        Codepoint::Scalar(ch) if is_alpha(ch) => m.clear_buffer().emit_character(
            '<',
        ).reconsume_in(State::ScriptDataDoubleEscapeStart),
        _ => m.emit_character('<').reconsume_in(State::ScriptDataEscaped),
    }
}

pub open spec fn script_data_escaped_end_tag_open(m: Machine) -> Machine {
    text_end_tag_open(m, State::ScriptDataEscaped, State::ScriptDataEscapedEndTagName)
}

pub open spec fn script_data_escaped_end_tag_name(m: Machine) -> Machine {
    text_end_tag_name(m, State::ScriptDataEscaped)
}

/// Reads a word in escaped script data, emitting each character. Letters are collected in
/// the temporary buffer in lower case. White space, `/` or `>` ends the word: if it is
/// `script` the state becomes `on_script`, else `otherwise`. Anything else is read again in
/// `otherwise`.
pub open spec fn script_data_escape_word(
    m: Machine,
    on_script: State,
    otherwise: State,
) -> Machine {
    let m = m.consume();
    match m.current {
        Codepoint::Scalar(ch) => if is_whitespace(ch) || ch == '/' || ch == '>' {
            m.switch_to(
                if m.buffer == script_word() {
                    on_script
                } else {
                    otherwise
                },
            ).emit_current_input_character()
        } else if is_alpha(ch) {
            m.push_buffer(to_lower(ch)).emit_current_input_character()
        } else {
            m.reconsume_in(otherwise)
        },
        Codepoint::EndOfFile => m.reconsume_in(otherwise),
    }
}

pub open spec fn script_data_double_escape_start(m: Machine) -> Machine {
    script_data_escape_word(m, State::ScriptDataDoubleEscaped, State::ScriptDataEscaped)
}

/// Doubly escaped script data: every character is emitted, `<` too.
pub open spec fn script_data_double_escaped(m: Machine) -> Machine {
    let m = m.consume();
    match m.current {
        Codepoint::Scalar('-') => m.switch_to(State::ScriptDataDoubleEscapedDash).emit_character(
            '-',
        ),
        Codepoint::Scalar('<') => m.switch_to(
            State::ScriptDataDoubleEscapedLessThanSign,
        ).emit_character('<'),
        Codepoint::Scalar('\0') => m.emit_parse_error(
            ParseError::UnexpectedNullCharacter,
        ).emit_character(replacement()),
        Codepoint::EndOfFile => m.emit_parse_error(
            ParseError::EofInScriptHtmlCommentLikeText,
        ).emit_eof(),
        Codepoint::Scalar(_) => m.emit_current_input_character(),
    }
}

/// Doubly escaped script data after one `-`.
pub open spec fn script_data_double_escaped_dash(m: Machine) -> Machine {
    let m = m.consume();
    match m.current {
        Codepoint::Scalar('-') => m.switch_to(
            State::ScriptDataDoubleEscapedDashDash,
        ).emit_character('-'),
        Codepoint::Scalar('<') => m.switch_to(
            State::ScriptDataDoubleEscapedLessThanSign,
        ).emit_character('<'),
        Codepoint::Scalar('\0') => m.emit_parse_error(
            ParseError::UnexpectedNullCharacter,
        ).switch_to(State::ScriptDataDoubleEscaped).emit_character(replacement()),
        Codepoint::EndOfFile => m.emit_parse_error(
            ParseError::EofInScriptHtmlCommentLikeText,
        ).emit_eof(),
        Codepoint::Scalar(_) => m.switch_to(
            State::ScriptDataDoubleEscaped,
        ).emit_current_input_character(),
    }
}

/// Doubly escaped script data after `--`: `>` ends the escaped part.
pub open spec fn script_data_double_escaped_dash_dash(m: Machine) -> Machine {
    let m = m.consume();
    match m.current {
        Codepoint::Scalar('-') => m.emit_character('-'),
        Codepoint::Scalar('<') => m.switch_to(
            State::ScriptDataDoubleEscapedLessThanSign,
        ).emit_character('<'),
        Codepoint::Scalar('>') => m.switch_to(State::ScriptData).emit_character('>'),
        Codepoint::Scalar('\0') => m.emit_parse_error(
            ParseError::UnexpectedNullCharacter,
        ).switch_to(State::ScriptDataDoubleEscaped).emit_character(replacement()),
        Codepoint::EndOfFile => m.emit_parse_error(
            ParseError::EofInScriptHtmlCommentLikeText,
        ).emit_eof(),
        Codepoint::Scalar(_) => m.switch_to(
            State::ScriptDataDoubleEscaped,
        ).emit_current_input_character(),
    }
}

/// After `<` in doubly escaped script data: `/` is emitted and may end the doubly escaped
/// part.
pub open spec fn script_data_double_escaped_less_than_sign(m: Machine) -> Machine {
    let m = m.consume();
    match m.current {
        Codepoint::Scalar('/') => m.clear_buffer().switch_to(
            State::ScriptDataDoubleEscapeEnd,
        ).emit_character('/'),
        _ => m.reconsume_in(State::ScriptDataDoubleEscaped),
    }
}

pub open spec fn script_data_double_escape_end(m: Machine) -> Machine {
    script_data_escape_word(m, State::ScriptDataEscaped, State::ScriptDataDoubleEscaped)
}

/// Whether `state` is one of the states whose transitions stand in this file.
pub open spec fn covers(state: State) -> bool {
    matches!(
        state,
        State::ScriptDataLessThanSign | State::ScriptDataEndTagOpen
        | State::ScriptDataEndTagName | State::ScriptDataEscapeStart
        | State::ScriptDataEscapeStartDash | State::ScriptDataEscaped
        | State::ScriptDataEscapedDash | State::ScriptDataEscapedDashDash
        | State::ScriptDataEscapedLessThanSign | State::ScriptDataEscapedEndTagOpen
        | State::ScriptDataEscapedEndTagName | State::ScriptDataDoubleEscapeStart
        | State::ScriptDataDoubleEscaped | State::ScriptDataDoubleEscapedDash
        | State::ScriptDataDoubleEscapedDashDash | State::ScriptDataDoubleEscapedLessThanSign
        | State::ScriptDataDoubleEscapeEnd
    )
}

/// The transition of the state that is active, where it is one of the states inside script
/// data. In any other state the machine stays as it is.
#[verifier::opaque]
pub open spec fn transition(m: Machine) -> Machine {
    match m.state {
        State::ScriptDataLessThanSign => script_data_less_than_sign(m),
        State::ScriptDataEndTagOpen => script_data_end_tag_open(m),
        State::ScriptDataEndTagName => script_data_end_tag_name(m),
        State::ScriptDataEscapeStart => script_data_escape_start(m),
        State::ScriptDataEscapeStartDash => script_data_escape_start_dash(m),
        State::ScriptDataEscaped => script_data_escaped(m),
        State::ScriptDataEscapedDash => script_data_escaped_dash(m),
        State::ScriptDataEscapedDashDash => script_data_escaped_dash_dash(m),
        State::ScriptDataEscapedLessThanSign => script_data_escaped_less_than_sign(m),
        State::ScriptDataEscapedEndTagOpen => script_data_escaped_end_tag_open(m),
        State::ScriptDataEscapedEndTagName => script_data_escaped_end_tag_name(m),
        State::ScriptDataDoubleEscapeStart => script_data_double_escape_start(m),
        State::ScriptDataDoubleEscaped => script_data_double_escaped(m),
        State::ScriptDataDoubleEscapedDash => script_data_double_escaped_dash(m),
        State::ScriptDataDoubleEscapedDashDash => script_data_double_escaped_dash_dash(m),
        State::ScriptDataDoubleEscapedLessThanSign => script_data_double_escaped_less_than_sign(m),
        State::ScriptDataDoubleEscapeEnd => script_data_double_escape_end(m),
        _ => m,
    }
}

impl TokenizerImpl {
    pub(crate) fn handle_script_data_less_than_sign(&mut self)
        ensures
            final(self)@ == script_data_less_than_sign(old(self)@),
    {
        let codepoint = self.next_input_character();
        match codepoint {
            Codepoint::Scalar('/') => {
                self.clear_buffer();
                self.switch_to(State::ScriptDataEndTagOpen);
            },
            Codepoint::Scalar('!') => {
                self.switch_to(State::ScriptDataEscapeStart);
                self.emit_character('<');
                self.emit_character('!');
            },
            _ => {
                self.emit_character('<');
                self.reconsume_in(State::ScriptData);
            },
        }
    }

    pub(crate) fn handle_script_data_end_tag_open(&mut self)
        ensures
            final(self)@ == script_data_end_tag_open(old(self)@),
    {
        self.handle_text_end_tag_open(State::ScriptData, State::ScriptDataEndTagName);
    }

    pub(crate) fn handle_script_data_end_tag_name(&mut self)
        ensures
            final(self)@ == script_data_end_tag_name(old(self)@),
    {
        self.handle_text_end_tag_name(State::ScriptData);
    }

    fn handle_script_data_escape_dash(&mut self, on_dash: State)
        ensures
            final(self)@ == script_data_escape_dash(old(self)@, on_dash),
    {
        let codepoint = self.next_input_character();
        match codepoint {
            Codepoint::Scalar('-') => {
                self.switch_to(on_dash);
                self.emit_character('-');
            },
            _ => {
                self.reconsume_in(State::ScriptData);
            },
        }
    }

    pub(crate) fn handle_script_data_escape_start(&mut self)
        ensures
            final(self)@ == script_data_escape_start(old(self)@),
    {
        self.handle_script_data_escape_dash(State::ScriptDataEscapeStartDash);
    }

    pub(crate) fn handle_script_data_escape_start_dash(&mut self)
        ensures
            final(self)@ == script_data_escape_start_dash(old(self)@),
    {
        self.handle_script_data_escape_dash(State::ScriptDataEscapedDashDash);
    }

    pub(crate) fn handle_script_data_escaped(&mut self)
        ensures
            final(self)@ == script_data_escaped(old(self)@),
    {
        let codepoint = self.next_input_character();
        match codepoint {
            Codepoint::Scalar('-') => {
                self.switch_to(State::ScriptDataEscapedDash);
                self.emit_character('-');
            },
            Codepoint::Scalar('<') => {
                self.switch_to(State::ScriptDataEscapedLessThanSign);
            },
            Codepoint::Scalar('\0') => {
                self.emit_parse_error(ParseError::UnexpectedNullCharacter);
                self.emit_character(REPLACEMENT_CHARACTER);
            },
            Codepoint::EndOfFile => {
                self.emit_parse_error(ParseError::EofInScriptHtmlCommentLikeText);
                self.emit_eof();
            },
            Codepoint::Scalar(_) => {
                self.emit_current_input_character();
            },
        }
    }

    pub(crate) fn handle_script_data_escaped_dash(&mut self)
        ensures
            final(self)@ == script_data_escaped_dash(old(self)@),
    {
        let codepoint = self.next_input_character();
        match codepoint {
            Codepoint::Scalar('-') => {
                self.switch_to(State::ScriptDataEscapedDashDash);
                self.emit_character('-');
            },
            Codepoint::Scalar('<') => {
                self.switch_to(State::ScriptDataEscapedLessThanSign);
            },
            Codepoint::Scalar('\0') => {
                self.emit_parse_error(ParseError::UnexpectedNullCharacter);
                self.switch_to(State::ScriptDataEscaped);
                self.emit_character(REPLACEMENT_CHARACTER);
            },
            Codepoint::EndOfFile => {
                self.emit_parse_error(ParseError::EofInScriptHtmlCommentLikeText);
                self.emit_eof();
            },
            Codepoint::Scalar(_) => {
                self.switch_to(State::ScriptDataEscaped);
                self.emit_current_input_character();
            },
        }
    }

    pub(crate) fn handle_script_data_escaped_dash_dash(&mut self)
        ensures
            final(self)@ == script_data_escaped_dash_dash(old(self)@),
    {
        let codepoint = self.next_input_character();
        match codepoint {
            Codepoint::Scalar('-') => {
                self.emit_character('-');
            },
            Codepoint::Scalar('<') => {
                self.switch_to(State::ScriptDataEscapedLessThanSign);
            },
            Codepoint::Scalar('>') => {
                self.switch_to(State::ScriptData);
                self.emit_character('>');
            },
            Codepoint::Scalar('\0') => {
                self.emit_parse_error(ParseError::UnexpectedNullCharacter);
                self.switch_to(State::ScriptDataEscaped);
                self.emit_character(REPLACEMENT_CHARACTER);
            },
            Codepoint::EndOfFile => {
                self.emit_parse_error(ParseError::EofInScriptHtmlCommentLikeText);
                self.emit_eof();
            },
            Codepoint::Scalar(_) => {
                self.switch_to(State::ScriptDataEscaped);
                self.emit_current_input_character();
            },
        }
    }

    pub(crate) fn handle_script_data_escaped_less_than_sign(&mut self)
        ensures
            final(self)@ == script_data_escaped_less_than_sign(old(self)@),
    {
        let codepoint = self.next_input_character();
        match codepoint {
            Codepoint::Scalar('/') => {
                self.clear_buffer();
                self.switch_to(State::ScriptDataEscapedEndTagOpen);
            },
            Codepoint::Scalar(ch) if is_ascii_alphabetic(ch) => {
                self.clear_buffer();
                self.emit_character('<');
                self.reconsume_in(State::ScriptDataDoubleEscapeStart);
            },
            _ => {
                self.emit_character('<');
                self.reconsume_in(State::ScriptDataEscaped);
            },
        }
    }

    pub(crate) fn handle_script_data_escaped_end_tag_open(&mut self)
        ensures
            final(self)@ == script_data_escaped_end_tag_open(old(self)@),
    {
        self.handle_text_end_tag_open(
            State::ScriptDataEscaped,
            State::ScriptDataEscapedEndTagName,
        );
    }

    pub(crate) fn handle_script_data_escaped_end_tag_name(&mut self)
        ensures
            final(self)@ == script_data_escaped_end_tag_name(old(self)@),
    {
        self.handle_text_end_tag_name(State::ScriptDataEscaped);
    }

    /// Whether the temporary buffer holds the word `script`.
    fn buffer_is_script(&self) -> (r: bool)
        ensures
            r == (self@.buffer == script_word()),
    {
        let buffer = &self.temporary_buffer;
        let r = buffer.len() == 6 && buffer[0] == 's' && buffer[1] == 'c' && buffer[2] == 'r'
            && buffer[3] == 'i' && buffer[4] == 'p' && buffer[5] == 't';
        assert(r == (self@.buffer =~= script_word()));
        r
    }

    fn handle_script_data_escape_word(&mut self, on_script: State, otherwise: State)
        ensures
            final(self)@ == script_data_escape_word(old(self)@, on_script, otherwise),
    {
        let codepoint = self.next_input_character();
        match codepoint {
            Codepoint::Scalar('\t') | Codepoint::Scalar('\n') | Codepoint::Scalar('\u{000C}')
            | Codepoint::Scalar(' ') | Codepoint::Scalar('/') | Codepoint::Scalar('>') => {
                if self.buffer_is_script() {
                    self.switch_to(on_script);
                } else {
                    self.switch_to(otherwise);
                }
                self.emit_current_input_character();
            },
            Codepoint::Scalar(ch) if is_ascii_alphabetic(ch) => {
                self.push_buffer(to_ascii_lowercase(ch));
                self.emit_current_input_character();
            },
            _ => {
                self.reconsume_in(otherwise);
            },
        }
    }

    pub(crate) fn handle_script_data_double_escape_start(&mut self)
        ensures
            final(self)@ == script_data_double_escape_start(old(self)@),
    {
        self.handle_script_data_escape_word(
            State::ScriptDataDoubleEscaped,
            State::ScriptDataEscaped,
        );
    }

    pub(crate) fn handle_script_data_double_escaped(&mut self)
        ensures
            final(self)@ == script_data_double_escaped(old(self)@),
    {
        let codepoint = self.next_input_character();
        match codepoint {
            Codepoint::Scalar('-') => {
                self.switch_to(State::ScriptDataDoubleEscapedDash);
                self.emit_character('-');
            },
            Codepoint::Scalar('<') => {
                self.switch_to(State::ScriptDataDoubleEscapedLessThanSign);
                self.emit_character('<');
            },
            Codepoint::Scalar('\0') => {
                self.emit_parse_error(ParseError::UnexpectedNullCharacter);
                self.emit_character(REPLACEMENT_CHARACTER);
            },
            Codepoint::EndOfFile => {
                self.emit_parse_error(ParseError::EofInScriptHtmlCommentLikeText);
                self.emit_eof();
            },
            Codepoint::Scalar(_) => {
                self.emit_current_input_character();
            },
        }
    }

    pub(crate) fn handle_script_data_double_escaped_dash(&mut self)
        ensures
            final(self)@ == script_data_double_escaped_dash(old(self)@),
    {
        let codepoint = self.next_input_character();
        match codepoint {
            Codepoint::Scalar('-') => {
                self.switch_to(State::ScriptDataDoubleEscapedDashDash);
                self.emit_character('-');
            },
            Codepoint::Scalar('<') => {
                self.switch_to(State::ScriptDataDoubleEscapedLessThanSign);
                self.emit_character('<');
            },
            Codepoint::Scalar('\0') => {
                self.emit_parse_error(ParseError::UnexpectedNullCharacter);
                self.switch_to(State::ScriptDataDoubleEscaped);
                self.emit_character(REPLACEMENT_CHARACTER);
            },
            Codepoint::EndOfFile => {
                self.emit_parse_error(ParseError::EofInScriptHtmlCommentLikeText);
                self.emit_eof();
            },
            Codepoint::Scalar(_) => {
                self.switch_to(State::ScriptDataDoubleEscaped);
                self.emit_current_input_character();
            },
        }
    }

    pub(crate) fn handle_script_data_double_escaped_dash_dash(&mut self)
        ensures
            final(self)@ == script_data_double_escaped_dash_dash(old(self)@),
    {
        let codepoint = self.next_input_character();
        match codepoint {
            Codepoint::Scalar('-') => {
                self.emit_character('-');
            },
            Codepoint::Scalar('<') => {
                self.switch_to(State::ScriptDataDoubleEscapedLessThanSign);
                self.emit_character('<');
            },
            Codepoint::Scalar('>') => {
                self.switch_to(State::ScriptData);
                self.emit_character('>');
            },
            Codepoint::Scalar('\0') => {
                self.emit_parse_error(ParseError::UnexpectedNullCharacter);
                self.switch_to(State::ScriptDataDoubleEscaped);
                self.emit_character(REPLACEMENT_CHARACTER);
            },
            Codepoint::EndOfFile => {
                self.emit_parse_error(ParseError::EofInScriptHtmlCommentLikeText);
                self.emit_eof();
            },
            Codepoint::Scalar(_) => {
                self.switch_to(State::ScriptDataDoubleEscaped);
                self.emit_current_input_character();
            },
        }
    }

    pub(crate) fn handle_script_data_double_escaped_less_than_sign(&mut self)
        ensures
            final(self)@ == script_data_double_escaped_less_than_sign(old(self)@),
    {
        let codepoint = self.next_input_character();
        match codepoint {
            Codepoint::Scalar('/') => {
                self.clear_buffer();
                self.switch_to(State::ScriptDataDoubleEscapeEnd);
                self.emit_character('/');
            },
            _ => {
                self.reconsume_in(State::ScriptDataDoubleEscaped);
            },
        }
    }

    pub(crate) fn handle_script_data_double_escape_end(&mut self)
        ensures
            final(self)@ == script_data_double_escape_end(old(self)@),
    {
        self.handle_script_data_escape_word(
            State::ScriptDataEscaped,
            State::ScriptDataDoubleEscaped,
        );
    }
}

} // verus!
