use vstd::prelude::*;
use crate::tokenizer::error::ParseError;
use crate::tokenizer::machine::{replacement, Machine};
use crate::tokenizer::state::State;
use crate::tokenizer::util::{Codepoint, REPLACEMENT_CHARACTER};
use crate::tokenizer::TokenizerImpl;

verus! {

/// A bogus comment: everything up to the next `>` is the comment's text. NUL is reported
/// and replaced.
pub open spec fn bogus_comment(m: Machine) -> Machine {
    let m = m.consume();
    match m.current {
        Codepoint::Scalar('>') => m.switch_to(State::Data).emit_current_comment_token(),
        Codepoint::EndOfFile => m.emit_current_comment_token().emit_eof(),
        Codepoint::Scalar('\0') => m.emit_parse_error(
            ParseError::UnexpectedNullCharacter,
        ).push_comment(replacement()),
        Codepoint::Scalar(ch) => m.push_comment(ch),
    }
}

/// After `<!`. `--` opens a comment, `DOCTYPE` in any case a doctype and `[CDATA[` a CDATA
/// section. Anything else is reported and read as a bogus comment.
pub open spec fn markup_declaration_open(m: Machine) -> Machine {
    if m.literal_ahead("--"@, true) {
        m.consume_literal("--"@, true).create_new_comment_token().switch_to(State::CommentStart)
    } else if m.literal_ahead("DOCTYPE"@, false) {
        m.consume_literal("DOCTYPE"@, false).switch_to(State::DOCTYPE)
    } else if m.literal_ahead("[CDATA["@, true) {
        m.consume_literal("[CDATA["@, true).switch_to(State::CDATASection)
    } else {
        m.emit_parse_error(
            ParseError::IncorrectlyOpenedComment,
        ).create_new_comment_token().switch_to(State::BogusComment)
    }
}

/// At the start of a comment, after `<!--`. `>` here closes an empty comment and is
/// reported.
pub open spec fn comment_start(m: Machine) -> Machine {
    let m = m.consume();
    match m.current {
        Codepoint::Scalar('-') => m.switch_to(State::CommentStartDash),
        Codepoint::Scalar('>') => m.emit_parse_error(
            ParseError::AbruptClosingOfEmptyComment,
        ).switch_to(State::Data).emit_current_comment_token(),
        _ => m.reconsume_in(State::Comment),
    }
}

/// After `<!---`.
pub open spec fn comment_start_dash(m: Machine) -> Machine {
    let m = m.consume();
    match m.current {
        Codepoint::Scalar('-') => m.switch_to(State::CommentEnd),
        Codepoint::Scalar('>') => m.emit_parse_error(
            ParseError::AbruptClosingOfEmptyComment,
        ).switch_to(State::Data).emit_current_comment_token(),
        Codepoint::EndOfFile => m.emit_parse_error(
            ParseError::EofInComment,
        ).emit_current_comment_token().emit_eof(),
        Codepoint::Scalar(_) => m.push_comment('-').reconsume_in(State::Comment),
    }
}

/// Inside a comment: every character goes to the comment's text. `-` may begin its end and
/// `<` may begin a nested opening. NUL is reported and replaced.
pub open spec fn comment(m: Machine) -> Machine {
    let m = m.consume();
    match m.current {
        Codepoint::Scalar('<') => m.push_comment('<').switch_to(State::CommentLessThanSign),
        Codepoint::Scalar('-') => m.switch_to(State::CommentEndDash),
        Codepoint::Scalar('\0') => m.emit_parse_error(
            ParseError::UnexpectedNullCharacter,
        ).push_comment(replacement()),
        Codepoint::EndOfFile => m.emit_parse_error(
            ParseError::EofInComment,
        ).emit_current_comment_token().emit_eof(),
        Codepoint::Scalar(ch) => m.push_comment(ch),
    }
}

/// Inside a comment after `<`.
pub open spec fn comment_less_than_sign(m: Machine) -> Machine {
    let m = m.consume();
    match m.current {
        Codepoint::Scalar('!') => m.push_comment('!').switch_to(State::CommentLessThanSignBang),
        Codepoint::Scalar('<') => m.push_comment('<'),
        _ => m.reconsume_in(State::Comment),
    }
}

/// Inside a comment after `<!`.
pub open spec fn comment_less_than_sign_bang(m: Machine) -> Machine {
    let m = m.consume();
    match m.current {
        Codepoint::Scalar('-') => m.switch_to(State::CommentLessThanSignBangDash),
        _ => m.reconsume_in(State::Comment),
    }
}

/// Inside a comment after `<!-`.
pub open spec fn comment_less_than_sign_bang_dash(m: Machine) -> Machine {
    let m = m.consume();
    match m.current {
        Codepoint::Scalar('-') => m.switch_to(State::CommentLessThanSignBangDashDash),
        _ => m.reconsume_in(State::CommentEndDash),
    }
}

/// Inside a comment after `<!--`: unless the comment ends here, a comment was opened inside
/// a comment, which is reported.
pub open spec fn comment_less_than_sign_bang_dash_dash(m: Machine) -> Machine {
    let m = m.consume();
    match m.current {
        Codepoint::Scalar('>') | Codepoint::EndOfFile => m.reconsume_in(State::CommentEnd),
        Codepoint::Scalar(_) => m.emit_parse_error(ParseError::NestedComment).reconsume_in(
            State::CommentEnd,
        ),
    }
}

/// Inside a comment after `-`.
pub open spec fn comment_end_dash(m: Machine) -> Machine {
    let m = m.consume();
    match m.current {
        Codepoint::Scalar('-') => m.switch_to(State::CommentEnd),
        Codepoint::EndOfFile => m.emit_parse_error(
            ParseError::EofInComment,
        ).emit_current_comment_token().emit_eof(),
        Codepoint::Scalar(_) => m.push_comment('-').reconsume_in(State::Comment),
    }
}

/// Inside a comment after `--`: `>` ends the comment.
pub open spec fn comment_end(m: Machine) -> Machine {
    let m = m.consume();
    match m.current {
        Codepoint::Scalar('>') => m.switch_to(State::Data).emit_current_comment_token(),
        Codepoint::Scalar('!') => m.switch_to(State::CommentEndBang),
        Codepoint::Scalar('-') => m.push_comment('-'),
        Codepoint::EndOfFile => m.emit_parse_error(
            ParseError::EofInComment,
        ).emit_current_comment_token().emit_eof(),
        Codepoint::Scalar(_) => m.push_comment('-').push_comment('-').reconsume_in(State::Comment),
    }
}

/// Inside a comment after `--!`: `>` ends the comment and is reported.
pub open spec fn comment_end_bang(m: Machine) -> Machine {
    let m = m.consume();
    match m.current {
        Codepoint::Scalar('-') => m.push_comment('-').push_comment('-').push_comment(
            '!',
        ).switch_to(State::CommentEndDash),
        Codepoint::Scalar('>') => m.emit_parse_error(
            ParseError::IncorrectlyClosedComment,
        ).switch_to(State::Data).emit_current_comment_token(),
        Codepoint::EndOfFile => m.emit_parse_error(
            ParseError::EofInComment,
        ).emit_current_comment_token().emit_eof(),
        Codepoint::Scalar(_) => m.push_comment('-').push_comment('-').push_comment(
            '!',
        ).reconsume_in(State::Comment),
    }
}

/// Whether `state` is one of the states whose transitions stand in this file.
pub open spec fn covers(state: State) -> bool {
    matches!(
        state,
        State::BogusComment | State::MarkupDeclarationOpen | State::CommentStart
        | State::CommentStartDash | State::Comment | State::CommentLessThanSign
        | State::CommentLessThanSignBang | State::CommentLessThanSignBangDash
        | State::CommentLessThanSignBangDashDash | State::CommentEndDash | State::CommentEnd
        | State::CommentEndBang
    )
}

/// The transition of the state that is active, where it is one of the states that read a
/// markup declaration or a comment. In any other state the machine stays as it is.
#[verifier::opaque]
pub open spec fn transition(m: Machine) -> Machine {
    match m.state {
        State::BogusComment => bogus_comment(m),
        State::MarkupDeclarationOpen => markup_declaration_open(m),
        State::CommentStart => comment_start(m),
        State::CommentStartDash => comment_start_dash(m),
        State::Comment => comment(m),
        State::CommentLessThanSign => comment_less_than_sign(m),
        State::CommentLessThanSignBang => comment_less_than_sign_bang(m),
        State::CommentLessThanSignBangDash => comment_less_than_sign_bang_dash(m),
        State::CommentLessThanSignBangDashDash => comment_less_than_sign_bang_dash_dash(m),
        State::CommentEndDash => comment_end_dash(m),
        State::CommentEnd => comment_end(m),
        State::CommentEndBang => comment_end_bang(m),
        _ => m,
    }
}

impl TokenizerImpl {
    pub(crate) fn handle_bogus_comment(&mut self)
        ensures
            final(self)@ == bogus_comment(old(self)@),
    {
        let codepoint = self.next_input_character();
        match codepoint {
            Codepoint::Scalar('>') => {
                self.switch_to(State::Data);
                self.emit_current_comment_token();
            },
            Codepoint::EndOfFile => {
                self.emit_current_comment_token();
                self.emit_eof();
            },
            Codepoint::Scalar('\0') => {
                self.emit_parse_error(ParseError::UnexpectedNullCharacter);
                self.push_comment(REPLACEMENT_CHARACTER);
            },
            Codepoint::Scalar(ch) => {
                self.push_comment(ch);
            },
        }
    }

    pub(crate) fn handle_markup_declaration_open(&mut self)
        ensures
            final(self)@ == markup_declaration_open(old(self)@),
    {
        if self.maybe_consume_next_few_matching_characters("--", true).is_some() {
            self.create_new_comment_token();
            self.switch_to(State::CommentStart);
        } else if self.maybe_consume_next_few_matching_characters("DOCTYPE", false).is_some() {
            self.switch_to(State::DOCTYPE);
        } else if self.maybe_consume_next_few_matching_characters("[CDATA[", true).is_some() {
            self.switch_to(State::CDATASection);
        } else {
            self.emit_parse_error(ParseError::IncorrectlyOpenedComment);
            self.create_new_comment_token();
            self.switch_to(State::BogusComment);
        }
    }

    pub(crate) fn handle_comment_start(&mut self)
        ensures
            final(self)@ == comment_start(old(self)@),
    {
        let codepoint = self.next_input_character();
        match codepoint {
            Codepoint::Scalar('-') => {
                self.switch_to(State::CommentStartDash);
            },
            Codepoint::Scalar('>') => {
                self.emit_parse_error(ParseError::AbruptClosingOfEmptyComment);
                self.switch_to(State::Data);
                self.emit_current_comment_token();
            },
            _ => {
                self.reconsume_in(State::Comment);
            },
        }
    }

    pub(crate) fn handle_comment_start_dash(&mut self)
        ensures
            final(self)@ == comment_start_dash(old(self)@),
    {
        let codepoint = self.next_input_character();
        match codepoint {
            Codepoint::Scalar('-') => {
                self.switch_to(State::CommentEnd);
            },
            Codepoint::Scalar('>') => {
                self.emit_parse_error(ParseError::AbruptClosingOfEmptyComment);
                self.switch_to(State::Data);
                self.emit_current_comment_token();
            },
            Codepoint::EndOfFile => {
                self.emit_parse_error(ParseError::EofInComment);
                self.emit_current_comment_token();
                self.emit_eof();
            },
            Codepoint::Scalar(_) => {
                self.push_comment('-');
                self.reconsume_in(State::Comment);
            },
        }
    }

    pub(crate) fn handle_comment(&mut self)
        ensures
            final(self)@ == comment(old(self)@),
    {
        let codepoint = self.next_input_character();
        match codepoint {
            Codepoint::Scalar('<') => {
                self.push_comment('<');
                self.switch_to(State::CommentLessThanSign);
            },
            Codepoint::Scalar('-') => {
                self.switch_to(State::CommentEndDash);
            },
            Codepoint::Scalar('\0') => {
                self.emit_parse_error(ParseError::UnexpectedNullCharacter);
                self.push_comment(REPLACEMENT_CHARACTER);
            },
            Codepoint::EndOfFile => {
                self.emit_parse_error(ParseError::EofInComment);
                self.emit_current_comment_token();
                self.emit_eof();
            },
            Codepoint::Scalar(ch) => {
                self.push_comment(ch);
            },
        }
    }

    pub(crate) fn handle_comment_less_than_sign(&mut self)
        ensures
            final(self)@ == comment_less_than_sign(old(self)@),
    {
        let codepoint = self.next_input_character();
        match codepoint {
            Codepoint::Scalar('!') => {
                self.push_comment('!');
                self.switch_to(State::CommentLessThanSignBang);
            },
            Codepoint::Scalar('<') => {
                self.push_comment('<');
            },
            _ => {
                self.reconsume_in(State::Comment);
            },
        }
    }

    pub(crate) fn handle_comment_less_than_sign_bang(&mut self)
        ensures
            final(self)@ == comment_less_than_sign_bang(old(self)@),
    {
        let codepoint = self.next_input_character();
        match codepoint {
            Codepoint::Scalar('-') => {
                self.switch_to(State::CommentLessThanSignBangDash);
            },
            _ => {
                self.reconsume_in(State::Comment);
            },
        }
    }

    pub(crate) fn handle_comment_less_than_sign_bang_dash(&mut self)
        ensures
            final(self)@ == comment_less_than_sign_bang_dash(old(self)@),
    {
        let codepoint = self.next_input_character();
        match codepoint {
            Codepoint::Scalar('-') => {
                self.switch_to(State::CommentLessThanSignBangDashDash);
            },
            _ => {
                self.reconsume_in(State::CommentEndDash);
            },
        }
    }

    pub(crate) fn handle_comment_less_than_sign_bang_dash_dash(&mut self)
        ensures
            final(self)@ == comment_less_than_sign_bang_dash_dash(old(self)@),
    {
        let codepoint = self.next_input_character();
        match codepoint {
            Codepoint::Scalar('>') | Codepoint::EndOfFile => {
                self.reconsume_in(State::CommentEnd);
            },
            Codepoint::Scalar(_) => {
                self.emit_parse_error(ParseError::NestedComment);
                self.reconsume_in(State::CommentEnd);
            },
        }
    }

    pub(crate) fn handle_comment_end_dash(&mut self)
        ensures
            final(self)@ == comment_end_dash(old(self)@),
    {
        let codepoint = self.next_input_character();
        match codepoint {
            Codepoint::Scalar('-') => {
                self.switch_to(State::CommentEnd);
            },
            Codepoint::EndOfFile => {
                self.emit_parse_error(ParseError::EofInComment);
                self.emit_current_comment_token();
                self.emit_eof();
            },
            Codepoint::Scalar(_) => {
                self.push_comment('-');
                self.reconsume_in(State::Comment);
            },
        }
    }

    pub(crate) fn handle_comment_end(&mut self)
        ensures
            final(self)@ == comment_end(old(self)@),
    {
        let codepoint = self.next_input_character();
        match codepoint {
            Codepoint::Scalar('>') => {
                self.switch_to(State::Data);
                self.emit_current_comment_token();
            },
            Codepoint::Scalar('!') => {
                self.switch_to(State::CommentEndBang);
            },
            Codepoint::Scalar('-') => {
                self.push_comment('-');
            },
            Codepoint::EndOfFile => {
                self.emit_parse_error(ParseError::EofInComment);
                self.emit_current_comment_token();
                self.emit_eof();
            },
            Codepoint::Scalar(_) => {
                self.push_comment('-');
                self.push_comment('-');
                self.reconsume_in(State::Comment);
            },
        }
    }

    pub(crate) fn handle_comment_end_bang(&mut self)
        ensures
            final(self)@ == comment_end_bang(old(self)@),
    {
        let codepoint = self.next_input_character();
        match codepoint {
            Codepoint::Scalar('-') => {
                self.push_comment('-');
                self.push_comment('-');
                self.push_comment('!');
                self.switch_to(State::CommentEndDash);
            },
            Codepoint::Scalar('>') => {
                self.emit_parse_error(ParseError::IncorrectlyClosedComment);
                self.switch_to(State::Data);
                self.emit_current_comment_token();
            },
            Codepoint::EndOfFile => {
                self.emit_parse_error(ParseError::EofInComment);
                self.emit_current_comment_token();
                self.emit_eof();
            },
            Codepoint::Scalar(_) => {
                self.push_comment('-');
                self.push_comment('-');
                self.push_comment('!');
                self.reconsume_in(State::Comment);
            },
        }
    }
}

} // verus!
