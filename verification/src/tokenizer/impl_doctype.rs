use vstd::prelude::*;
use crate::tokenizer::error::ParseError;
use crate::tokenizer::machine::{replacement, Machine};
use crate::tokenizer::state::State;
use crate::tokenizer::util::{
    is_ascii_uppercase,
    is_whitespace,
    to_ascii_lowercase,
    to_lower,
    Codepoint,
    REPLACEMENT_CHARACTER,
};
use crate::tokenizer::TokenizerImpl;

verus! {

/// The input ended inside a doctype: this is reported, and the doctype is emitted with the
/// force-quirks flag on, followed by the end-of-file token.
pub open spec fn eof_in_doctype(m: Machine) -> Machine {
    m.emit_parse_error(
        ParseError::EofInDoctype,
    ).set_force_quirks().emit_current_doctype_token().emit_eof()
}

/// The doctype goes wrong at the character read last: `error` is reported, the force-quirks
/// flag is set, and the rest up to `>` is read as a bogus doctype.
pub open spec fn doctype_gone_wrong(m: Machine, error: ParseError) -> Machine {
    m.emit_parse_error(error).set_force_quirks().reconsume_in(State::BogusDOCTYPE)
}

/// The doctype ends too early with `>`: `error` is reported and the doctype is emitted with
/// the force-quirks flag on.
pub open spec fn doctype_cut_short(m: Machine, error: ParseError) -> Machine {
    m.emit_parse_error(error).set_force_quirks().switch_to(
        State::Data,
    ).emit_current_doctype_token()
}

/// After the word `DOCTYPE`: white space is expected before the name.
pub open spec fn doctype(m: Machine) -> Machine {
    let m = m.consume();
    match m.current {
        Codepoint::Scalar('>') => m.reconsume_in(State::BeforeDOCTYPEName),
        Codepoint::EndOfFile => eof_in_doctype(m.create_new_doctype_token()),
        Codepoint::Scalar(ch) => if is_whitespace(ch) {
            m.switch_to(State::BeforeDOCTYPEName)
        } else {
            m.emit_parse_error(ParseError::MissingWhitespaceBeforeDoctypeName).reconsume_in(
                State::BeforeDOCTYPEName,
            )
        },
    }
}

/// Before the doctype's name. White space is skipped. The first other character starts the
/// name, a letter folded to lower case and NUL replaced. `>` here means that the name is
/// missing.
pub open spec fn before_doctype_name(m: Machine) -> Machine {
    let m = m.consume();
    match m.current {
        Codepoint::Scalar('\0') => m.emit_parse_error(
            ParseError::UnexpectedNullCharacter,
        ).create_new_doctype_token().start_doctype_name(replacement()).switch_to(
            State::DOCTYPEName,
        ),
        Codepoint::Scalar('>') => doctype_cut_short(
            m.create_new_doctype_token(),
            ParseError::MissingDoctypeName,
        ),
        Codepoint::EndOfFile => eof_in_doctype(m.create_new_doctype_token()),
        Codepoint::Scalar(ch) => if is_whitespace(ch) {
            m
        } else {
            m.create_new_doctype_token().start_doctype_name(to_lower(ch)).switch_to(
                State::DOCTYPEName,
            )
        },
    }
}

/// The doctype's name: every character up to white space or `>`, with ASCII upper-case
/// letters folded to lower case and NUL replaced.
pub open spec fn doctype_name(m: Machine) -> Machine {
    let m = m.consume();
    match m.current {
        Codepoint::Scalar('>') => m.switch_to(State::Data).emit_current_doctype_token(),
        Codepoint::Scalar('\0') => m.emit_parse_error(
            ParseError::UnexpectedNullCharacter,
        ).push_doctype_name(replacement()),
        Codepoint::EndOfFile => eof_in_doctype(m),
        Codepoint::Scalar(ch) => if is_whitespace(ch) {
            m.switch_to(State::AfterDOCTYPEName)
        } else {
            m.push_doctype_name(to_lower(ch))
        },
    }
}

/// After the doctype's name. White space is skipped and `>` ends the doctype. The word
/// `PUBLIC` or `SYSTEM`, in any case, announces an identifier. Anything else is reported.
pub open spec fn after_doctype_name(m: Machine) -> Machine {
    match m.peek(0) {
        Codepoint::Scalar('>') => m.consume().switch_to(State::Data).emit_current_doctype_token(),
        Codepoint::EndOfFile => eof_in_doctype(m.consume()),
        Codepoint::Scalar(ch) => if is_whitespace(ch) {
            m.consume()
        } else if m.literal_ahead("PUBLIC"@, false) {
            m.consume_literal("PUBLIC"@, false).switch_to(State::AfterDOCTYPEPublicKeyword)
        } else if m.literal_ahead("SYSTEM"@, false) {
            m.consume_literal("SYSTEM"@, false).switch_to(State::AfterDOCTYPESystemKeyword)
        } else {
            doctype_gone_wrong(m.consume(), ParseError::InvalidCharacterSequenceAfterDoctypeName)
        },
    }
}

/// Starts the public identifier, to be read up to the closing `quote`.
pub open spec fn open_public_identifier(m: Machine, quote: char) -> Machine {
    m.start_public_identifier().switch_to(
        if quote == '"' {
            State::DOCTYPEPublicIdentifierDoubleQuoted
        } else {
            State::DOCTYPEPublicIdentifierSingleQuoted
        },
    )
}

/// Starts the system identifier, to be read up to the closing `quote`.
pub open spec fn open_system_identifier(m: Machine, quote: char) -> Machine {
    m.start_system_identifier().switch_to(
        if quote == '"' {
            State::DOCTYPESystemIdentifierDoubleQuoted
        } else {
            State::DOCTYPESystemIdentifierSingleQuoted
        },
    )
}

/// After the word `PUBLIC`: white space is expected. A quote at once opens the identifier
/// and is reported.
pub open spec fn after_doctype_public_keyword(m: Machine) -> Machine {
    let m = m.consume();
    match m.current {
        Codepoint::Scalar('>') => doctype_cut_short(m, ParseError::MissingDoctypePublicIdentifier),
        Codepoint::EndOfFile => eof_in_doctype(m),
        Codepoint::Scalar(ch) => if is_whitespace(ch) {
            m.switch_to(State::BeforeDOCTYPEPublicIdentifier)
        } else if ch == '"' || ch == '\'' {
            open_public_identifier(
                m.emit_parse_error(ParseError::MissingWhitespaceAfterDoctypePublicKeyword),
                ch,
            )
        } else {
            doctype_gone_wrong(m, ParseError::MissingQuoteBeforeDoctypePublicIdentifier)
        },
    }
}

/// Before the public identifier: white space is skipped and a quote opens the identifier.
pub open spec fn before_doctype_public_identifier(m: Machine) -> Machine {
    let m = m.consume();
    match m.current {
        Codepoint::Scalar('>') => doctype_cut_short(m, ParseError::MissingDoctypePublicIdentifier),
        Codepoint::EndOfFile => eof_in_doctype(m),
        Codepoint::Scalar(ch) => if is_whitespace(ch) {
            m
        } else if ch == '"' || ch == '\'' {
            open_public_identifier(m, ch)
        } else {
            doctype_gone_wrong(m, ParseError::MissingQuoteBeforeDoctypePublicIdentifier)
        },
    }
}

/// The public identifier: every character up to the closing `quote`, with NUL replaced.
/// `>` ends the doctype abruptly.
pub open spec fn doctype_public_identifier_quoted(m: Machine, quote: char) -> Machine {
    let m = m.consume();
    match m.current {
        Codepoint::Scalar('\0') => m.emit_parse_error(
            ParseError::UnexpectedNullCharacter,
        ).push_public_identifier(replacement()),
        Codepoint::Scalar('>') => doctype_cut_short(m, ParseError::AbruptDoctypePublicIdentifier),
        Codepoint::EndOfFile => eof_in_doctype(m),
        Codepoint::Scalar(ch) => if ch == quote {
            m.switch_to(State::AfterDOCTYPEPublicIdentifier)
        } else {
            m.push_public_identifier(ch)
        },
    }
}

pub open spec fn doctype_public_identifier_double_quoted(m: Machine) -> Machine {
    doctype_public_identifier_quoted(m, '"')
}

pub open spec fn doctype_public_identifier_single_quoted(m: Machine) -> Machine {
    doctype_public_identifier_quoted(m, '\'')
}

/// After the public identifier: `>` ends the doctype; white space is expected before a
/// system identifier, and a quote at once opens it and is reported.
pub open spec fn after_doctype_public_identifier(m: Machine) -> Machine {
    let m = m.consume();
    match m.current {
        Codepoint::Scalar('>') => m.switch_to(State::Data).emit_current_doctype_token(),
        Codepoint::EndOfFile => eof_in_doctype(m),
        Codepoint::Scalar(ch) => if is_whitespace(ch) {
            m.switch_to(State::BetweenDOCTYPEPublicAndSystemIdentifiers)
        } else if ch == '"' || ch == '\'' {
            open_system_identifier(
                m.emit_parse_error(
                    ParseError::MissingWhitespaceBetweenDoctypePublicAndSystemIdentifiers,
                ),
                ch,
            )
        } else {
            doctype_gone_wrong(m, ParseError::MissingQuoteBeforeDoctypeSystemIdentifier)
        },
    }
}

/// Between the two identifiers: white space is skipped, `>` ends the doctype and a quote
/// opens the system identifier.
pub open spec fn between_doctype_public_and_system_identifiers(m: Machine) -> Machine {
    let m = m.consume();
    match m.current {
        Codepoint::Scalar('>') => m.switch_to(State::Data).emit_current_doctype_token(),
        Codepoint::EndOfFile => eof_in_doctype(m),
        Codepoint::Scalar(ch) => if is_whitespace(ch) {
            m
        } else if ch == '"' || ch == '\'' {
            open_system_identifier(m, ch)
        } else {
            doctype_gone_wrong(m, ParseError::MissingQuoteBeforeDoctypeSystemIdentifier)
        },
    }
}

/// After the word `SYSTEM`: white space is expected. A quote at once opens the identifier
/// and is reported.
pub open spec fn after_doctype_system_keyword(m: Machine) -> Machine {
    let m = m.consume();
    match m.current {
        Codepoint::Scalar('>') => doctype_cut_short(m, ParseError::MissingDoctypeSystemIdentifier),
        Codepoint::EndOfFile => eof_in_doctype(m),
        Codepoint::Scalar(ch) => if is_whitespace(ch) {
            m.switch_to(State::BeforeDOCTYPESystemIdentifier)
        } else if ch == '"' || ch == '\'' {
            open_system_identifier(
                m.emit_parse_error(ParseError::MissingWhitespaceAfterDoctypeSystemKeyword),
                ch,
            )
        } else {
            doctype_gone_wrong(m, ParseError::MissingQuoteBeforeDoctypeSystemIdentifier)
        },
    }
}

/// Before the system identifier: white space is skipped and a quote opens the identifier.
pub open spec fn before_doctype_system_identifier(m: Machine) -> Machine {
    let m = m.consume();
    match m.current {
        Codepoint::Scalar('>') => doctype_cut_short(m, ParseError::MissingDoctypeSystemIdentifier),
        Codepoint::EndOfFile => eof_in_doctype(m),
        Codepoint::Scalar(ch) => if is_whitespace(ch) {
            m
        } else if ch == '"' || ch == '\'' {
            open_system_identifier(m, ch)
        } else {
            doctype_gone_wrong(m, ParseError::MissingQuoteBeforeDoctypeSystemIdentifier)
        },
    }
}

/// The system identifier: every character up to the closing `quote`, with NUL replaced.
/// `>` ends the doctype abruptly.
pub open spec fn doctype_system_identifier_quoted(m: Machine, quote: char) -> Machine {
    let m = m.consume();
    match m.current {
        Codepoint::Scalar('\0') => m.emit_parse_error(
            ParseError::UnexpectedNullCharacter,
        ).push_system_identifier(replacement()),
        Codepoint::Scalar('>') => doctype_cut_short(m, ParseError::AbruptDoctypeSystemIdentifier),
        Codepoint::EndOfFile => eof_in_doctype(m),
        Codepoint::Scalar(ch) => if ch == quote {
            m.switch_to(State::AfterDOCTYPESystemIdentifier)
        } else {
            m.push_system_identifier(ch)
        },
    }
}

pub open spec fn doctype_system_identifier_double_quoted(m: Machine) -> Machine {
    doctype_system_identifier_quoted(m, '"')
}

pub open spec fn doctype_system_identifier_single_quoted(m: Machine) -> Machine {
    doctype_system_identifier_quoted(m, '\'')
}

/// After the system identifier: white space is skipped and `>` ends the doctype. Anything
/// else is reported and skipped, without the force-quirks flag.
pub open spec fn after_doctype_system_identifier(m: Machine) -> Machine {
    let m = m.consume();
    match m.current {
        Codepoint::Scalar('>') => m.switch_to(State::Data).emit_current_doctype_token(),
        Codepoint::EndOfFile => eof_in_doctype(m),
        Codepoint::Scalar(ch) => if is_whitespace(ch) {
            m
        } else {
            m.emit_parse_error(
                ParseError::UnexpectedCharacterAfterDoctypeSystemIdentifier,
            ).reconsume_in(State::BogusDOCTYPE)
        },
    }
}

/// A bogus doctype: everything up to `>` is skipped. NUL is reported.
pub open spec fn bogus_doctype(m: Machine) -> Machine {
    let m = m.consume();
    match m.current {
        Codepoint::Scalar('>') => m.switch_to(State::Data).emit_current_doctype_token(),
        Codepoint::Scalar('\0') => m.emit_parse_error(ParseError::UnexpectedNullCharacter),
        Codepoint::EndOfFile => m.emit_current_doctype_token().emit_eof(),
        Codepoint::Scalar(_) => m,
    }
}

/// Whether `state` is one of the states whose transitions stand in this file.
pub open spec fn covers(state: State) -> bool {
    matches!(
        state,
        State::DOCTYPE | State::BeforeDOCTYPEName | State::DOCTYPEName
        | State::AfterDOCTYPEName | State::AfterDOCTYPEPublicKeyword
        | State::BeforeDOCTYPEPublicIdentifier | State::DOCTYPEPublicIdentifierDoubleQuoted
        | State::DOCTYPEPublicIdentifierSingleQuoted | State::AfterDOCTYPEPublicIdentifier
        | State::BetweenDOCTYPEPublicAndSystemIdentifiers | State::AfterDOCTYPESystemKeyword
        | State::BeforeDOCTYPESystemIdentifier | State::DOCTYPESystemIdentifierDoubleQuoted
        | State::DOCTYPESystemIdentifierSingleQuoted | State::AfterDOCTYPESystemIdentifier
        | State::BogusDOCTYPE
    )
}

/// The transition of the state that is active, where it is one of the states that read a
/// doctype. In any other state the machine stays as it is.
#[verifier::opaque]
pub open spec fn transition(m: Machine) -> Machine {
    match m.state {
        State::DOCTYPE => doctype(m),
        State::BeforeDOCTYPEName => before_doctype_name(m),
        State::DOCTYPEName => doctype_name(m),
        State::AfterDOCTYPEName => after_doctype_name(m),
        State::AfterDOCTYPEPublicKeyword => after_doctype_public_keyword(m),
        State::BeforeDOCTYPEPublicIdentifier => before_doctype_public_identifier(m),
        State::DOCTYPEPublicIdentifierDoubleQuoted => doctype_public_identifier_double_quoted(m),
        State::DOCTYPEPublicIdentifierSingleQuoted => doctype_public_identifier_single_quoted(m),
        State::AfterDOCTYPEPublicIdentifier => after_doctype_public_identifier(m),
        State::BetweenDOCTYPEPublicAndSystemIdentifiers => {
            between_doctype_public_and_system_identifiers(m)
        },
        State::AfterDOCTYPESystemKeyword => after_doctype_system_keyword(m),
        State::BeforeDOCTYPESystemIdentifier => before_doctype_system_identifier(m),
        State::DOCTYPESystemIdentifierDoubleQuoted => doctype_system_identifier_double_quoted(m),
        State::DOCTYPESystemIdentifierSingleQuoted => doctype_system_identifier_single_quoted(m),
        State::AfterDOCTYPESystemIdentifier => after_doctype_system_identifier(m),
        State::BogusDOCTYPE => bogus_doctype(m),
        _ => m,
    }
}

impl TokenizerImpl {
    fn eof_in_doctype(&mut self)
        ensures
            final(self)@ == eof_in_doctype(old(self)@),
    {
        self.emit_parse_error(ParseError::EofInDoctype);
        self.set_force_quirks();
        self.emit_current_doctype_token();
        self.emit_eof();
    }

    fn doctype_gone_wrong(&mut self, error: ParseError)
        requires
            !old(self)@.reconsume,
        ensures
            final(self)@ == doctype_gone_wrong(old(self)@, error),
    {
        self.emit_parse_error(error);
        self.set_force_quirks();
        self.reconsume_in(State::BogusDOCTYPE);
    }

    fn doctype_cut_short(&mut self, error: ParseError)
        ensures
            final(self)@ == doctype_cut_short(old(self)@, error),
    {
        self.emit_parse_error(error);
        self.set_force_quirks();
        self.switch_to(State::Data);
        self.emit_current_doctype_token();
    }

    fn open_public_identifier(&mut self, quote: char)
        ensures
            final(self)@ == open_public_identifier(old(self)@, quote),
    {
        self.start_public_identifier();
        if quote == '"' {
            self.switch_to(State::DOCTYPEPublicIdentifierDoubleQuoted);
        } else {
            self.switch_to(State::DOCTYPEPublicIdentifierSingleQuoted);
        }
    }

    fn open_system_identifier(&mut self, quote: char)
        ensures
            final(self)@ == open_system_identifier(old(self)@, quote),
    {
        self.start_system_identifier();
        if quote == '"' {
            self.switch_to(State::DOCTYPESystemIdentifierDoubleQuoted);
        } else {
            self.switch_to(State::DOCTYPESystemIdentifierSingleQuoted);
        }
    }

    pub(crate) fn handle_doctype(&mut self)
        ensures
            final(self)@ == doctype(old(self)@),
    {
        let codepoint = self.next_input_character();
        match codepoint {
            Codepoint::Scalar('\t') | Codepoint::Scalar('\n') | Codepoint::Scalar('\u{000C}')
            | Codepoint::Scalar(' ') => {
                self.switch_to(State::BeforeDOCTYPEName);
            },
            Codepoint::Scalar('>') => {
                self.reconsume_in(State::BeforeDOCTYPEName);
            },
            Codepoint::EndOfFile => {
                self.create_new_doctype_token();
                self.eof_in_doctype();
            },
            Codepoint::Scalar(_) => {
                self.emit_parse_error(ParseError::MissingWhitespaceBeforeDoctypeName);
                self.reconsume_in(State::BeforeDOCTYPEName);
            },
        }
    }

    pub(crate) fn handle_beforedoctype_name(&mut self)
        ensures
            final(self)@ == before_doctype_name(old(self)@),
    {
        let codepoint = self.next_input_character();
        match codepoint {
            Codepoint::Scalar('\t') | Codepoint::Scalar('\n') | Codepoint::Scalar('\u{000C}')
            | Codepoint::Scalar(' ') => {
                // ignore the character
            },
            Codepoint::Scalar(ch) if is_ascii_uppercase(ch) => {
                self.create_new_doctype_token();
                self.start_doctype_name(to_ascii_lowercase(ch));
                self.switch_to(State::DOCTYPEName);
            },
            Codepoint::Scalar('\0') => {
                self.emit_parse_error(ParseError::UnexpectedNullCharacter);
                self.create_new_doctype_token();
                self.start_doctype_name(REPLACEMENT_CHARACTER);
                self.switch_to(State::DOCTYPEName);
            },
            Codepoint::Scalar('>') => {
                self.create_new_doctype_token();
                self.doctype_cut_short(ParseError::MissingDoctypeName);
            },
            Codepoint::EndOfFile => {
                self.create_new_doctype_token();
                self.eof_in_doctype();
            },
            Codepoint::Scalar(ch) => {
                self.create_new_doctype_token();
                self.start_doctype_name(ch);
                self.switch_to(State::DOCTYPEName);
            },
        }
    }

    pub(crate) fn handle_doctype_name(&mut self)
        ensures
            final(self)@ == doctype_name(old(self)@),
    {
        let codepoint = self.next_input_character();
        match codepoint {
            Codepoint::Scalar('\t') | Codepoint::Scalar('\n') | Codepoint::Scalar('\u{000C}')
            | Codepoint::Scalar(' ') => {
                self.switch_to(State::AfterDOCTYPEName);
            },
            Codepoint::Scalar('>') => {
                self.switch_to(State::Data);
                self.emit_current_doctype_token();
            },
            Codepoint::Scalar(ch) if is_ascii_uppercase(ch) => {
                self.push_doctype_name(to_ascii_lowercase(ch));
            },
            Codepoint::Scalar('\0') => {
                self.emit_parse_error(ParseError::UnexpectedNullCharacter);
                self.push_doctype_name(REPLACEMENT_CHARACTER);
            },
            Codepoint::EndOfFile => {
                self.eof_in_doctype();
            },
            Codepoint::Scalar(ch) => {
                self.push_doctype_name(ch);
            },
        }
    }

    pub(crate) fn handle_afterdoctype_name(&mut self)
        ensures
            final(self)@ == after_doctype_name(old(self)@),
    {
        let codepoint = self.peek_next_input_character();
        match codepoint {
            Codepoint::Scalar('\t') | Codepoint::Scalar('\n') | Codepoint::Scalar('\u{000C}')
            | Codepoint::Scalar(' ') => {
                self.next_input_character();
                // ignore the character
            },
            Codepoint::Scalar('>') => {
                self.next_input_character();
                self.switch_to(State::Data);
                self.emit_current_doctype_token();
            },
            Codepoint::EndOfFile => {
                self.next_input_character();
                self.eof_in_doctype();
            },
            Codepoint::Scalar(_) => {
                if self.maybe_consume_next_few_matching_characters("PUBLIC", false).is_some() {
                    self.switch_to(State::AfterDOCTYPEPublicKeyword);
                } else if self.maybe_consume_next_few_matching_characters(
                    "SYSTEM",
                    false,
                ).is_some() {
                    self.switch_to(State::AfterDOCTYPESystemKeyword);
                } else {
                    self.next_input_character();
                    self.doctype_gone_wrong(ParseError::InvalidCharacterSequenceAfterDoctypeName);
                }
            },
        }
    }

    pub(crate) fn handle_afterdoctype_public_keyword(&mut self)
        ensures
            final(self)@ == after_doctype_public_keyword(old(self)@),
    {
        let codepoint = self.next_input_character();
        match codepoint {
            Codepoint::Scalar('\t') | Codepoint::Scalar('\n') | Codepoint::Scalar('\u{000C}')
            | Codepoint::Scalar(' ') => {
                self.switch_to(State::BeforeDOCTYPEPublicIdentifier);
            },
            Codepoint::Scalar('"') => {
                self.emit_parse_error(ParseError::MissingWhitespaceAfterDoctypePublicKeyword);
                self.open_public_identifier('"');
            },
            Codepoint::Scalar('\'') => {
                self.emit_parse_error(ParseError::MissingWhitespaceAfterDoctypePublicKeyword);
                self.open_public_identifier('\'');
            },
            Codepoint::Scalar('>') => {
                self.doctype_cut_short(ParseError::MissingDoctypePublicIdentifier);
            },
            Codepoint::EndOfFile => {
                self.eof_in_doctype();
            },
            Codepoint::Scalar(_) => {
                self.doctype_gone_wrong(ParseError::MissingQuoteBeforeDoctypePublicIdentifier);
            },
        }
    }

    pub(crate) fn handle_beforedoctype_public_identifier(&mut self)
        ensures
            final(self)@ == before_doctype_public_identifier(old(self)@),
    {
        let codepoint = self.next_input_character();
        match codepoint {
            Codepoint::Scalar('\t') | Codepoint::Scalar('\n') | Codepoint::Scalar('\u{000C}')
            | Codepoint::Scalar(' ') => {
                // ignore the character
            },
            Codepoint::Scalar('"') => {
                self.open_public_identifier('"');
            },
            Codepoint::Scalar('\'') => {
                self.open_public_identifier('\'');
            },
            Codepoint::Scalar('>') => {
                self.doctype_cut_short(ParseError::MissingDoctypePublicIdentifier);
            },
            Codepoint::EndOfFile => {
                self.eof_in_doctype();
            },
            Codepoint::Scalar(_) => {
                self.doctype_gone_wrong(ParseError::MissingQuoteBeforeDoctypePublicIdentifier);
            },
        }
    }

    fn handle_doctype_public_identifier_quoted(&mut self, quote: char)
        requires
            quote == '"' || quote == '\'',
        ensures
            final(self)@ == doctype_public_identifier_quoted(old(self)@, quote),
    {
        let codepoint = self.next_input_character();
        match codepoint {
            Codepoint::Scalar(ch) if ch == quote => {
                self.switch_to(State::AfterDOCTYPEPublicIdentifier);
            },
            Codepoint::Scalar('\0') => {
                self.emit_parse_error(ParseError::UnexpectedNullCharacter);
                self.push_public_identifier(REPLACEMENT_CHARACTER);
            },
            Codepoint::Scalar('>') => {
                self.doctype_cut_short(ParseError::AbruptDoctypePublicIdentifier);
            },
            Codepoint::EndOfFile => {
                self.eof_in_doctype();
            },
            Codepoint::Scalar(ch) => {
                self.push_public_identifier(ch);
            },
        }
    }

    pub(crate) fn handle_doctype_public_identifier_double_quoted(&mut self)
        ensures
            final(self)@ == doctype_public_identifier_double_quoted(old(self)@),
    {
        self.handle_doctype_public_identifier_quoted('"');
    }

    pub(crate) fn handle_doctype_public_identifier_single_quoted(&mut self)
        ensures
            final(self)@ == doctype_public_identifier_single_quoted(old(self)@),
    {
        self.handle_doctype_public_identifier_quoted('\'');
    }

    pub(crate) fn handle_afterdoctype_public_identifier(&mut self)
        ensures
            final(self)@ == after_doctype_public_identifier(old(self)@),
    {
        let codepoint = self.next_input_character();
        match codepoint {
            Codepoint::Scalar('\t') | Codepoint::Scalar('\n') | Codepoint::Scalar('\u{000C}')
            | Codepoint::Scalar(' ') => {
                self.switch_to(State::BetweenDOCTYPEPublicAndSystemIdentifiers);
            },
            Codepoint::Scalar('>') => {
                self.switch_to(State::Data);
                self.emit_current_doctype_token();
            },
            Codepoint::Scalar('"') => {
                self.emit_parse_error(
                    ParseError::MissingWhitespaceBetweenDoctypePublicAndSystemIdentifiers,
                );
                self.open_system_identifier('"');
            },
            Codepoint::Scalar('\'') => {
                self.emit_parse_error(
                    ParseError::MissingWhitespaceBetweenDoctypePublicAndSystemIdentifiers,
                );
                self.open_system_identifier('\'');
            },
            Codepoint::EndOfFile => {
                self.eof_in_doctype();
            },
            Codepoint::Scalar(_) => {
                self.doctype_gone_wrong(ParseError::MissingQuoteBeforeDoctypeSystemIdentifier);
            },
        }
    }

    pub(crate) fn handle_betweendoctype_public_and_system_identifiers(&mut self)
        ensures
            final(self)@ == between_doctype_public_and_system_identifiers(old(self)@),
    {
        let codepoint = self.next_input_character();
        match codepoint {
            Codepoint::Scalar('\t') | Codepoint::Scalar('\n') | Codepoint::Scalar('\u{000C}')
            | Codepoint::Scalar(' ') => {
                // ignore the character
            },
            Codepoint::Scalar('>') => {
                self.switch_to(State::Data);
                self.emit_current_doctype_token();
            },
            Codepoint::Scalar('"') => {
                self.open_system_identifier('"');
            },
            Codepoint::Scalar('\'') => {
                self.open_system_identifier('\'');
            },
            Codepoint::EndOfFile => {
                self.eof_in_doctype();
            },
            Codepoint::Scalar(_) => {
                self.doctype_gone_wrong(ParseError::MissingQuoteBeforeDoctypeSystemIdentifier);
            },
        }
    }

    pub(crate) fn handle_afterdoctype_system_keyword(&mut self)
        ensures
            final(self)@ == after_doctype_system_keyword(old(self)@),
    {
        let codepoint = self.next_input_character();
        match codepoint {
            Codepoint::Scalar('\t') | Codepoint::Scalar('\n') | Codepoint::Scalar('\u{000C}')
            | Codepoint::Scalar(' ') => {
                self.switch_to(State::BeforeDOCTYPESystemIdentifier);
            },
            Codepoint::Scalar('"') => {
                self.emit_parse_error(ParseError::MissingWhitespaceAfterDoctypeSystemKeyword);
                self.open_system_identifier('"');
            },
            Codepoint::Scalar('\'') => {
                self.emit_parse_error(ParseError::MissingWhitespaceAfterDoctypeSystemKeyword);
                self.open_system_identifier('\'');
            },
            Codepoint::Scalar('>') => {
                self.doctype_cut_short(ParseError::MissingDoctypeSystemIdentifier);
            },
            Codepoint::EndOfFile => {
                self.eof_in_doctype();
            },
            Codepoint::Scalar(_) => {
                self.doctype_gone_wrong(ParseError::MissingQuoteBeforeDoctypeSystemIdentifier);
            },
        }
    }

    pub(crate) fn handle_beforedoctype_system_identifier(&mut self)
        ensures
            final(self)@ == before_doctype_system_identifier(old(self)@),
    {
        let codepoint = self.next_input_character();
        match codepoint {
            Codepoint::Scalar('\t') | Codepoint::Scalar('\n') | Codepoint::Scalar('\u{000C}')
            | Codepoint::Scalar(' ') => {
                // ignore the character
            },
            Codepoint::Scalar('"') => {
                self.open_system_identifier('"');
            },
            Codepoint::Scalar('\'') => {
                self.open_system_identifier('\'');
            },
            Codepoint::Scalar('>') => {
                self.doctype_cut_short(ParseError::MissingDoctypeSystemIdentifier);
            },
            Codepoint::EndOfFile => {
                self.eof_in_doctype();
            },
            Codepoint::Scalar(_) => {
                self.doctype_gone_wrong(ParseError::MissingQuoteBeforeDoctypeSystemIdentifier);
            },
        }
    }

    fn handle_doctype_system_identifier_quoted(&mut self, quote: char)
        requires
            quote == '"' || quote == '\'',
        ensures
            final(self)@ == doctype_system_identifier_quoted(old(self)@, quote),
    {
        let codepoint = self.next_input_character();
        match codepoint {
            Codepoint::Scalar(ch) if ch == quote => {
                self.switch_to(State::AfterDOCTYPESystemIdentifier);
            },
            Codepoint::Scalar('\0') => {
                self.emit_parse_error(ParseError::UnexpectedNullCharacter);
                self.push_system_identifier(REPLACEMENT_CHARACTER);
            },
            Codepoint::Scalar('>') => {
                self.doctype_cut_short(ParseError::AbruptDoctypeSystemIdentifier);
            },
            Codepoint::EndOfFile => {
                self.eof_in_doctype();
            },
            Codepoint::Scalar(ch) => {
                self.push_system_identifier(ch);
            },
        }
    }

    pub(crate) fn handle_doctype_system_identifier_double_quoted(&mut self)
        ensures
            final(self)@ == doctype_system_identifier_double_quoted(old(self)@),
    {
        self.handle_doctype_system_identifier_quoted('"');
    }

    pub(crate) fn handle_doctype_system_identifier_single_quoted(&mut self)
        ensures
            final(self)@ == doctype_system_identifier_single_quoted(old(self)@),
    {
        self.handle_doctype_system_identifier_quoted('\'');
    }

    pub(crate) fn handle_afterdoctype_system_identifier(&mut self)
        ensures
            final(self)@ == after_doctype_system_identifier(old(self)@),
    {
        let codepoint = self.next_input_character();
        match codepoint {
            Codepoint::Scalar('\t') | Codepoint::Scalar('\n') | Codepoint::Scalar('\u{000C}')
            | Codepoint::Scalar(' ') => {
                // ignore the character
            },
            Codepoint::Scalar('>') => {
                self.switch_to(State::Data);
                self.emit_current_doctype_token();
            },
            Codepoint::EndOfFile => {
                self.eof_in_doctype();
            },
            Codepoint::Scalar(_) => {
                self.emit_parse_error(ParseError::UnexpectedCharacterAfterDoctypeSystemIdentifier);
                self.reconsume_in(State::BogusDOCTYPE);
            },
        }
    }

    pub(crate) fn handle_bogusdoctype(&mut self)
        ensures
            final(self)@ == bogus_doctype(old(self)@),
    {
        let codepoint = self.next_input_character();
        match codepoint {
            Codepoint::Scalar('>') => {
                self.switch_to(State::Data);
                self.emit_current_doctype_token();
            },
            Codepoint::Scalar('\0') => {
                self.emit_parse_error(ParseError::UnexpectedNullCharacter);
            },
            Codepoint::EndOfFile => {
                self.emit_current_doctype_token();
                self.emit_eof();
            },
            Codepoint::Scalar(_) => {
                // ignore the character
            },
        }
    }
}

} // verus!
