use vstd::prelude::*;
use crate::tokenizer::error::ParseError;
use crate::tokenizer::machine::Machine;
use crate::tokenizer::state::State;
use crate::tokenizer::util::{
    hex_digit_value,
    hex_value,
    is_alphanumeric,
    is_ascii_alphanumeric,
    is_ascii_digit,
    is_ascii_hexdigit,
    is_digit,
    is_hex_digit,
    Codepoint,
    REPLACEMENT_CHARACTER,
};
use crate::tokenizer::TokenizerImpl;

verus! {

/// After `&`. A letter or digit may start a named reference and `#` starts a numeric one.
/// Anything else was no reference: the `&` is handed on as text.
pub open spec fn character_reference(m: Machine) -> Machine {
    let m = m.set_buffer(seq!['&']).consume();
    match m.current {
        Codepoint::Scalar('#') => m.push_buffer('#').switch_to(State::NumericCharacterReference),
        Codepoint::Scalar(ch) if is_alphanumeric(ch) => m.reconsume_in(
            State::NamedCharacterReference,
        ),
        _ => m.flush_code_points().reconsume_in_return_state(),
    }
}

/// After `&` and some letters or digits that name no known reference. Further letters and
/// digits are text. A `;` after them is reported, since a reference was meant.
pub open spec fn ambiguous_ampersand(m: Machine) -> Machine {
    let m = m.consume();
    match m.current {
        Codepoint::Scalar(';') => m.emit_parse_error(
            ParseError::UnknownNamedCharacterReference,
        ).reconsume_in_return_state(),
        Codepoint::Scalar(ch) if is_alphanumeric(ch) => if m.in_attribute() {
            m.push_attribute_value(ch)
        } else {
            m.emit_character(ch)
        },
        _ => m.reconsume_in_return_state(),
    }
}

/// After `&#`: `x` or `X` announces hexadecimal digits, anything else is read as decimal.
pub open spec fn numeric_character_reference(m: Machine) -> Machine {
    let m = m.set_code(0).consume();
    match m.current {
        Codepoint::Scalar('x') => m.push_buffer('x').switch_to(
            State::HexadecimalCharacterReferenceStart,
        ),
        Codepoint::Scalar('X') => m.push_buffer('X').switch_to(
            State::HexadecimalCharacterReferenceStart,
        ),
        _ => m.reconsume_in(State::DecimalCharacterReferenceStart),
    }
}

/// There is no digit where a numeric reference needs one: this is reported, and what was
/// read is handed on as text.
pub open spec fn absence_of_digits(m: Machine) -> Machine {
    m.emit_parse_error(
        ParseError::AbsenceOfDigitsInNumericCharacterReference,
    ).flush_code_points().reconsume_in_return_state()
}

/// After `&#x`: a hexadecimal digit must follow.
pub open spec fn hexadecimal_character_reference_start(m: Machine) -> Machine {
    let m = m.consume();
    match m.current {
        Codepoint::Scalar(ch) if is_hex_digit(ch) => m.reconsume_in(
            State::HexadecimalCharacterReference,
        ),
        _ => absence_of_digits(m),
    }
}

/// After `&#`: a decimal digit must follow.
pub open spec fn decimal_character_reference_start(m: Machine) -> Machine {
    let m = m.consume();
    match m.current {
        Codepoint::Scalar(ch) if is_digit(ch) => m.reconsume_in(State::DecimalCharacterReference),
        _ => absence_of_digits(m),
    }
}

/// The hexadecimal digits of a numeric reference, up to `;`. A missing `;` is reported.
pub open spec fn hexadecimal_character_reference(m: Machine) -> Machine {
    let m = m.consume();
    match m.current {
        Codepoint::Scalar(';') => m.switch_to(State::NumericCharacterReferenceEnd),
        Codepoint::Scalar(ch) if is_hex_digit(ch) => m.push_digit(16, hex_value(ch) as nat),
        _ => m.emit_parse_error(ParseError::MissingSemicolonAfterCharacterReference).reconsume_in(
            State::NumericCharacterReferenceEnd,
        ),
    }
}

/// The decimal digits of a numeric reference, up to `;`. A missing `;` is reported.
pub open spec fn decimal_character_reference(m: Machine) -> Machine {
    let m = m.consume();
    match m.current {
        Codepoint::Scalar(';') => m.switch_to(State::NumericCharacterReferenceEnd),
        Codepoint::Scalar(ch) if is_digit(ch) => m.push_digit(10, hex_value(ch) as nat),
        _ => m.emit_parse_error(ParseError::MissingSemicolonAfterCharacterReference).reconsume_in(
            State::NumericCharacterReferenceEnd,
        ),
    }
}

pub open spec fn is_surrogate(code: nat) -> bool {
    0xD800 <= code <= 0xDFFF
}

/// Whether `code` is one of the code points that are set aside never to be characters.
pub open spec fn is_noncharacter(code: nat) -> bool {
    (0xFDD0 <= code <= 0xFDEF) || code % 0x10000 == 0xFFFE || code % 0x10000 == 0xFFFF
}

/// Whether `code` is a control character other than tab, line feed, form feed and space.
/// Carriage return counts as one.
pub open spec fn is_unwanted_control(code: nat) -> bool {
    code == 0x0D || ((code <= 0x1F || 0x7F <= code <= 0x9F) && code != 0x09 && code != 0x0A && code
        != 0x0C && code != 0x20)
}

/// The code point that a number between 0x80 and 0x9F stands for by an old convention:
/// numbers in that range were meant as bytes in the Windows code page 1252. Every other
/// number stands for itself.
pub open spec fn legacy_code_point(code: nat) -> nat {
    if code == 0x80 {
        0x20AC
    } else if code == 0x82 {
        0x201A
    } else if code == 0x83 {
        0x0192
    } else if code == 0x84 {
        0x201E
    } else if code == 0x85 {
        0x2026
    } else if code == 0x86 {
        0x2020
    } else if code == 0x87 {
        0x2021
    } else if code == 0x88 {
        0x02C6
    } else if code == 0x89 {
        0x2030
    } else if code == 0x8A {
        0x0160
    } else if code == 0x8B {
        0x2039
    } else if code == 0x8C {
        0x0152
    } else if code == 0x8E {
        0x017D
    } else if code == 0x91 {
        0x2018
    } else if code == 0x92 {
        0x2019
    } else if code == 0x93 {
        0x201C
    } else if code == 0x94 {
        0x201D
    } else if code == 0x95 {
        0x2022
    } else if code == 0x96 {
        0x2013
    } else if code == 0x97 {
        0x2014
    } else if code == 0x98 {
        0x02DC
    } else if code == 0x99 {
        0x2122
    } else if code == 0x9A {
        0x0161
    } else if code == 0x9B {
        0x203A
    } else if code == 0x9C {
        0x0153
    } else if code == 0x9E {
        0x017E
    } else if code == 0x9F {
        0x0178
    } else {
        code
    }
}

/// The error, if any, that a numeric reference to `code` is.
pub open spec fn reference_error(code: nat) -> Option<ParseError> {
    if code == 0 {
        Some(ParseError::NullCharacterReference)
    } else if code > 0x10FFFF {
        Some(ParseError::CharacterReferenceOutsideUnicodeRange)
    } else if is_surrogate(code) {
        Some(ParseError::SurrogateCharacterReference)
    } else if is_noncharacter(code) {
        Some(ParseError::NoncharacterCharacterReference)
    } else if is_unwanted_control(code) {
        Some(ParseError::ControlCharacterReference)
    } else {
        None
    }
}

/// The character that a numeric reference to `code` gives: U+FFFD for zero, for a number
/// beyond the last code point and for a surrogate; otherwise the code point that the number
/// stands for.
pub open spec fn reference_character(code: nat) -> char {
    if code == 0 || code > 0x10FFFF || is_surrogate(code) {
        '\u{FFFD}'
    } else {
        legacy_code_point(code) as char
    }
}

/// At the end of a numeric reference: the number is checked, and the character that it
/// gives is handed on.
pub open spec fn numeric_character_reference_end(m: Machine) -> Machine {
    let m1 = match reference_error(m.code) {
        Some(error) => m.emit_parse_error(error),
        None => m,
    };
    m1.set_buffer(seq![reference_character(m.code)]).flush_code_points().leave_reference()
}

/// What `legacy_code_point` gives, for a number below 0x110000.
fn map_legacy_code(code: u32) -> (r: u32)
    requires
        code <= 0x10FFFF,
    ensures
        r == legacy_code_point(code as nat),
        r <= 0x10FFFF,
        !is_surrogate(code as nat) ==> !is_surrogate(r as nat),
{
    match code {
        0x80 => 0x20AC,
        0x82 => 0x201A,
        0x83 => 0x0192,
        0x84 => 0x201E,
        0x85 => 0x2026,
        0x86 => 0x2020,
        0x87 => 0x2021,
        0x88 => 0x02C6,
        0x89 => 0x2030,
        0x8A => 0x0160,
        0x8B => 0x2039,
        0x8C => 0x0152,
        0x8E => 0x017D,
        0x91 => 0x2018,
        0x92 => 0x2019,
        0x93 => 0x201C,
        0x94 => 0x201D,
        0x95 => 0x2022,
        0x96 => 0x2013,
        0x97 => 0x2014,
        0x98 => 0x02DC,
        0x99 => 0x2122,
        0x9A => 0x0161,
        0x9B => 0x203A,
        0x9C => 0x0153,
        0x9E => 0x017E,
        0x9F => 0x0178,
        _ => code,
    }
}

/// The error, if any, that a numeric reference to `code` is.
pub fn check_reference(code: u32) -> (r: Option<ParseError>)
    ensures
        r == reference_error(code as nat),
{
    if code == 0 {
        Some(ParseError::NullCharacterReference)
    } else if code > 0x10FFFF {
        Some(ParseError::CharacterReferenceOutsideUnicodeRange)
    } else if 0xD800 <= code && code <= 0xDFFF {
        Some(ParseError::SurrogateCharacterReference)
    } else if (0xFDD0 <= code && code <= 0xFDEF) || code % 0x10000 == 0xFFFE || code % 0x10000
        == 0xFFFF {
        Some(ParseError::NoncharacterCharacterReference)
    } else if code == 0x0D || ((code <= 0x1F || (0x7F <= code && code <= 0x9F)) && code != 0x09
        && code != 0x0A && code != 0x0C && code != 0x20) {
        Some(ParseError::ControlCharacterReference)
    } else {
        None
    }
}

/// The character that a numeric reference to `code` gives.
pub fn resolve_reference(code: u32) -> (r: char)
    ensures
        r == reference_character(code as nat),
{
    if code == 0 || code > 0x10FFFF || (0xD800 <= code && code <= 0xDFFF) {
        REPLACEMENT_CHARACTER
    } else {
        match char::from_u32(map_legacy_code(code)) {
            Some(c) => c,
            None => REPLACEMENT_CHARACTER,
        }
    }
}

/// Whether `state` is one of the states whose transitions stand in this file.
pub open spec fn covers(state: State) -> bool {
    matches!(
        state,
        State::CharacterReference | State::AmbiguousAmpersand
        | State::NumericCharacterReference | State::HexadecimalCharacterReferenceStart
        | State::DecimalCharacterReferenceStart | State::HexadecimalCharacterReference
        | State::DecimalCharacterReference | State::NumericCharacterReferenceEnd
    )
}

/// The transition of the state that is active, where it is one of the states that read a
/// character reference. In any other state the machine stays as it is.
#[verifier::opaque]
pub open spec fn transition(m: Machine) -> Machine {
    match m.state {
        State::CharacterReference => character_reference(m),
        State::AmbiguousAmpersand => ambiguous_ampersand(m),
        State::NumericCharacterReference => numeric_character_reference(m),
        State::HexadecimalCharacterReferenceStart => hexadecimal_character_reference_start(m),
        State::DecimalCharacterReferenceStart => decimal_character_reference_start(m),
        State::HexadecimalCharacterReference => hexadecimal_character_reference(m),
        State::DecimalCharacterReference => decimal_character_reference(m),
        State::NumericCharacterReferenceEnd => numeric_character_reference_end(m),
        _ => m,
    }
}

impl TokenizerImpl {
    pub(crate) fn handle_character_reference(&mut self)
        ensures
            final(self)@ == character_reference(old(self)@),
    {
        self.clear_buffer();
        self.push_buffer('&');
        let codepoint = self.next_input_character();
        match codepoint {
            Codepoint::Scalar(ch) if is_ascii_alphanumeric(ch) => {
                self.reconsume_in(State::NamedCharacterReference);
            },
            Codepoint::Scalar('#') => {
                self.push_buffer('#');
                self.switch_to(State::NumericCharacterReference);
            },
            _ => {
                self.flush_code_points();
                self.reconsume_in_return_state();
            },
        }
    }

    pub(crate) fn handle_ambiguous_ampersand(&mut self)
        ensures
            final(self)@ == ambiguous_ampersand(old(self)@),
    {
        let codepoint = self.next_input_character();
        match codepoint {
            Codepoint::Scalar(ch) if is_ascii_alphanumeric(ch) => {
                if self.in_attribute() {
                    self.push_attribute_value(ch);
                } else {
                    self.emit_character(ch);
                }
            },
            Codepoint::Scalar(';') => {
                self.emit_parse_error(ParseError::UnknownNamedCharacterReference);
                self.reconsume_in_return_state();
            },
            _ => {
                self.reconsume_in_return_state();
            },
        }
    }

    pub(crate) fn handle_numeric_character_reference(&mut self)
        ensures
            final(self)@ == numeric_character_reference(old(self)@),
    {
        self.set_code(0);
        let codepoint = self.next_input_character();
        match codepoint {
            Codepoint::Scalar('x') => {
                self.push_buffer('x');
                self.switch_to(State::HexadecimalCharacterReferenceStart);
            },
            Codepoint::Scalar('X') => {
                self.push_buffer('X');
                self.switch_to(State::HexadecimalCharacterReferenceStart);
            },
            _ => {
                self.reconsume_in(State::DecimalCharacterReferenceStart);
            },
        }
    }

    fn absence_of_digits(&mut self)
        requires
            !old(self)@.reconsume,
        ensures
            final(self)@ == absence_of_digits(old(self)@),
    {
        self.emit_parse_error(ParseError::AbsenceOfDigitsInNumericCharacterReference);
        self.flush_code_points();
        self.reconsume_in_return_state();
    }

    pub(crate) fn handle_hexadecimal_character_reference_start(&mut self)
        ensures
            final(self)@ == hexadecimal_character_reference_start(old(self)@),
    {
        let codepoint = self.next_input_character();
        match codepoint {
            Codepoint::Scalar(ch) if is_ascii_hexdigit(ch) => {
                self.reconsume_in(State::HexadecimalCharacterReference);
            },
            _ => {
                self.absence_of_digits();
            },
        }
    }

    pub(crate) fn handle_decimal_character_reference_start(&mut self)
        ensures
            final(self)@ == decimal_character_reference_start(old(self)@),
    {
        let codepoint = self.next_input_character();
        match codepoint {
            Codepoint::Scalar(ch) if is_ascii_digit(ch) => {
                self.reconsume_in(State::DecimalCharacterReference);
            },
            _ => {
                self.absence_of_digits();
            },
        }
    }

    pub(crate) fn handle_hexadecimal_character_reference(&mut self)
        ensures
            final(self)@ == hexadecimal_character_reference(old(self)@),
    {
        let codepoint = self.next_input_character();
        match codepoint {
            Codepoint::Scalar(ch) if is_ascii_hexdigit(ch) => {
                self.push_digit(16, hex_digit_value(ch));
            },
            Codepoint::Scalar(';') => {
                self.switch_to(State::NumericCharacterReferenceEnd);
            },
            _ => {
                self.emit_parse_error(ParseError::MissingSemicolonAfterCharacterReference);
                self.reconsume_in(State::NumericCharacterReferenceEnd);
            },
        }
    }

    pub(crate) fn handle_decimal_character_reference(&mut self)
        ensures
            final(self)@ == decimal_character_reference(old(self)@),
    {
        let codepoint = self.next_input_character();
        match codepoint {
            Codepoint::Scalar(ch) if is_ascii_digit(ch) => {
                self.push_digit(10, hex_digit_value(ch));
            },
            Codepoint::Scalar(';') => {
                self.switch_to(State::NumericCharacterReferenceEnd);
            },
            _ => {
                self.emit_parse_error(ParseError::MissingSemicolonAfterCharacterReference);
                self.reconsume_in(State::NumericCharacterReferenceEnd);
            },
        }
    }

    pub(crate) fn handle_numeric_character_reference_end(&mut self)
        ensures
            final(self)@ == numeric_character_reference_end(old(self)@),
    {
        let code = self.code();
        match check_reference(code) {
            Some(error) => {
                self.emit_parse_error(error);
            },
            None => {},
        }
        self.clear_buffer();
        self.push_buffer(resolve_reference(code));
        self.flush_code_points();
        self.leave_reference();
    }
}

} // verus!
