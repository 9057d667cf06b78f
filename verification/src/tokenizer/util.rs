use vstd::prelude::*;
use vstd::std_specs::convert::{FromSpecImpl, TryFromSpecImpl};

verus! {

/// One item of input: a Unicode scalar value, or the marker that stands for the end of the
/// input.
#[derive(Clone, Copy, Debug, PartialEq, Eq, Structural)]
pub enum Codepoint {
    Scalar(char),
    EndOfFile,
}

/// U+FFFD, which is put in the place of a character that cannot be kept.
pub const REPLACEMENT_CHARACTER: char = '\u{FFFD}';

pub open spec fn is_upper(c: char) -> bool {
    'A' <= c <= 'Z'
}

pub open spec fn is_lower(c: char) -> bool {
    'a' <= c <= 'z'
}

pub open spec fn is_alpha(c: char) -> bool {
    is_upper(c) || is_lower(c)
}

pub open spec fn is_digit(c: char) -> bool {
    '0' <= c <= '9'
}

pub open spec fn is_alphanumeric(c: char) -> bool {
    is_alpha(c) || is_digit(c)
}

pub open spec fn is_upper_hex(c: char) -> bool {
    'A' <= c <= 'F'
}

pub open spec fn is_lower_hex(c: char) -> bool {
    'a' <= c <= 'f'
}

pub open spec fn is_hex_digit(c: char) -> bool {
    is_digit(c) || is_upper_hex(c) || is_lower_hex(c)
}

/// Tab, line feed, form feed and space: the characters that separate the parts of a tag or
/// of a doctype.
pub open spec fn is_whitespace(c: char) -> bool {
    c == '\t' || c == '\n' || c == '\u{000C}' || c == ' '
}

/// `c` with an ASCII upper-case letter folded to lower case; every other character is
/// returned as it is.
pub open spec fn to_lower(c: char) -> char {
    if is_upper(c) {
        ((c as int) + 32) as char
    } else {
        c
    }
}

/// The value of a hexadecimal digit, 0 for any other character.
pub open spec fn hex_value(c: char) -> int {
    if is_digit(c) {
        (c as int) - 0x30
    } else if is_upper_hex(c) {
        (c as int) - 0x37
    } else if is_lower_hex(c) {
        (c as int) - 0x57
    } else {
        0
    }
}

pub fn is_ascii_uppercase(c: char) -> (r: bool)
    ensures
        r == is_upper(c),
{
    'A' <= c && c <= 'Z'
}

pub fn is_ascii_lowercase(c: char) -> (r: bool)
    ensures
        r == is_lower(c),
{
    'a' <= c && c <= 'z'
}

pub fn is_ascii_alphabetic(c: char) -> (r: bool)
    ensures
        r == is_alpha(c),
{
    is_ascii_uppercase(c) || is_ascii_lowercase(c)
}

pub fn is_ascii_digit(c: char) -> (r: bool)
    ensures
        r == is_digit(c),
{
    '0' <= c && c <= '9'
}

pub fn is_ascii_alphanumeric(c: char) -> (r: bool)
    ensures
        r == is_alphanumeric(c),
{
    is_ascii_alphabetic(c) || is_ascii_digit(c)
}

pub fn is_ascii_hexdigit(c: char) -> (r: bool)
    ensures
        r == is_hex_digit(c),
{
    is_ascii_digit(c) || ('A' <= c && c <= 'F') || ('a' <= c && c <= 'f')
}

pub fn is_tag_whitespace(c: char) -> (r: bool)
    ensures
        r == is_whitespace(c),
{
    c == '\t' || c == '\n' || c == '\u{000C}' || c == ' '
}

pub fn to_ascii_lowercase(c: char) -> (r: char)
    ensures
        r == to_lower(c),
{
    if is_ascii_uppercase(c) {
        ((c as u8) + 32) as char
    } else {
        c
    }
}

pub fn hex_digit_value(c: char) -> (r: u32)
    ensures
        r == hex_value(c),
        r < 16,
{
    if is_ascii_digit(c) {
        (c as u32) - 0x30
    } else if 'A' <= c && c <= 'F' {
        (c as u32) - 0x37
    } else if 'a' <= c && c <= 'f' {
        (c as u32) - 0x57
    } else {
        0
    }
}

impl Codepoint {
    /// Whether this is the scalar value `other`, compared exactly or, where `case_sensitive`
    /// is false, with ASCII letters folded. The end of input equals no character.
    pub open spec fn matches_char(self, other: char, case_sensitive: bool) -> bool {
        match self {
            Codepoint::Scalar(ch) => if case_sensitive {
                ch == other
            } else {
                to_lower(ch) == to_lower(other)
            },
            Codepoint::EndOfFile => false,
        }
    }

    /// Whether the two are the same item of input under the given case rule. The end of
    /// input equals only itself.
    pub open spec fn matches(self, other: Codepoint, case_sensitive: bool) -> bool {
        match other {
            Codepoint::Scalar(ch) => self.matches_char(ch, case_sensitive),
            Codepoint::EndOfFile => self is EndOfFile,
        }
    }

    /// The NUL character as an item of input.
    pub fn null() -> (r: Codepoint)
        ensures
            r == Codepoint::Scalar('\0'),
    {
        Codepoint::Scalar('\0')
    }

    /// Whether the two are the same item of input, compared exactly or with ASCII letters
    /// folded.
    pub fn eq(&self, other: &Codepoint, case_sensitive: bool) -> (r: bool)
        ensures
            r == self.matches(*other, case_sensitive),
    {
        match other {
            Codepoint::Scalar(other_ch) => self.eq_char(other_ch, case_sensitive),
            Codepoint::EndOfFile => match self {
                Codepoint::Scalar(_) => false,
                Codepoint::EndOfFile => true,
            },
        }
    }

    /// Whether this is the character `other`, compared exactly or with ASCII letters folded.
    pub fn eq_char(&self, other: &char, case_sensitive: bool) -> (r: bool)
        ensures
            r == self.matches_char(*other, case_sensitive),
    {
        match self {
            Codepoint::Scalar(ch) => {
                if case_sensitive {
                    *ch == *other
                } else {
                    to_ascii_lowercase(*ch) == to_ascii_lowercase(*other)
                }
            },
            Codepoint::EndOfFile => false,
        }
    }
}

impl From<char> for Codepoint {
    fn from(ch: char) -> (r: Codepoint) {
        Codepoint::Scalar(ch)
    }
}

impl FromSpecImpl<char> for Codepoint {
    open spec fn obeys_from_spec() -> bool {
        true
    }

    open spec fn from_spec(ch: char) -> Codepoint {
        Codepoint::Scalar(ch)
    }
}

/// The number of a scalar value; 0xFFFFFFFF, which is the number of no character, for the
/// end of input.
impl From<Codepoint> for u32 {
    fn from(codepoint: Codepoint) -> (r: u32) {
        match codepoint {
            Codepoint::Scalar(ch) => ch as u32,
            Codepoint::EndOfFile => 0xffffffff,
        }
    }
}

impl FromSpecImpl<Codepoint> for u32 {
    open spec fn obeys_from_spec() -> bool {
        true
    }

    open spec fn from_spec(codepoint: Codepoint) -> u32 {
        match codepoint {
            Codepoint::Scalar(ch) => ch as u32,
            Codepoint::EndOfFile => 0xffffffff,
        }
    }
}

/// The scalar value; the end of input is no character and gives an error.
impl TryFrom<Codepoint> for char {
    type Error = ();

    fn try_from(codepoint: Codepoint) -> (r: Result<char, ()>) {
        match codepoint {
            Codepoint::Scalar(ch) => Ok(ch),
            Codepoint::EndOfFile => Err(()),
        }
    }
}

impl TryFromSpecImpl<Codepoint> for char {
    open spec fn obeys_try_from_spec() -> bool {
        true
    }

    open spec fn try_from_spec(codepoint: Codepoint) -> Result<char, ()> {
        match codepoint {
            Codepoint::Scalar(ch) => Ok(ch),
            Codepoint::EndOfFile => Err(()),
        }
    }
}

/// The item of `input` at `index`: its scalar value, or the end marker at and beyond the
/// end.
pub open spec fn codepoint_at(input: Seq<char>, index: int) -> Codepoint {
    if 0 <= index < input.len() {
        Codepoint::Scalar(input[index])
    } else {
        Codepoint::EndOfFile
    }
}

/// Whether the characters of `source` from `position` on spell `expected`, compared exactly
/// or with ASCII letters folded.
pub open spec fn literal_at(
    source: Seq<char>,
    position: nat,
    expected: Seq<char>,
    case_sensitive: bool,
) -> bool {
    forall|i: nat|
        i < expected.len() ==> (#[trigger] codepoint_at(
            source,
            (position + i) as int,
        )).matches_char(expected[i as int], case_sensitive)
}

/// The decoded input text and a read position in it, counted in scalar values.
pub struct CodepointStream {
    source: Vec<char>,
    cursor: usize,
}

impl CodepointStream {
    /// The read position never lies beyond the end of the input.
    #[verifier::type_invariant]
    closed spec fn within_input(self) -> bool {
        self.cursor <= self.source.len()
    }

    /// The whole input text.
    pub closed spec fn source(&self) -> Seq<char> {
        self.source@
    }

    /// The read position: the number of scalar values passed so far.
    pub closed spec fn position(&self) -> nat {
        self.cursor as nat
    }

    /// A stream over `source`, positioned at its start.
    pub fn from_string(source: String) -> (r: CodepointStream)
        ensures
            r.source() == source@,
            r.position() == 0,
    {
        let mut chars: Vec<char> = Vec::new();
        for c in it: source.as_str().chars()
            invariant
                chars@ == it.seq().take(it.index()),
        {
            chars.push(c);
        }
        CodepointStream { source: chars, cursor: 0 }
    }

    /// The item `offset` places ahead of the read position. The stream is left as it is.
    pub fn peek(&self, offset: usize) -> (r: Codepoint)
        ensures
            r == codepoint_at(self.source(), self.position() + offset),
    {
        proof {
            use_type_invariant(self);
        }
        let len = self.source.len();
        if offset < len - self.cursor {
            Codepoint::Scalar(self.source[self.cursor + offset])
        } else {
            Codepoint::EndOfFile
        }
    }

    /// Moves the read position `count` places on, but never beyond the end of the input.
    /// Returns whether the new position is still inside the input.
    pub fn advance(&mut self, count: usize) -> (r: bool)
        ensures
            final(self).source() == old(self).source(),
            final(self).position() <= final(self).source().len(),
            final(self).position() == if old(self).position() + count < old(self).source().len() {
                old(self).position() + count
            } else {
                old(self).source().len() as int
            },
            r == (old(self).position() + count < old(self).source().len()),
    {
        proof {
            use_type_invariant(&*self);
        }
        let len = self.source.len();
        if count < len - self.cursor {
            self.cursor += count;
            true
        } else {
            self.cursor = len;
            false
        }
    }

    /// Reads `expected` if the input spells it at the read position, compared exactly or with
    /// ASCII letters folded, and returns the text that was read. Otherwise the stream stays
    /// as it is and the result is `None`.
    pub fn try_consume_literal(&mut self, expected: &str, case_sensitive: bool) -> (r: Option<
        String,
    >)
        ensures
            final(self).source() == old(self).source(),
            r is Some <==> literal_at(
                old(self).source(),
                old(self).position(),
                expected@,
                case_sensitive,
            ),
            r is Some ==> final(self).position() == old(self).position() + expected@.len()
                && final(self).position() <= final(self).source().len() && r->0@ == old(
                self,
            ).source().subrange(old(self).position() as int, final(self).position() as int),
            r is None ==> final(self).position() == old(self).position(),
    {
        proof {
            use_type_invariant(&*self);
        }
        let count = expected.unicode_len();
        let mut text = String::new();
        let mut idx: usize = 0;
        while idx < count
            invariant
                idx <= count,
                count == expected@.len(),
                *self == *old(self),
                self.position() + idx <= self.source().len(),
                text@ == self.source().subrange(
                    self.position() as int,
                    self.position() + idx as int,
                ),
                forall|i: nat|
                    i < idx ==> (#[trigger] codepoint_at(
                        self.source(),
                        (self.position() + i) as int,
                    )).matches_char(expected@[i as int], case_sensitive),
            decreases count - idx,
        {
            let expected_ch = expected.get_char(idx);
            let codepoint = self.peek(idx);
            match codepoint {
                Codepoint::Scalar(ch) => {
                    if codepoint.eq_char(&expected_ch, case_sensitive) {
                        text.push(ch);
                    } else {
                        return None;
                    }
                },
                Codepoint::EndOfFile => {
                    assert(!codepoint_at(
                        self.source(),
                        (self.position() + idx as nat) as int,
                    ).matches_char(expected@[idx as int], case_sensitive));
                    return None;
                },
            }
            idx += 1;
        }
        self.cursor = self.cursor + count;
        Some(text)
    }

    /// Returns the item at the read position and moves one place on. At the end of the
    /// input it returns the end marker and leaves the position where it is.
    pub fn consume_next(&mut self) -> (r: Codepoint)
        ensures
            final(self).source() == old(self).source(),
            r == codepoint_at(old(self).source(), old(self).position() as int),
            final(self).position() <= final(self).source().len(),
            final(self).position() == if old(self).position() < old(self).source().len() {
                old(self).position() + 1
            } else {
                old(self).position()
            },
    {
        proof {
            use_type_invariant(&*self);
        }
        let codepoint = self.peek(0);
        self.advance(1);
        codepoint
    }
}

} // verus!
