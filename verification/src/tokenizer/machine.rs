use vstd::prelude::*;
use crate::tokenizer::error::ParseError;
use crate::tokenizer::state::State;
use crate::tokenizer::token::{
    push_to_last_name,
    push_to_last_value,
    AttributeView,
    Item,
    TagKind,
    TokenView,
};
use crate::tokenizer::util::{codepoint_at, Codepoint};

verus! {

/// A doctype under construction.
pub struct DoctypeView {
    pub name: Option<Seq<char>>,
    pub public_identifier: Option<Seq<char>>,
    pub system_identifier: Option<Seq<char>>,
    pub force_quirks: bool,
}

/// A tag under construction.
pub struct TagView {
    pub kind: TagKind,
    pub tag_name: Seq<char>,
    pub self_closing: bool,
    pub attributes: Seq<AttributeView>,
}

/// The whole state of a tokenizer as plain mathematical values. Every transition is a
/// function from one such value to the next.
pub struct Machine {
    /// The input text.
    pub input: Seq<char>,
    /// How many characters of the input have been read.
    pub cursor: nat,
    /// Whether the end-of-file token has been handed to the caller.
    pub finished: bool,
    pub state: State,
    /// Where to go on when a character reference is complete.
    pub return_state: Option<State>,
    /// The item of input that was read last.
    pub current: Codepoint,
    /// Whether the next read gives `current` once more in place of new input.
    pub reconsume: bool,
    pub doctype: Option<DoctypeView>,
    pub tag: Option<TagView>,
    pub comment: Option<Seq<char>>,
    /// The temporary buffer.
    pub buffer: Seq<char>,
    /// The number that a numeric character reference has named so far, capped at 0x110000.
    pub code: nat,
    /// The name of the start tag that was emitted last.
    pub last_start_tag: Option<Seq<char>>,
    /// The items that are ready and were not yet handed to the caller, oldest first.
    pub output: Seq<Item>,
}

/// U+FFFD, which stands in for a character that cannot be kept.
pub open spec fn replacement() -> char {
    '\u{FFFD}'
}

pub open spec fn end_of_file_item() -> Item {
    Ok(TokenView::EndOfFile)
}

pub open spec fn character_item(c: char) -> Item {
    Ok(TokenView::Character(c))
}

/// Whether `state` is one of the three in which an attribute value is read.
pub open spec fn is_attribute_value_state(state: State) -> bool {
    state == State::AttributeValueDoubleQuoted || state == State::AttributeValueSingleQuoted
        || state == State::AttributeValueUnquoted
}

impl DoctypeView {
    pub open spec fn fresh() -> DoctypeView {
        DoctypeView {
            name: None,
            public_identifier: None,
            system_identifier: None,
            force_quirks: false,
        }
    }

    pub open spec fn token(self) -> TokenView {
        TokenView::Doctype {
            name: self.name,
            public_identifier: self.public_identifier,
            system_identifier: self.system_identifier,
            force_quirks: self.force_quirks,
        }
    }
}

impl TagView {
    pub open spec fn fresh(kind: TagKind) -> TagView {
        TagView { kind, tag_name: Seq::empty(), self_closing: false, attributes: Seq::empty() }
    }

    pub open spec fn token(self) -> TokenView {
        TokenView::Tag {
            kind: self.kind,
            tag_name: self.tag_name,
            self_closing: self.self_closing,
            attributes: self.attributes,
        }
    }
}

impl Machine {
    /// The tokenizer before it has read anything of `input`.
    pub open spec fn initial(input: Seq<char>) -> Machine {
        Machine {
            input,
            cursor: 0,
            finished: false,
            state: State::Data,
            return_state: None,
            current: Codepoint::Scalar('\0'),
            reconsume: false,
            doctype: None,
            tag: None,
            comment: None,
            buffer: Seq::empty(),
            code: 0,
            last_start_tag: None,
            output: Seq::empty(),
        }
    }

    /// The item of input `offset` places ahead. With a reconsumption pending, place 0 is the
    /// item read last.
    pub open spec fn peek(self, offset: nat) -> Codepoint {
        if self.reconsume {
            if offset == 0 {
                self.current
            } else {
                codepoint_at(self.input, self.cursor + offset - 1)
            }
        } else {
            codepoint_at(self.input, (self.cursor + offset) as int)
        }
    }

    /// Reads the next item of input into `current`. With a reconsumption pending, `current`
    /// stays and only the mark is cleared. At the end of the input the cursor stays.
    pub open spec fn consume(self) -> Machine {
        if self.reconsume {
            Machine { reconsume: false, ..self }
        } else {
            Machine {
                current: codepoint_at(self.input, self.cursor as int),
                cursor: if self.cursor < self.input.len() {
                    self.cursor + 1
                } else {
                    self.cursor
                },
                ..self
            }
        }
    }

    /// `count` reads, one after the other.
    pub open spec fn consume_many(self, count: nat) -> Machine
        decreases count,
    {
        if count == 0 {
            self
        } else {
            self.consume_many((count - 1) as nat).consume()
        }
    }

    /// Whether the next items of input spell `expected`, compared exactly or with ASCII
    /// letters folded.
    pub open spec fn literal_ahead(self, expected: Seq<char>, case_sensitive: bool) -> bool {
        forall|i: nat|
            i < expected.len() ==> (#[trigger] self.peek(i)).matches_char(
                expected[i as int],
                case_sensitive,
            )
    }

    /// The next `count` items of input as a text. The end of input stands as NUL.
    pub open spec fn text_ahead(self, count: nat) -> Seq<char> {
        Seq::new(
            count,
            |i: int|
                match self.peek(i as nat) {
                    Codepoint::Scalar(c) => c,
                    Codepoint::EndOfFile => '\0',
                },
        )
    }

    /// Reads `expected` if the next items of input spell it; otherwise nothing changes.
    pub open spec fn consume_literal(self, expected: Seq<char>, case_sensitive: bool) -> Machine {
        if self.literal_ahead(expected, case_sensitive) {
            self.consume_many(expected.len())
        } else {
            self
        }
    }

    pub open spec fn switch_to(self, state: State) -> Machine {
        Machine { state, ..self }
    }

    /// Changes the state and marks the item read last to be read again.
    pub open spec fn reconsume_in(self, state: State) -> Machine {
        Machine { state, reconsume: true, ..self }
    }

    pub open spec fn set_return_state(self, state: State) -> Machine {
        Machine { return_state: Some(state), ..self }
    }

    /// The state in which to go on after a character reference: the remembered one if it is
    /// a state from which a reference can start, else the data state.
    pub open spec fn return_target(self) -> State {
        match self.return_state {
            Some(State::RCDATA) => State::RCDATA,
            Some(State::AttributeValueDoubleQuoted) => State::AttributeValueDoubleQuoted,
            Some(State::AttributeValueSingleQuoted) => State::AttributeValueSingleQuoted,
            Some(State::AttributeValueUnquoted) => State::AttributeValueUnquoted,
            _ => State::Data,
        }
    }

    /// Whether the character reference being read stands inside an attribute value.
    pub open spec fn in_attribute(self) -> bool {
        is_attribute_value_state(self.return_target())
    }

    /// Leaves the character reference: goes on in the return state and forgets it.
    pub open spec fn leave_reference(self) -> Machine {
        Machine { state: self.return_target(), return_state: None, ..self }
    }

    /// Leaves the character reference and marks the item read last to be read again.
    pub open spec fn reconsume_in_return_state(self) -> Machine {
        Machine { state: self.return_target(), return_state: None, reconsume: true, ..self }
    }

    pub open spec fn emit(self, item: Item) -> Machine {
        Machine { output: self.output.push(item), ..self }
    }

    pub open spec fn emit_token(self, token: TokenView) -> Machine {
        self.emit(Ok(token))
    }

    pub open spec fn emit_character(self, c: char) -> Machine {
        self.emit(character_item(c))
    }

    pub open spec fn emit_eof(self) -> Machine {
        self.emit(end_of_file_item())
    }

    pub open spec fn emit_parse_error(self, error: ParseError) -> Machine {
        self.emit(Err(error))
    }

    /// Emits the item read last as a character token. The end of input is no character and
    /// emits nothing.
    pub open spec fn emit_current_input_character(self) -> Machine {
        match self.current {
            Codepoint::Scalar(c) => self.emit_character(c),
            Codepoint::EndOfFile => self,
        }
    }

    pub open spec fn create_new_doctype_token(self) -> Machine {
        Machine { doctype: Some(DoctypeView::fresh()), ..self }
    }

    pub open spec fn create_new_tag_token(self, kind: TagKind) -> Machine {
        Machine { tag: Some(TagView::fresh(kind)), ..self }
    }

    pub open spec fn create_new_comment_token(self) -> Machine {
        Machine { comment: Some(Seq::empty()), ..self }
    }

    pub open spec fn set_force_quirks(self) -> Machine {
        match self.doctype {
            Some(d) => Machine { doctype: Some(DoctypeView { force_quirks: true, ..d }), ..self },
            None => self,
        }
    }

    /// Makes the one character `c` the doctype's name.
    pub open spec fn start_doctype_name(self, c: char) -> Machine {
        match self.doctype {
            Some(d) => Machine { doctype: Some(DoctypeView { name: Some(seq![c]), ..d }), ..self },
            None => self,
        }
    }

    pub open spec fn push_doctype_name(self, c: char) -> Machine {
        match self.doctype {
            Some(d) => match d.name {
                Some(name) => Machine {
                    doctype: Some(DoctypeView { name: Some(name.push(c)), ..d }),
                    ..self
                },
                None => self,
            },
            None => self,
        }
    }

    /// Makes the doctype's public identifier the empty text.
    pub open spec fn start_public_identifier(self) -> Machine {
        match self.doctype {
            Some(d) => Machine {
                doctype: Some(DoctypeView { public_identifier: Some(Seq::empty()), ..d }),
                ..self
            },
            None => self,
        }
    }

    pub open spec fn push_public_identifier(self, c: char) -> Machine {
        match self.doctype {
            Some(d) => match d.public_identifier {
                Some(id) => Machine {
                    doctype: Some(DoctypeView { public_identifier: Some(id.push(c)), ..d }),
                    ..self
                },
                None => self,
            },
            None => self,
        }
    }

    /// Makes the doctype's system identifier the empty text.
    pub open spec fn start_system_identifier(self) -> Machine {
        match self.doctype {
            Some(d) => Machine {
                doctype: Some(DoctypeView { system_identifier: Some(Seq::empty()), ..d }),
                ..self
            },
            None => self,
        }
    }

    pub open spec fn push_system_identifier(self, c: char) -> Machine {
        match self.doctype {
            Some(d) => match d.system_identifier {
                Some(id) => Machine {
                    doctype: Some(DoctypeView { system_identifier: Some(id.push(c)), ..d }),
                    ..self
                },
                None => self,
            },
            None => self,
        }
    }

    /// Emits the doctype under construction and clears its place. Without one nothing
    /// changes.
    pub open spec fn emit_current_doctype_token(self) -> Machine {
        match self.doctype {
            Some(d) => Machine { doctype: None, ..self }.emit_token(d.token()),
            None => self,
        }
    }

    pub open spec fn push_tag_name(self, c: char) -> Machine {
        match self.tag {
            Some(t) => Machine { tag: Some(TagView { tag_name: t.tag_name.push(c), ..t }), ..self },
            None => self,
        }
    }

    pub open spec fn set_self_closing(self) -> Machine {
        match self.tag {
            Some(t) => Machine { tag: Some(TagView { self_closing: true, ..t }), ..self },
            None => self,
        }
    }

    /// Adds an attribute with an empty name and an empty value to the tag.
    pub open spec fn start_attribute(self) -> Machine {
        match self.tag {
            Some(t) => Machine {
                tag: Some(
                    TagView { attributes: t.attributes.push((Seq::empty(), Seq::empty())), ..t },
                ),
                ..self
            },
            None => self,
        }
    }

    pub open spec fn push_attribute_name(self, c: char) -> Machine {
        match self.tag {
            Some(t) => Machine {
                tag: Some(TagView { attributes: push_to_last_name(t.attributes, c), ..t }),
                ..self
            },
            None => self,
        }
    }

    pub open spec fn push_attribute_value(self, c: char) -> Machine {
        match self.tag {
            Some(t) => Machine {
                tag: Some(TagView { attributes: push_to_last_value(t.attributes, c), ..t }),
                ..self
            },
            None => self,
        }
    }

    /// Whether the tag under construction is an end tag that closes the start tag emitted
    /// last.
    pub open spec fn is_appropriate_end_tag(self) -> bool {
        match self.tag {
            Some(t) => t.kind == TagKind::End && self.last_start_tag == Some(t.tag_name),
            None => false,
        }
    }

    /// Emits the tag under construction and clears its place. An end tag that has attributes
    /// or is marked self-closing is reported first. A start tag's name is remembered.
    /// Without a tag nothing changes.
    pub open spec fn emit_current_tag_token(self) -> Machine {
        match self.tag {
            Some(t) => {
                let m1 = if t.kind == TagKind::End && t.attributes.len() > 0 {
                    self.emit_parse_error(ParseError::EndTagWithAttributes)
                } else {
                    self
                };
                let m2 = if t.kind == TagKind::End && t.self_closing {
                    m1.emit_parse_error(ParseError::EndTagWithTrailingSolidus)
                } else {
                    m1
                };
                Machine {
                    tag: None,
                    last_start_tag: if t.kind == TagKind::Start {
                        Some(t.tag_name)
                    } else {
                        self.last_start_tag
                    },
                    ..m2
                }.emit_token(t.token())
            },
            None => self,
        }
    }

    /// Gives up the tag under construction: it is never emitted.
    pub open spec fn discard_current_tag_token(self) -> Machine {
        Machine { tag: None, ..self }
    }

    pub open spec fn push_comment(self, c: char) -> Machine {
        match self.comment {
            Some(data) => Machine { comment: Some(data.push(c)), ..self },
            None => self,
        }
    }

    /// Emits the comment under construction and clears its place. Without one nothing
    /// changes.
    pub open spec fn emit_current_comment_token(self) -> Machine {
        match self.comment {
            Some(data) => Machine { comment: None, ..self }.emit_token(
                TokenView::Comment { data },
            ),
            None => self,
        }
    }

    pub open spec fn clear_buffer(self) -> Machine {
        Machine { buffer: Seq::empty(), ..self }
    }

    pub open spec fn push_buffer(self, c: char) -> Machine {
        Machine { buffer: self.buffer.push(c), ..self }
    }

    /// Emits the first `count` characters of `text`, one character token each.
    pub open spec fn emit_characters(self, text: Seq<char>, count: nat) -> Machine
        decreases count,
    {
        if count == 0 {
            self
        } else {
            self.emit_characters(text, (count - 1) as nat).emit_character(text[count - 1])
        }
    }

    /// Adds the first `count` characters of `text` to the value of the last attribute.
    pub open spec fn push_attribute_value_text(self, text: Seq<char>, count: nat) -> Machine
        decreases count,
    {
        if count == 0 {
            self
        } else {
            self.push_attribute_value_text(text, (count - 1) as nat).push_attribute_value(
                text[count - 1],
            )
        }
    }

    /// Emits each character of the temporary buffer as a character token.
    pub open spec fn emit_buffer(self) -> Machine {
        self.emit_characters(self.buffer, self.buffer.len())
    }

    /// Hands on what was read as a character reference: inside an attribute value the
    /// temporary buffer is added to that value, elsewhere its characters are emitted.
    pub open spec fn flush_code_points(self) -> Machine {
        if self.in_attribute() {
            self.push_attribute_value_text(self.buffer, self.buffer.len())
        } else {
            self.emit_buffer()
        }
    }

    /// Makes `text` the content of the temporary buffer.
    pub open spec fn set_buffer(self, text: Seq<char>) -> Machine {
        Machine { buffer: text, ..self }
    }

    /// Adds `text` at the end of the temporary buffer.
    pub open spec fn append_buffer(self, text: Seq<char>) -> Machine {
        Machine { buffer: self.buffer + text, ..self }
    }

    pub open spec fn set_code(self, code: nat) -> Machine {
        Machine { code, ..self }
    }

    /// Takes one more digit of value `digit` in base `base` into the character reference
    /// code. A code beyond the last code point stays at 0x110000.
    pub open spec fn push_digit(self, base: nat, digit: nat) -> Machine {
        let next = self.code * base + digit;
        Machine {
            code: if next > 0x10FFFF {
                0x110000
            } else {
                next
            },
            ..self
        }
    }

    /// Takes the first item out of the output.
    pub open spec fn pop_output(self) -> Machine {
        Machine { output: self.output.drop_first(), ..self }
    }
}

} // verus!
