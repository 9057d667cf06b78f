use vstd::prelude::*;
use crate::tokenizer::entities::{entity, entity_name, entity_text, ENTITY_COUNT};
use crate::tokenizer::error::ParseError;
use crate::tokenizer::machine::Machine;
use crate::tokenizer::state::State;
use crate::tokenizer::util::{is_alphanumeric, is_ascii_alphanumeric, Codepoint};
use crate::tokenizer::TokenizerImpl;

verus! {

/// Whether the next items of input spell the name of the reference number `index`.
pub open spec fn entity_ahead(m: Machine, index: int) -> bool {
    m.literal_ahead(entity_name(index), true)
}

/// Among the first `limit` named references, the one with the longest name that the next
/// items of input spell; `None` if they spell none of those names.
pub open spec fn longest_entity(m: Machine, limit: nat) -> Option<int>
    decreases limit,
{
    if limit == 0 {
        None
    } else {
        let index = limit - 1;
        let earlier = longest_entity(m, index as nat);
        if entity_ahead(m, index) && (earlier is None || entity_name(earlier->0).len()
            < entity_name(index).len()) {
            Some(index)
        } else {
            earlier
        }
    }
}

/// Whether `name` ends in `;`.
pub open spec fn ends_with_semicolon(name: Seq<char>) -> bool {
    name.len() > 0 && name.last() == ';'
}

/// Whether `codepoint` is `=` or a letter or digit: after a reference without `;` inside an
/// attribute value, such a character shows that no reference was meant.
pub open spec fn continues_attribute_value(codepoint: Codepoint) -> bool {
    match codepoint {
        Codepoint::Scalar(ch) => ch == '=' || is_alphanumeric(ch),
        Codepoint::EndOfFile => false,
    }
}

/// After `&` and before a letter or digit. The longest name of a reference that the input
/// spells is read. The characters that it stands for are handed on, a missing `;` being
/// reported. Inside an attribute value a name without `;` that is followed by `=`, a letter
/// or a digit is kept as text instead. Where the input spells no name, the `&` is text and
/// what follows is read as an ambiguous ampersand.
pub open spec fn named_character_reference(m: Machine) -> Machine {
    match longest_entity(m, ENTITY_COUNT as nat) {
        Some(index) => {
            let name = entity_name(index);
            let read = m.consume_many(name.len()).append_buffer(name);
            if m.in_attribute() && !ends_with_semicolon(name) && continues_attribute_value(
                read.peek(0),
            ) {
                read.flush_code_points().leave_reference()
            } else {
                let reported = if ends_with_semicolon(name) {
                    read
                } else {
                    read.emit_parse_error(ParseError::MissingSemicolonAfterCharacterReference)
                };
                reported.clear_buffer().append_buffer(
                    entity_text(index),
                ).flush_code_points().leave_reference()
            }
        },
        None => m.flush_code_points().switch_to(State::AmbiguousAmpersand),
    }
}

/// The reference that `longest_entity` finds is one whose name the input spells, and the
/// input spells no longer name among the first `limit`. It finds none only if the input
/// spells none of those names.
pub proof fn lemma_longest_entity(m: Machine, limit: nat)
    ensures
        match longest_entity(m, limit) {
            Some(best) => 0 <= best < limit && entity_ahead(m, best) && forall|other: int|
                0 <= other < limit && entity_ahead(m, other) ==> entity_name(other).len()
                    <= entity_name(best).len(),
            None => forall|other: int| 0 <= other < limit ==> !entity_ahead(m, other),
        },
    decreases limit,
{
    if limit > 0 {
        lemma_longest_entity(m, (limit - 1) as nat);
    }
}

/// Whether `state` is one of the states whose transitions stand in this file.
pub open spec fn covers(state: State) -> bool {
    matches!(
        state,
        State::NamedCharacterReference
    )
}

/// The transition of the named character reference state. In any other state the machine
/// stays as it is.
#[verifier::opaque]
pub open spec fn transition(m: Machine) -> Machine {
    match m.state {
        State::NamedCharacterReference => named_character_reference(m),
        _ => m,
    }
}

impl TokenizerImpl {
    /// The named reference with the longest name that the next items of input spell.
    fn find_longest_entity(&self) -> (r: Option<usize>)
        ensures
            r is Some == longest_entity(self@, ENTITY_COUNT as nat) is Some,
            r is Some ==> r->0 as int == longest_entity(self@, ENTITY_COUNT as nat)->0,
            r is Some ==> r->0 < ENTITY_COUNT,
    {
        let mut best: Option<usize> = None;
        let mut best_len: usize = 0;
        let mut index: usize = 0;
        while index < ENTITY_COUNT
            invariant
                index <= ENTITY_COUNT,
                best is Some == longest_entity(self@, index as nat) is Some,
                best is Some ==> best->0 as int == longest_entity(self@, index as nat)->0,
                best is Some ==> best->0 < index,
                best is Some ==> best_len == entity_name(best->0 as int).len(),
            decreases ENTITY_COUNT - index,
        {
            let (name, _) = entity(index);
            if self.next_few_characters_match(name, true) {
                let len = name.unicode_len();
                if best.is_none() || best_len < len {
                    best = Some(index);
                    best_len = len;
                }
            }
            index += 1;
        }
        best
    }

    pub(crate) fn handle_named_character_reference(&mut self)
        ensures
            final(self)@ == named_character_reference(old(self)@),
    {
        match self.find_longest_entity() {
            Some(index) => {
                let attribute = self.in_attribute();
                let (name, text) = entity(index);
                let len = name.unicode_len();
                let semicolon = len > 0 && name.get_char(len - 1) == ';';
                self.advance_input_character(len);
                self.append_buffer(name);
                let follower = match self.peek_next_input_character() {
                    Codepoint::Scalar(ch) => ch == '=' || is_ascii_alphanumeric(ch),
                    Codepoint::EndOfFile => false,
                };
                if attribute && !semicolon && follower {
                    self.flush_code_points();
                    self.leave_reference();
                } else {
                    if !semicolon {
                        self.emit_parse_error(ParseError::MissingSemicolonAfterCharacterReference);
                    }
                    self.clear_buffer();
                    self.append_buffer(text);
                    self.flush_code_points();
                    self.leave_reference();
                }
            },
            None => {
                self.flush_code_points();
                self.switch_to(State::AmbiguousAmpersand);
            },
        }
    }
}

} // verus!
