use vstd::prelude::*;
use vstd::seq_lib::to_multiset_build;
use vstd::std_specs::cmp::PartialEqSpec;
use crate::tokenizer::error::ParseError;
use crate::tokenizer::machine::{character_item, end_of_file_item, DoctypeView, Machine};
use crate::tokenizer::progress::{pending_items, tokenize};
use crate::tokenizer::state::State;
use crate::tokenizer::step;
use crate::tokenizer::token::{
    lemma_occurrences_is_count,
    lemma_same_multiset,
    occurrences,
    AttributeView,
    Attributes,
    Item,
    TokenView,
};
use crate::tokenizer::util::{to_lower, Codepoint};
use crate::tokenizer::{impl_attribute, impl_comment, impl_data, impl_doctype, impl_tag};

pub mod comments;
pub mod doctypes;
pub mod tags;

verus! {


/// Equality of attribute lists does not depend on the order: two lists that differ only in
/// that two attributes have changed places are equal.
pub proof fn lemma_attributes_equal_when_swapped(
    a: Attributes,
    b: Attributes,
    front: Seq<AttributeView>,
    first: AttributeView,
    second: AttributeView,
    back: Seq<AttributeView>,
)
    requires
        a@ == front.push(first).push(second) + back,
        b@ == front.push(second).push(first) + back,
    ensures
        a.eq_spec(&b),
{
    lemma_same_multiset(a@, b@);
    assert forall|x: AttributeView| occurrences(a@, x) == occurrences(b@, x) by {
        lemma_occurrences_is_count(a@, x);
        lemma_occurrences_is_count(b@, x);
        lemma_multiset_of_parts(front.push(first).push(second), back);
        lemma_multiset_of_parts(front.push(second).push(first), back);
        to_multiset_build(front, first);
        to_multiset_build(front, second);
        to_multiset_build(front.push(first), second);
        to_multiset_build(front.push(second), first);
    }
}

/// Equality of attribute lists tells apart lists that differ in one attribute, also where
/// the two attributes have the same name and differ only in their values.
pub proof fn lemma_attributes_differ_by_one(
    a: Attributes,
    b: Attributes,
    front: Seq<AttributeView>,
    first: AttributeView,
    second: AttributeView,
    back: Seq<AttributeView>,
)
    requires
        a@ == front.push(first) + back,
        b@ == front.push(second) + back,
        first != second,
    ensures
        !a.eq_spec(&b),
{
    lemma_multiset_of_parts(front.push(first), back);
    lemma_multiset_of_parts(front.push(second), back);
    to_multiset_build(front, first);
    to_multiset_build(front, second);
    assert(b@.to_multiset().count(first) == front.to_multiset().count(first)
        + back.to_multiset().count(first));
}

proof fn lemma_multiset_of_parts(left: Seq<AttributeView>, right: Seq<AttributeView>)
    ensures
        (left + right).to_multiset() == left.to_multiset().add(right.to_multiset()),
{
    vstd::seq_lib::lemma_multiset_commutative(left, right);
}

/// In the data state a NUL character is reported and then emitted as it is: it is not
/// replaced.
pub proof fn lemma_nul_in_data_is_kept(m: Machine)
    requires
        m.state == State::Data,
        m.peek(0) == Codepoint::Scalar('\0'),
    ensures
        step(m).output == m.output.push(Err(ParseError::UnexpectedNullCharacter)).push(
            character_item('\0'),
        ),
        step(m).state == State::Data,
{
    reveal(impl_data::transition);
}

/// Inside a tag's name, a comment, an attribute's name or value, and a doctype's name a NUL
/// character is reported and U+FFFD takes its place. Nothing is emitted but the error.
pub proof fn lemma_nul_in_construct_is_replaced(m: Machine)
    requires
        m.peek(0) == Codepoint::Scalar('\0'),
    ensures
        m.state == State::TagName ==> step(m) == m.consume().emit_parse_error(
            ParseError::UnexpectedNullCharacter,
        ).push_tag_name('\u{FFFD}'),
        m.state == State::Comment || m.state == State::BogusComment ==> step(m)
            == m.consume().emit_parse_error(ParseError::UnexpectedNullCharacter).push_comment(
            '\u{FFFD}',
        ),
        m.state == State::AttributeName ==> step(m) == m.consume().emit_parse_error(
            ParseError::UnexpectedNullCharacter,
        ).push_attribute_name('\u{FFFD}'),
        m.state == State::AttributeValueDoubleQuoted || m.state
            == State::AttributeValueSingleQuoted || m.state == State::AttributeValueUnquoted
            ==> step(m) == m.consume().emit_parse_error(
            ParseError::UnexpectedNullCharacter,
        ).push_attribute_value('\u{FFFD}'),
        m.state == State::BeforeDOCTYPEName ==> step(m) == m.consume().emit_parse_error(
            ParseError::UnexpectedNullCharacter,
        ).create_new_doctype_token().start_doctype_name('\u{FFFD}').switch_to(State::DOCTYPEName),
        m.state == State::DOCTYPEName ==> step(m) == m.consume().emit_parse_error(
            ParseError::UnexpectedNullCharacter,
        ).push_doctype_name('\u{FFFD}'),
        m.state == State::DOCTYPEPublicIdentifierDoubleQuoted || m.state
            == State::DOCTYPEPublicIdentifierSingleQuoted ==> step(m)
            == m.consume().emit_parse_error(
            ParseError::UnexpectedNullCharacter,
        ).push_public_identifier('\u{FFFD}'),
        m.state == State::DOCTYPESystemIdentifierDoubleQuoted || m.state
            == State::DOCTYPESystemIdentifierSingleQuoted ==> step(m)
            == m.consume().emit_parse_error(
            ParseError::UnexpectedNullCharacter,
        ).push_system_identifier('\u{FFFD}'),
{
    reveal(impl_tag::transition);
    reveal(impl_comment::transition);
    reveal(impl_attribute::transition);
    reveal(impl_doctype::transition);
}

/// The name of a doctype keeps U+FFFD in the place of a NUL character: with a doctype whose
/// name is `name` under construction, the name afterwards is `name` and then U+FFFD.
pub proof fn lemma_nul_in_doctype_name(m: Machine, doctype: DoctypeView, name: Seq<char>)
    requires
        m.state == State::DOCTYPEName,
        m.peek(0) == Codepoint::Scalar('\0'),
        m.doctype == Some(doctype),
        doctype.name == Some(name),
    ensures
        step(m).doctype == Some(DoctypeView { name: Some(name.push('\u{FFFD}')), ..doctype }),
        step(m).output == m.output.push(Err(ParseError::UnexpectedNullCharacter)),
        step(m).state == State::DOCTYPEName,
{
    reveal(impl_doctype::transition);
}

/// The output for the empty input is the end-of-file token and nothing else.
pub proof fn lemma_empty_input_gives_only_end_of_file()
    ensures
        tokenize(Seq::empty()) == seq![end_of_file_item()],
{
    reveal(impl_data::transition);
    let start = Machine::initial(Seq::empty());
    assert(pending_items(start) == pending_items(step(start)));
}

/// Whether `c` is a character that the data state emits without more ado: any character
/// but `<`, `&` and NUL.
pub open spec fn is_plain(c: char) -> bool {
    c != '<' && c != '&' && c != '\0'
}

/// The characters of `input` from place `from` on, one character token each, and then the
/// end-of-file token.
pub open spec fn as_characters(input: Seq<char>, from: int) -> Seq<Item> {
    Seq::new((input.len() - from) as nat, |i: int| character_item(input[from + i])).push(
        end_of_file_item(),
    )
}

proof fn lemma_plain_text_from(m: Machine)
    requires
        m.state == State::Data,
        !m.reconsume,
        m.output.len() == 0,
        m.cursor <= m.input.len(),
        forall|i: int| 0 <= i < m.input.len() ==> is_plain(#[trigger] m.input[i]),
    ensures
        pending_items(m) == as_characters(m.input, m.cursor as int),
    decreases m.input.len() - m.cursor,
{
    reveal(impl_data::transition);
    let after = step(m);
    assert(pending_items(m) == pending_items(after));
    if m.cursor < m.input.len() {
        let c = m.input[m.cursor as int];
        assert(is_plain(c));
        assert(after.output == seq![character_item(c)]);
        let rest = after.pop_output();
        assert(rest.output =~= Seq::<Item>::empty());
        lemma_plain_text_from(rest);
        assert(pending_items(after) == seq![character_item(c)] + pending_items(rest));
        let tail = as_characters(m.input, (m.cursor + 1) as int);
        assert(seq![character_item(c)] + tail =~= as_characters(m.input, m.cursor as int));
    } else {
        assert(after.output == seq![end_of_file_item()]);
        assert(as_characters(m.input, m.cursor as int) =~= seq![end_of_file_item()]);
    }
}

/// A text without `<`, `&` and NUL comes out as it went in: the output is its characters,
/// one character token each, and then the end-of-file token. No error is reported.
pub proof fn lemma_plain_text_is_emitted_as_it_is(input: Seq<char>)
    requires
        forall|i: int| 0 <= i < input.len() ==> is_plain(#[trigger] input[i]),
    ensures
        tokenize(input) == as_characters(input, 0),
{
    lemma_plain_text_from(Machine::initial(input));
}

/// `text` with its ASCII upper-case letters folded to lower case.
pub open spec fn folded(text: Seq<char>) -> Seq<char> {
    Seq::new(text.len(), |i: int| to_lower(text[i]))
}

/// Whether the machine stands in `state` at place `cursor` of `input`, with nothing to read
/// again and nothing in its output.
pub open spec fn stands_at(m: Machine, input: Seq<char>, state: State, cursor: nat) -> bool {
    m.input == input && m.state == state && m.cursor == cursor && !m.reconsume
        && m.output.len() == 0
}

/// In the data state at the end of the input, the end-of-file token is all that comes.
pub proof fn lemma_data_ends(m: Machine)
    requires
        stands_at(m, m.input, State::Data, m.input.len()),
    ensures
        pending_items(m) == seq![end_of_file_item()],
{
    reveal(impl_data::transition);
    assert(step(m).output == seq![end_of_file_item()]);
    assert(pending_items(m) == pending_items(step(m)));
}

/// The item that holds `token`.
pub open spec fn token_item(token: TokenView) -> Item {
    Ok(token)
}

/// The item that reports `error`.
pub open spec fn error_item(error: ParseError) -> Item {
    Err(error)
}

/// After `<!` at the start of the input the tokenizer stands in the markup declaration open
/// state, and has emitted nothing.
pub proof fn lemma_markup_declaration_opens(input: Seq<char>) -> (m: Machine)
    requires
        input.len() >= 2,
        input[0] == '<',
        input[1] == '!',
    ensures
        stands_at(m, input, State::MarkupDeclarationOpen, 2),
        m.doctype is None,
        pending_items(m) == tokenize(input),
{
    reveal(impl_tag::transition);
    reveal(impl_data::transition);
    let start = Machine::initial(input);
    let opened = step(start);
    let declared = step(opened);
    assert(pending_items(start) == pending_items(opened));
    assert(pending_items(opened) == pending_items(declared));
    declared
}

} // verus!
