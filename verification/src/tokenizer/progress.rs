use vstd::prelude::*;
use crate::tokenizer::entities::{entity_name, entity_text, ENTITY_COUNT};
use crate::tokenizer::error::ParseError;
use crate::tokenizer::machine::{end_of_file_item, Machine};
use crate::tokenizer::state::State;
use crate::tokenizer::step;
use crate::tokenizer::{
    impl_attribute,
    impl_cdata,
    impl_comment,
    impl_data,
    impl_doctype,
    impl_named,
    impl_rawtext,
    impl_reference,
    impl_script,
    impl_tag,
};
use crate::tokenizer::token::Item;
use crate::tokenizer::util::{is_whitespace, Codepoint};

verus! {

/// How much input is still to be read: the characters beyond the cursor, and one more for a
/// character that is to be read again.
pub open spec fn remaining(m: Machine) -> nat {
    let unread: nat = if m.cursor < m.input.len() {
        (m.input.len() - m.cursor) as nat
    } else {
        0
    };
    if m.reconsume && m.current is Scalar {
        unread + 1
    } else {
        unread
    }
}

/// Whether `codepoint` ends an attribute's name without being part of the tag's syntax
/// after it: white space, `/`, `>` or the end of input.
pub open spec fn ends_attribute_name(codepoint: Codepoint) -> bool {
    match codepoint {
        Codepoint::Scalar(ch) => is_whitespace(ch) || ch == '/' || ch == '>',
        Codepoint::EndOfFile => true,
    }
}

/// A bound on the number of steps that the machine can take from here without reading new
/// input.
pub open spec fn rank(m: Machine) -> nat {
    match m.state {
        State::TagOpen | State::EndTagOpen => 1,
        State::RCDATALessThanSign | State::RAWTEXTLessThanSign
        | State::ScriptDataLessThanSign => 1,
        State::RCDATAEndTagOpen | State::RAWTEXTEndTagOpen | State::ScriptDataEndTagOpen => 2,
        State::RCDATAEndTagName | State::RAWTEXTEndTagName | State::ScriptDataEndTagName => 1,
        State::ScriptDataEscapeStart | State::ScriptDataEscapeStartDash => 1,
        State::ScriptDataEscapedLessThanSign | State::ScriptDataEscapedEndTagOpen => 2,
        State::ScriptDataEscapedEndTagName | State::ScriptDataDoubleEscapeStart => 1,
        State::ScriptDataDoubleEscapedLessThanSign | State::ScriptDataDoubleEscapeEnd => 1,
        State::AfterAttributeValueQuoted | State::SelfClosingStartTag => 5,
        State::BeforeAttributeName => 4,
        State::AttributeName => if ends_attribute_name(m.peek(0)) {
            3
        } else {
            1
        },
        State::AfterAttributeName => 2,
        State::BeforeAttributeValue => 1,
        State::MarkupDeclarationOpen => 2,
        State::CommentStart | State::CommentStartDash | State::CommentLessThanSign
        | State::CommentLessThanSignBang | State::CommentEndDash | State::CommentEnd
        | State::CommentEndBang => 1,
        State::CommentLessThanSignBangDash | State::CommentLessThanSignBangDashDash => 2,
        State::AfterDOCTYPEName => 2,
        State::DOCTYPE | State::AfterDOCTYPEPublicKeyword | State::BeforeDOCTYPEPublicIdentifier
        | State::AfterDOCTYPEPublicIdentifier | State::BetweenDOCTYPEPublicAndSystemIdentifiers
        | State::AfterDOCTYPESystemKeyword | State::BeforeDOCTYPESystemIdentifier
        | State::AfterDOCTYPESystemIdentifier => 1,
        State::CDATASectionBracket | State::CDATASectionEnd => 1,
        State::NumericCharacterReference => 4,
        State::CharacterReference | State::HexadecimalCharacterReferenceStart
        | State::DecimalCharacterReferenceStart => 3,
        State::NamedCharacterReference | State::HexadecimalCharacterReference
        | State::DecimalCharacterReference => 2,
        State::AmbiguousAmpersand | State::NumericCharacterReferenceEnd => 1,
        _ => 0,
    }
}

/// Whether the item that the machine emitted last is the end-of-file token.
pub open spec fn ends_with_eof(m: Machine) -> bool {
    m.output.len() > 0 && m.output.last() == end_of_file_item()
}

/// 0 once the end-of-file token stands last in the output, 1 before.
pub open spec fn not_done(m: Machine) -> nat {
    if ends_with_eof(m) {
        0
    } else {
        1
    }
}

/// Whether the machine came closer to its end between `before` and `after`: the
/// end-of-file token was emitted, or input was used up, or, with as much input left, fewer
/// steps are possible without reading.
pub open spec fn progress(before: Machine, after: Machine) -> bool {
    ends_with_eof(after) || remaining(after) < remaining(before) || (remaining(after)
        == remaining(before) && rank(after) < rank(before))
}

/// Whether the two machines stand at the same place: same input, same position, same state.
/// They may differ in the tokens under construction, in the temporary buffer and in the
/// output.
pub open spec fn same_place(a: Machine, b: Machine) -> bool {
    &&& a.input == b.input
    &&& a.cursor == b.cursor
    &&& a.finished == b.finished
    &&& a.state == b.state
    &&& a.return_state == b.return_state
    &&& a.current == b.current
    &&& a.reconsume == b.reconsume
}

/// Emitting characters moves nothing and never emits the end-of-file token.
pub proof fn lemma_emit_characters_place(m: Machine, text: Seq<char>, count: nat)
    ensures
        same_place(m, m.emit_characters(text, count)),
        !ends_with_eof(m) ==> !ends_with_eof(m.emit_characters(text, count)),
        m.emit_characters(text, count).output.len() == m.output.len() + count,
    decreases count,
{
    if count > 0 {
        lemma_emit_characters_place(m, text, (count - 1) as nat);
    }
}

/// Adding text to the value of an attribute moves nothing and emits nothing.
pub proof fn lemma_push_attribute_value_text_place(m: Machine, text: Seq<char>, count: nat)
    ensures
        same_place(m, m.push_attribute_value_text(text, count)),
        m.push_attribute_value_text(text, count).output == m.output,
    decreases count,
{
    if count > 0 {
        lemma_push_attribute_value_text_place(m, text, (count - 1) as nat);
    }
}

/// Handing on the temporary buffer moves nothing: the machine stays at its place.
pub proof fn lemma_flush_place(m: Machine)
    ensures
        same_place(m, m.flush_code_points()),
        same_place(m, m.emit_buffer()),
{
    lemma_emit_characters_place(m, m.buffer, m.buffer.len());
    lemma_push_attribute_value_text_place(m, m.buffer, m.buffer.len());
}

/// Reading never gives input back, and changes neither the state nor the output.
pub proof fn lemma_consume_many(m: Machine, count: nat)
    ensures
        remaining(m.consume_many(count)) <= remaining(m),
        m.consume_many(count).state == m.state,
        m.consume_many(count).return_state == m.return_state,
        m.consume_many(count).output == m.output,
        m.consume_many(count).input == m.input,
        m.consume_many(count).finished == m.finished,
    decreases count,
{
    if count > 0 {
        lemma_consume_many(m, (count - 1) as nat);
    }
}

proof fn lemma_progress_data(m: Machine)
    requires
        impl_data::covers(m.state),
    ensures
        progress(m, impl_data::transition(m)),
        impl_data::transition(m).finished == m.finished,
{
    reveal(impl_data::transition);
}

proof fn lemma_progress_tag(m: Machine)
    requires
        impl_tag::covers(m.state),
    ensures
        progress(m, impl_tag::transition(m)),
        impl_tag::transition(m).finished == m.finished,
{
    reveal(impl_tag::transition);
}

proof fn lemma_progress_rawtext(m: Machine)
    requires
        impl_rawtext::covers(m.state),
    ensures
        progress(m, impl_rawtext::transition(m)),
        impl_rawtext::transition(m).finished == m.finished,
{
    reveal(impl_rawtext::transition);
    let c = m.consume();
    lemma_flush_place(c.emit_character('<').emit_character('/'));
}

proof fn lemma_progress_script(m: Machine)
    requires
        impl_script::covers(m.state),
    ensures
        progress(m, impl_script::transition(m)),
        impl_script::transition(m).finished == m.finished,
{
    reveal(impl_script::transition);
    let c = m.consume();
    lemma_flush_place(c.emit_character('<').emit_character('/'));
}

proof fn lemma_progress_attribute(m: Machine)
    requires
        impl_attribute::covers(m.state),
    ensures
        progress(m, impl_attribute::transition(m)),
        impl_attribute::transition(m).finished == m.finished,
{
    reveal(impl_attribute::transition);
}

proof fn lemma_progress_comment(m: Machine)
    requires
        impl_comment::covers(m.state),
    ensures
        progress(m, impl_comment::transition(m)),
        impl_comment::transition(m).finished == m.finished,
{
    reveal(impl_comment::transition);
    lemma_consume_many(m, "--"@.len());
    lemma_consume_many(m, "DOCTYPE"@.len());
    lemma_consume_many(m, "[CDATA["@.len());
}

proof fn lemma_progress_doctype(m: Machine)
    requires
        impl_doctype::covers(m.state),
    ensures
        progress(m, impl_doctype::transition(m)),
        impl_doctype::transition(m).finished == m.finished,
{
    reveal(impl_doctype::transition);
    lemma_consume_many(m, "PUBLIC"@.len());
    lemma_consume_many(m, "SYSTEM"@.len());
}

proof fn lemma_progress_cdata(m: Machine)
    requires
        impl_cdata::covers(m.state),
    ensures
        progress(m, impl_cdata::transition(m)),
        impl_cdata::transition(m).finished == m.finished,
{
    reveal(impl_cdata::transition);
}

proof fn lemma_progress_reference(m: Machine)
    requires
        impl_reference::covers(m.state),
    ensures
        progress(m, impl_reference::transition(m)),
        impl_reference::transition(m).finished == m.finished,
{
    reveal(impl_reference::transition);
    let c = m.consume();
    lemma_flush_place(m.set_buffer(seq!['&']).consume());
    lemma_flush_place(c.emit_parse_error(ParseError::AbsenceOfDigitsInNumericCharacterReference));
    let code = impl_reference::reference_character(m.code);
    lemma_flush_place(m.set_buffer(seq![code]));
    match impl_reference::reference_error(m.code) {
        Some(error) => {
            lemma_flush_place(m.emit_parse_error(error).set_buffer(seq![code]));
        },
        None => {},
    }
}

proof fn lemma_progress_named(m: Machine)
    requires
        impl_named::covers(m.state),
    ensures
        progress(m, impl_named::transition(m)),
        impl_named::transition(m).finished == m.finished,
{
    reveal(impl_named::transition);
    lemma_flush_place(m);
    match impl_named::longest_entity(m, ENTITY_COUNT as nat) {
        Some(index) => {
            let name = entity_name(index);
            lemma_consume_many(m, name.len());
            let read = m.consume_many(name.len()).append_buffer(name);
            lemma_flush_place(read);
            let reported = read.emit_parse_error(
                ParseError::MissingSemicolonAfterCharacterReference,
            );
            lemma_flush_place(read.clear_buffer().append_buffer(entity_text(index)));
            lemma_flush_place(reported.clear_buffer().append_buffer(entity_text(index)));
        },
        None => {},
    }
}

/// Every step brings the machine closer to its end: it emits the end-of-file token, or uses
/// up input, or, with as much input left, leaves fewer steps possible without reading.
pub proof fn lemma_step_progress(m: Machine)
    ensures
        progress(m, step(m)),
        step(m).finished == m.finished,
{
    if impl_data::covers(m.state) {
        lemma_progress_data(m);
    }
    if impl_tag::covers(m.state) {
        lemma_progress_tag(m);
    }
    if impl_rawtext::covers(m.state) {
        lemma_progress_rawtext(m);
    }
    if impl_script::covers(m.state) {
        lemma_progress_script(m);
    }
    if impl_attribute::covers(m.state) {
        lemma_progress_attribute(m);
    }
    if impl_comment::covers(m.state) {
        lemma_progress_comment(m);
    }
    if impl_doctype::covers(m.state) {
        lemma_progress_doctype(m);
    }
    if impl_cdata::covers(m.state) {
        lemma_progress_cdata(m);
    }
    if impl_reference::covers(m.state) {
        lemma_progress_reference(m);
    }
    if impl_named::covers(m.state) {
        lemma_progress_named(m);
    }
}

/// The items that the machine will still hand out, in order: what stands in its output and
/// what the steps to come will emit, up to and with the first end-of-file token. Nothing
/// comes after that token.
pub open spec fn pending_items(m: Machine) -> Seq<Item>
    decreases not_done(m), remaining(m), rank(m), m.output.len(),
{
    if m.output.len() > 0 {
        if m.output[0] == end_of_file_item() {
            seq![m.output[0]]
        } else {
            seq![m.output[0]] + pending_items(m.pop_output())
        }
    } else {
        proof {
            lemma_step_progress(m);
        }
        pending_items(step(m))
    }
}

/// The items that a caller can still pull from the machine: none once the end-of-file token
/// has been handed out, and `pending_items` before.
pub open spec fn remaining_items(m: Machine) -> Seq<Item> {
    if m.finished {
        Seq::empty()
    } else {
        pending_items(m)
    }
}

/// The whole output of the tokenizer for the text `input`: tokens and errors in the order
/// in which they are emitted, ending with the end-of-file token.
pub open spec fn tokenize(input: Seq<char>) -> Seq<Item> {
    pending_items(Machine::initial(input))
}

/// From every state the tokenizer comes to an end, and the items it hands out on the way
/// end with the end-of-file token, which occurs nowhere before the end.
pub proof fn lemma_pending_items_end_with_eof(m: Machine)
    ensures
        pending_items(m).len() > 0,
        pending_items(m).last() == end_of_file_item(),
        forall|i: int|
            0 <= i < pending_items(m).len() - 1 ==> pending_items(m)[i] != end_of_file_item(),
    decreases not_done(m), remaining(m), rank(m), m.output.len(),
{
    if m.output.len() > 0 {
        if m.output[0] != end_of_file_item() {
            lemma_pending_items_end_with_eof(m.pop_output());
        }
    } else {
        lemma_step_progress(m);
        lemma_pending_items_end_with_eof(step(m));
    }
}

/// For every input, tokenizing ends, and the output ends with exactly one end-of-file
/// token: the last item is that token, and no item before it is.
pub proof fn lemma_tokenize_ends_with_single_eof(input: Seq<char>)
    ensures
        tokenize(input).len() > 0,
        tokenize(input).last() == end_of_file_item(),
        forall|i: int|
            0 <= i < tokenize(input).len() - 1 ==> tokenize(input)[i] != end_of_file_item(),
{
    lemma_pending_items_end_with_eof(Machine::initial(input));
}

} // verus!
