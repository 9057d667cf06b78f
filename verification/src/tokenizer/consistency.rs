use vstd::prelude::*;
use crate::tokenizer::entities::{entity_name, entity_text, ENTITY_COUNT};
use crate::tokenizer::error::ParseError;
use crate::tokenizer::machine::{end_of_file_item, is_attribute_value_state, Machine};
use crate::tokenizer::progress::{
    ends_attribute_name,
    ends_with_eof,
    lemma_step_progress,
    not_done,
    pending_items,
    rank,
    remaining,
    tokenize,
};
use crate::tokenizer::state::State;
use crate::tokenizer::step;
use crate::tokenizer::token::{
    push_to_last_name,
    push_to_last_value,
    AttributeView,
    Item,
    TokenView,
};
use crate::tokenizer::util::{is_alpha, is_upper, to_lower, Codepoint};
use crate::tokenizer::{
    impl_attribute,
    impl_cdata,
    impl_comment,
    impl_data,
    impl_doctype,
    impl_named,
    impl_rawtext,
    impl_reference,
    impl_script,
    impl_tag,
};

verus! {

/// Which kind of token, if any, is under construction.
pub enum Staged {
    Nothing,
    Doctype,
    Tag,
    Comment,
}

/// Whether `state` is one of the states that read a character reference.
pub open spec fn is_reference_state(state: State) -> bool {
    impl_reference::covers(state) || impl_named::covers(state)
}

/// The kind of token that is under construction in `state`, for the states that do not
/// read a character reference.
pub open spec fn staged_in(state: State) -> Staged {
    match state {
        State::TagName | State::RCDATAEndTagName | State::RAWTEXTEndTagName
        | State::ScriptDataEndTagName | State::ScriptDataEscapedEndTagName
        | State::BeforeAttributeName | State::AttributeName | State::AfterAttributeName
        | State::BeforeAttributeValue | State::AttributeValueDoubleQuoted
        | State::AttributeValueSingleQuoted | State::AttributeValueUnquoted
        | State::AfterAttributeValueQuoted | State::SelfClosingStartTag => Staged::Tag,
        State::BogusComment | State::CommentStart | State::CommentStartDash | State::Comment
        | State::CommentLessThanSign | State::CommentLessThanSignBang
        | State::CommentLessThanSignBangDash | State::CommentLessThanSignBangDashDash
        | State::CommentEndDash | State::CommentEnd | State::CommentEndBang => Staged::Comment,
        State::DOCTYPEName | State::AfterDOCTYPEName | State::AfterDOCTYPEPublicKeyword
        | State::BeforeDOCTYPEPublicIdentifier | State::DOCTYPEPublicIdentifierDoubleQuoted
        | State::DOCTYPEPublicIdentifierSingleQuoted | State::AfterDOCTYPEPublicIdentifier
        | State::BetweenDOCTYPEPublicAndSystemIdentifiers | State::AfterDOCTYPESystemKeyword
        | State::BeforeDOCTYPESystemIdentifier | State::DOCTYPESystemIdentifierDoubleQuoted
        | State::DOCTYPESystemIdentifierSingleQuoted | State::AfterDOCTYPESystemIdentifier
        | State::BogusDOCTYPE => Staged::Doctype,
        _ => Staged::Nothing,
    }
}

/// The state that counts for what is under construction: the return state while a
/// character reference is read, else the active state.
pub open spec fn ruling_state(m: Machine) -> State {
    if is_reference_state(m.state) {
        m.return_target()
    } else {
        m.state
    }
}

/// Whether `state` is one in which the tag under construction has an attribute that is
/// being read.
pub open spec fn reads_attribute(state: State) -> bool {
    state == State::AttributeName || state == State::BeforeAttributeValue
        || is_attribute_value_state(state)
}

/// Whether `text` holds no ASCII upper-case letter.
pub open spec fn is_folded(text: Seq<char>) -> bool {
    forall|i: int| 0 <= i < text.len() ==> !is_upper(#[trigger] text[i])
}

/// Whether the name of every attribute holds no ASCII upper-case letter.
pub open spec fn names_folded(attributes: Seq<AttributeView>) -> bool {
    forall|k: int| 0 <= k < attributes.len() ==> is_folded((#[trigger] attributes[k]).0)
}

/// Whether every attribute has a name that is not empty.
pub open spec fn names_present(attributes: Seq<AttributeView>) -> bool {
    forall|k: int| 0 <= k < attributes.len() ==> (#[trigger] attributes[k]).0.len() > 0
}

/// Whether `item` is as the tokenizer makes its output: the name of a tag, of an attribute
/// or of a doctype is not empty and holds no ASCII upper-case letter.
pub open spec fn is_well_formed(item: Item) -> bool {
    match item {
        Ok(TokenView::Tag { tag_name, attributes, .. }) => tag_name.len() > 0 && is_folded(
            tag_name,
        ) && names_folded(attributes) && names_present(attributes),
        Ok(TokenView::Doctype { name, .. }) => name is Some ==> name->0.len() > 0 && is_folded(
            name->0,
        ),
        _ => true,
    }
}

/// Whether the machine is about to read again the character that begins an attribute's
/// name.
pub open spec fn at_first_name_character(m: Machine) -> bool {
    m.state == State::AttributeName && m.reconsume && !ends_attribute_name(m.current)
        && m.current != Codepoint::Scalar('=')
}

/// Whether the machine is about to read again the letter that begins a tag's name.
pub open spec fn at_first_letter(m: Machine) -> bool {
    m.reconsume && (m.current matches Codepoint::Scalar(ch) && is_alpha(ch)) && (m.state
        == State::TagName || m.state == State::RCDATAEndTagName || m.state
        == State::RAWTEXTEndTagName || m.state == State::ScriptDataEndTagName || m.state
        == State::ScriptDataEscapedEndTagName)
}

/// Whether the machine is about to read again what ends a tag: `/`, `>` or the end of
/// input.
pub open spec fn at_end_of_tag(m: Machine) -> bool {
    m.reconsume && (m.current == Codepoint::Scalar('/') || m.current == Codepoint::Scalar('>')
        || m.current is EndOfFile)
}

/// Whether exactly the token that the state asks for is under construction, and has the
/// parts that the state goes on to fill.
pub open spec fn staged_as_expected(m: Machine) -> bool {
    let state = ruling_state(m);
    &&& match staged_in(state) {
        Staged::Nothing => m.doctype is None && m.tag is None && m.comment is None,
        Staged::Doctype => m.doctype is Some && m.tag is None && m.comment is None,
        Staged::Tag => m.doctype is None && m.tag is Some && m.comment is None,
        Staged::Comment => m.doctype is None && m.tag is None && m.comment is Some,
    }
    &&& state == State::DOCTYPEName ==> m.doctype->0.name is Some
    &&& state == State::DOCTYPEPublicIdentifierDoubleQuoted || state
        == State::DOCTYPEPublicIdentifierSingleQuoted ==> m.doctype->0.public_identifier is Some
    &&& state == State::DOCTYPESystemIdentifierDoubleQuoted || state
        == State::DOCTYPESystemIdentifierSingleQuoted ==> m.doctype->0.system_identifier is Some
    &&& reads_attribute(state) ==> m.tag->0.attributes.len() > 0
    &&& state == State::AfterAttributeName ==> m.tag->0.attributes.len() > 0 || at_end_of_tag(m)
    &&& staged_in(state) is Tag ==> names_present(m.tag->0.attributes) || (at_first_name_character(
        m,
    ) && names_present(m.tag->0.attributes.drop_last()))
    &&& staged_in(state) is Tag ==> m.tag->0.tag_name.len() > 0 || at_first_letter(m)
    &&& is_reference_state(m.state) ==> m.return_state is Some && m.return_state->0
        == m.return_target()
    &&& !is_reference_state(m.state) ==> m.return_state is None
}

/// What holds of the machine at every moment of a run from the start of an input.
pub open spec fn is_consistent(m: Machine) -> bool {
    &&& m.cursor <= m.input.len()
    &&& m.tag is Some ==> is_folded(m.tag->0.tag_name) && names_folded(m.tag->0.attributes)
    &&& (m.doctype is Some && m.doctype->0.name is Some) ==> m.doctype->0.name->0.len() > 0
        && is_folded(m.doctype->0.name->0)
    &&& m.last_start_tag is Some ==> m.last_start_tag->0.len() > 0
    &&& forall|i: int| 0 <= i < m.output.len() ==> is_well_formed(#[trigger] m.output[i])
    &&& forall|i: int| 0 <= i < m.output.len() - 1 ==> #[trigger] m.output[i] != end_of_file_item()
    &&& ends_with_eof(m) || staged_as_expected(m)
}

/// Whether `item` is a character token.
pub open spec fn is_character(item: Item) -> bool {
    item matches Ok(TokenView::Character(_))
}

/// Emitting characters changes only the output, and adds only character tokens to it.
pub proof fn lemma_emit_characters_output(m: Machine, text: Seq<char>, count: nat)
    ensures
        m.emit_characters(text, count) == (Machine {
            output: m.emit_characters(text, count).output,
            ..m
        }),
        m.emit_characters(text, count).output.len() == m.output.len() + count,
        forall|i: int|
            0 <= i < m.output.len() ==> #[trigger] m.emit_characters(text, count).output[i]
                == m.output[i],
        forall|i: int|
            m.output.len() <= i < m.output.len() + count ==> is_character(
                #[trigger] m.emit_characters(text, count).output[i],
            ),
    decreases count,
{
    if count > 0 {
        lemma_emit_characters_output(m, text, (count - 1) as nat);
    }
}

/// Adding text to the value of the last attribute changes nothing but that value.
pub proof fn lemma_push_attribute_value_text_keeps(m: Machine, text: Seq<char>, count: nat)
    ensures
        m.push_attribute_value_text(text, count) == (Machine {
            tag: m.push_attribute_value_text(text, count).tag,
            ..m
        }),
        m.tag is None ==> m.push_attribute_value_text(text, count).tag is None,
        m.tag is Some ==> {
            let before = m.tag->0;
            let after = m.push_attribute_value_text(text, count).tag;
            &&& after is Some
            &&& after->0.kind == before.kind
            &&& after->0.tag_name == before.tag_name
            &&& after->0.self_closing == before.self_closing
            &&& after->0.attributes.len() == before.attributes.len()
            &&& forall|k: int|
                0 <= k < before.attributes.len() ==> (#[trigger] after->0.attributes[k]).0
                    == before.attributes[k].0
            &&& names_present(before.attributes) ==> names_present(after->0.attributes)
        },
    decreases count,
{
    if count > 0 {
        lemma_push_attribute_value_text_keeps(m, text, (count - 1) as nat);
    }
}

/// Handing on the temporary buffer keeps a consistent machine consistent, and neither
/// moves it nor emits the end-of-file token.
pub proof fn lemma_flush_keeps(m: Machine)
    ensures
        m.flush_code_points().state == m.state,
        m.flush_code_points().return_state == m.return_state,
        m.flush_code_points().input == m.input,
        m.flush_code_points().cursor == m.cursor,
        m.flush_code_points().current == m.current,
        m.flush_code_points().reconsume == m.reconsume,
        m.flush_code_points().last_start_tag == m.last_start_tag,
        m.flush_code_points().doctype == m.doctype,
        m.flush_code_points().comment == m.comment,
        m.flush_code_points().buffer == m.buffer,
        is_consistent(m) && !ends_with_eof(m) ==> is_consistent(m.flush_code_points())
            && !ends_with_eof(m.flush_code_points()),
        !m.in_attribute() ==> m.flush_code_points().tag == m.tag,
{
    lemma_emit_characters_output(m, m.buffer, m.buffer.len());
    lemma_push_attribute_value_text_keeps(m, m.buffer, m.buffer.len());
}

/// Reading moves the cursor, within the input, and changes the character read last and
/// nothing else.
pub proof fn lemma_consume_many_keeps(m: Machine, count: nat)
    ensures
        m.consume_many(count) == (Machine {
            cursor: m.consume_many(count).cursor,
            current: m.consume_many(count).current,
            reconsume: m.consume_many(count).reconsume,
            ..m
        }),
        m.cursor <= m.input.len() ==> m.consume_many(count).cursor <= m.input.len(),
    decreases count,
{
    if count > 0 {
        lemma_consume_many_keeps(m, (count - 1) as nat);
    }
}

proof fn lemma_consistent_data(m: Machine)
    requires
        is_consistent(m),
        !ends_with_eof(m),
        impl_data::covers(m.state),
    ensures
        is_consistent(impl_data::transition(m)),
{
    reveal(impl_data::transition);
}

proof fn lemma_consistent_tag(m: Machine)
    requires
        is_consistent(m),
        !ends_with_eof(m),
        impl_tag::covers(m.state),
    ensures
        is_consistent(impl_tag::transition(m)),
{
    reveal(impl_tag::transition);
}

proof fn lemma_consistent_rawtext(m: Machine)
    requires
        is_consistent(m),
        !ends_with_eof(m),
        impl_rawtext::covers(m.state),
    ensures
        is_consistent(impl_rawtext::transition(m)),
{
    reveal(impl_rawtext::transition);
    let c = m.consume();
    lemma_emit_characters_output(
        c.emit_character('<').emit_character('/'),
        c.buffer,
        c.buffer.len(),
    );
}

proof fn lemma_consistent_script(m: Machine)
    requires
        is_consistent(m),
        !ends_with_eof(m),
        impl_script::covers(m.state),
    ensures
        is_consistent(impl_script::transition(m)),
{
    reveal(impl_script::transition);
    let c = m.consume();
    lemma_emit_characters_output(
        c.emit_character('<').emit_character('/'),
        c.buffer,
        c.buffer.len(),
    );
}

/// A character that is no ASCII upper-case letter may join the name of the last attribute.
proof fn lemma_push_to_last_name_folded(attributes: Seq<AttributeView>, c: char)
    requires
        names_folded(attributes),
        !is_upper(c),
    ensures
        names_folded(push_to_last_name(attributes, c)),
        push_to_last_name(attributes, c).len() == attributes.len(),
        names_present(attributes.drop_last()) ==> names_present(push_to_last_name(attributes, c)),
{
    if attributes.len() > 0 {
        let after = push_to_last_name(attributes, c);
        assert forall|k: int| 0 <= k < after.len() implies is_folded((#[trigger] after[k]).0) by {
            assert(k < attributes.len() - 1 ==> after[k] == attributes[k]);
        }
        assert forall|k: int| 0 <= k < after.len() - 1 implies #[trigger] after[k]
            == attributes.drop_last()[k] by {
        }
    }
}

/// A change of the value of the last attribute leaves the names as they are.
proof fn lemma_push_to_last_value_folded(attributes: Seq<AttributeView>, c: char)
    requires
        names_folded(attributes),
    ensures
        names_folded(push_to_last_value(attributes, c)),
        push_to_last_value(attributes, c).len() == attributes.len(),
        names_present(attributes) ==> names_present(push_to_last_value(attributes, c)),
{
    if attributes.len() > 0 {
        let after = push_to_last_value(attributes, c);
        assert forall|k: int| 0 <= k < after.len() implies is_folded((#[trigger] after[k]).0) by {
            assert(k < attributes.len() - 1 ==> after[k] == attributes[k]);
        }
        assert forall|k: int| 0 <= k < after.len() - 1 implies #[trigger] after[k]
            == attributes.drop_last()[k] by {
        }
    }
}

proof fn lemma_consistent_attribute(m: Machine)
    requires
        is_consistent(m),
        !ends_with_eof(m),
        impl_attribute::covers(m.state),
    ensures
        is_consistent(impl_attribute::transition(m)),
{
    reveal(impl_attribute::transition);
    let c = m.consume();
    if c.tag is Some {
        let attributes = c.tag->0.attributes;
        let started = attributes.push((Seq::empty(), Seq::empty()));
        assert forall|k: int| 0 <= k < started.len() implies is_folded(
            (#[trigger] started[k]).0,
        ) by {
            assert(k < attributes.len() ==> started[k] == attributes[k]);
        }
        lemma_push_to_last_name_folded(started, '=');
        lemma_push_to_last_name_folded(attributes, '\u{FFFD}');
        lemma_push_to_last_value_folded(attributes, '\u{FFFD}');
        match c.current {
            Codepoint::Scalar(ch) => {
                lemma_push_to_last_name_folded(attributes, to_lower(ch));
                if !is_upper(ch) {
                    lemma_push_to_last_name_folded(attributes, ch);
                }
                lemma_push_to_last_value_folded(attributes, ch);
            },
            Codepoint::EndOfFile => {},
        }
    }
}

proof fn lemma_consistent_comment(m: Machine)
    requires
        is_consistent(m),
        !ends_with_eof(m),
        impl_comment::covers(m.state),
    ensures
        is_consistent(impl_comment::transition(m)),
{
    reveal(impl_comment::transition);
    lemma_consume_many_keeps(m, "--"@.len());
    lemma_consume_many_keeps(m, "DOCTYPE"@.len());
    lemma_consume_many_keeps(m, "[CDATA["@.len());
}

proof fn lemma_consistent_doctype_start(m: Machine)
    requires
        is_consistent(m),
        !ends_with_eof(m),
        m.state == State::DOCTYPE
            || m.state == State::BeforeDOCTYPEName
            || m.state == State::DOCTYPEName
            || m.state == State::AfterDOCTYPEName,
    ensures
        is_consistent(impl_doctype::transition(m)),
{
    reveal(impl_doctype::transition);
    lemma_consume_many_keeps(m, "PUBLIC"@.len());
    lemma_consume_many_keeps(m, "SYSTEM"@.len());
}

proof fn lemma_consistent_doctype_public(m: Machine)
    requires
        is_consistent(m),
        !ends_with_eof(m),
        m.state == State::AfterDOCTYPEPublicKeyword
            || m.state == State::BeforeDOCTYPEPublicIdentifier
            || m.state == State::DOCTYPEPublicIdentifierDoubleQuoted
            || m.state == State::DOCTYPEPublicIdentifierSingleQuoted,
    ensures
        is_consistent(impl_doctype::transition(m)),
{
    reveal(impl_doctype::transition);
}

proof fn lemma_consistent_doctype_between(m: Machine)
    requires
        is_consistent(m),
        !ends_with_eof(m),
        m.state == State::AfterDOCTYPEPublicIdentifier
            || m.state == State::BetweenDOCTYPEPublicAndSystemIdentifiers
            || m.state == State::AfterDOCTYPESystemKeyword
            || m.state == State::BeforeDOCTYPESystemIdentifier,
    ensures
        is_consistent(impl_doctype::transition(m)),
{
    reveal(impl_doctype::transition);
}

proof fn lemma_consistent_doctype_system(m: Machine)
    requires
        is_consistent(m),
        !ends_with_eof(m),
        m.state == State::DOCTYPESystemIdentifierDoubleQuoted
            || m.state == State::DOCTYPESystemIdentifierSingleQuoted
            || m.state == State::AfterDOCTYPESystemIdentifier
            || m.state == State::BogusDOCTYPE,
    ensures
        is_consistent(impl_doctype::transition(m)),
{
    reveal(impl_doctype::transition);
}

proof fn lemma_consistent_doctype(m: Machine)
    requires
        is_consistent(m),
        !ends_with_eof(m),
        impl_doctype::covers(m.state),
    ensures
        is_consistent(impl_doctype::transition(m)),
{
    match m.state {
        State::DOCTYPE | State::BeforeDOCTYPEName | State::DOCTYPEName
        | State::AfterDOCTYPEName => lemma_consistent_doctype_start(m),
        State::AfterDOCTYPEPublicKeyword | State::BeforeDOCTYPEPublicIdentifier
        | State::DOCTYPEPublicIdentifierDoubleQuoted
        | State::DOCTYPEPublicIdentifierSingleQuoted => lemma_consistent_doctype_public(m),
        State::AfterDOCTYPEPublicIdentifier | State::BetweenDOCTYPEPublicAndSystemIdentifiers
        | State::AfterDOCTYPESystemKeyword
        | State::BeforeDOCTYPESystemIdentifier => lemma_consistent_doctype_between(m),
        _ => lemma_consistent_doctype_system(m),
    }
}

proof fn lemma_consistent_cdata(m: Machine)
    requires
        is_consistent(m),
        !ends_with_eof(m),
        impl_cdata::covers(m.state),
    ensures
        is_consistent(impl_cdata::transition(m)),
{
    reveal(impl_cdata::transition);
}

proof fn lemma_consistent_reference(m: Machine)
    requires
        is_consistent(m),
        !ends_with_eof(m),
        impl_reference::covers(m.state),
    ensures
        is_consistent(impl_reference::transition(m)),
{
    reveal(impl_reference::transition);
    let c = m.consume();
    lemma_flush_keeps(m.set_buffer(seq!['&']).consume());
    lemma_flush_keeps(c.emit_parse_error(ParseError::AbsenceOfDigitsInNumericCharacterReference));
    let code = impl_reference::reference_character(m.code);
    lemma_flush_keeps(m.set_buffer(seq![code]));
    match impl_reference::reference_error(m.code) {
        Some(error) => {
            lemma_flush_keeps(m.emit_parse_error(error).set_buffer(seq![code]));
        },
        None => {},
    }
}

proof fn lemma_consistent_named(m: Machine)
    requires
        is_consistent(m),
        !ends_with_eof(m),
        impl_named::covers(m.state),
    ensures
        is_consistent(impl_named::transition(m)),
{
    reveal(impl_named::transition);
    lemma_flush_keeps(m);
    match impl_named::longest_entity(m, ENTITY_COUNT as nat) {
        Some(index) => {
            let name = entity_name(index);
            lemma_consume_many_keeps(m, name.len());
            let read = m.consume_many(name.len()).append_buffer(name);
            lemma_flush_keeps(read);
            let reported = read.emit_parse_error(
                ParseError::MissingSemicolonAfterCharacterReference,
            );
            lemma_flush_keeps(read.clear_buffer().append_buffer(entity_text(index)));
            lemma_flush_keeps(reported.clear_buffer().append_buffer(entity_text(index)));
        },
        None => {},
    }
}

/// A step keeps a consistent machine consistent, as long as the end-of-file token has not
/// been emitted.
pub proof fn lemma_step_keeps_consistent(m: Machine)
    requires
        is_consistent(m),
        !ends_with_eof(m),
    ensures
        is_consistent(step(m)),
{
    if impl_data::covers(m.state) {
        lemma_consistent_data(m);
    }
    if impl_tag::covers(m.state) {
        lemma_consistent_tag(m);
    }
    if impl_rawtext::covers(m.state) {
        lemma_consistent_rawtext(m);
    }
    if impl_script::covers(m.state) {
        lemma_consistent_script(m);
    }
    if impl_attribute::covers(m.state) {
        lemma_consistent_attribute(m);
    }
    if impl_comment::covers(m.state) {
        lemma_consistent_comment(m);
    }
    if impl_doctype::covers(m.state) {
        lemma_consistent_doctype(m);
    }
    if impl_cdata::covers(m.state) {
        lemma_consistent_cdata(m);
    }
    if impl_reference::covers(m.state) {
        lemma_consistent_reference(m);
    }
    if impl_named::covers(m.state) {
        lemma_consistent_named(m);
    }
}

/// The tokenizer starts out consistent.
pub proof fn lemma_initial_is_consistent(input: Seq<char>)
    ensures
        is_consistent(Machine::initial(input)),
{
}

/// Handing out an item that is not the end-of-file token keeps a consistent machine
/// consistent.
pub proof fn lemma_pop_keeps_consistent(m: Machine)
    requires
        is_consistent(m),
        m.output.len() > 0,
        m.output[0] != end_of_file_item(),
    ensures
        is_consistent(m.pop_output()),
        ends_with_eof(m.pop_output()) == ends_with_eof(m),
{
    let after = m.pop_output();
    assert forall|i: int| 0 <= i < after.output.len() implies #[trigger] after.output[i]
        == m.output[i + 1] by {
    }
}

/// Between two tokens tree construction may choose how the text that follows is read: a
/// consistent machine that has nothing under construction and reads no character reference
/// stays consistent when it is switched to one of the text states.
pub proof fn lemma_switch_keeps_consistent(m: Machine, state: State)
    requires
        is_consistent(m),
        !ends_with_eof(m),
        staged_in(m.state) is Nothing,
        !is_reference_state(m.state),
        impl_data::covers(state) || state == State::CDATASection,
    ensures
        is_consistent(m.switch_to(state)),
{
}

/// While the tokenizer runs, at most one token is under construction.
pub proof fn lemma_at_most_one_under_construction(m: Machine)
    requires
        is_consistent(m),
        !ends_with_eof(m),
    ensures
        !(m.doctype is Some && m.tag is Some),
        !(m.doctype is Some && m.comment is Some),
        !(m.tag is Some && m.comment is Some),
{
}

/// Every item that a consistent machine will still hand out is well formed: no tag, no
/// attribute and no doctype has an empty name or a name that holds an ASCII upper-case
/// letter.
pub proof fn lemma_pending_items_are_well_formed(m: Machine)
    requires
        is_consistent(m),
    ensures
        forall|i: int|
            0 <= i < pending_items(m).len() ==> is_well_formed(#[trigger] pending_items(m)[i]),
    decreases not_done(m), remaining(m), rank(m), m.output.len(),
{
    if m.output.len() > 0 {
        if m.output[0] != end_of_file_item() {
            lemma_pop_keeps_consistent(m);
            lemma_pending_items_are_well_formed(m.pop_output());
            let rest = pending_items(m.pop_output());
            assert forall|i: int| 0 <= i < pending_items(m).len() implies is_well_formed(
                #[trigger] pending_items(m)[i],
            ) by {
                assert(i > 0 ==> pending_items(m)[i] == rest[i - 1]);
            }
        }
    } else {
        lemma_step_progress(m);
        lemma_step_keeps_consistent(m);
        lemma_pending_items_are_well_formed(step(m));
        assert(pending_items(m) == pending_items(step(m)));
    }
}

/// Every token of the output for any input is well formed. In particular the names of tags
/// are folded to lower case and are never empty.
pub proof fn lemma_tokens_are_well_formed(input: Seq<char>)
    ensures
        forall|i: int|
            0 <= i < tokenize(input).len() ==> is_well_formed(#[trigger] tokenize(input)[i]),
{
    lemma_initial_is_consistent(input);
    lemma_pending_items_are_well_formed(Machine::initial(input));
}

} // verus!
