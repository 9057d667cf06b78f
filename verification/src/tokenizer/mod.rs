use vstd::prelude::*;
use std::collections::VecDeque;
use crate::tokenizer::consistency::{
    is_consistent,
    lemma_pop_keeps_consistent,
    lemma_step_keeps_consistent,
};
use crate::tokenizer::error::ParseError;
use crate::tokenizer::machine::{end_of_file_item, Machine};
use crate::tokenizer::progress::{
    lemma_step_progress,
    not_done,
    pending_items,
    rank,
    remaining,
    remaining_items,
    tokenize,
};
use crate::tokenizer::state::State;
use crate::tokenizer::token::{
    IncompleteComment,
    IncompleteDoctype,
    IncompleteTag,
    Item,
};
use crate::tokenizer::util::{Codepoint, CodepointStream};

pub use crate::tokenizer::token::{Attribute, Attributes, TagKind, Token};

pub mod consistency;
pub mod entities;
pub mod error;
pub mod impl_attribute;
pub mod impl_cdata;
pub mod impl_comment;
pub mod impl_data;
pub mod impl_doctype;
pub mod impl_named;
pub mod impl_rawtext;
pub mod impl_reference;
pub mod impl_script;
pub mod impl_tag;
pub mod laws;
pub mod machine;
pub mod progress;
pub mod state;
pub mod text;
pub mod token;
pub mod util;

mod builder;

verus! {

/// An HTML tokenizer over a text that is held in memory. It reads the text one character at
/// a time and hands out tokens and parse errors, one item for each call of `next`.
pub struct TokenizerImpl {
    input: CodepointStream,
    output_buf: VecDeque<Result<Token, ParseError>>,
    finished: bool,
    state: State,
    return_state: Option<State>,
    current_input_character: Codepoint,
    reconsume_next_input_character: bool,
    current_doctype_token: Option<IncompleteDoctype>,
    current_tag_token: Option<IncompleteTag>,
    current_comment_token: Option<IncompleteComment>,
    temporary_buffer: Vec<char>,
    character_reference_code: u32,
    last_start_tag_name: Option<String>,
}

/// An item of output with every text as a sequence of characters.
pub open spec fn item_view(item: Result<Token, ParseError>) -> Item {
    match item {
        Ok(token) => Ok(token@),
        Err(error) => Err(error),
    }
}

pub open spec fn doctype_view(token: Option<IncompleteDoctype>) -> Option<
    crate::tokenizer::machine::DoctypeView,
> {
    match token {
        Some(t) => Some(t@),
        None => None,
    }
}

pub open spec fn tag_view(token: Option<IncompleteTag>) -> Option<
    crate::tokenizer::machine::TagView,
> {
    match token {
        Some(t) => Some(t@),
        None => None,
    }
}

pub open spec fn comment_view(token: Option<IncompleteComment>) -> Option<Seq<char>> {
    match token {
        Some(t) => Some(t@),
        None => None,
    }
}

/// One step of the tokenizer: the transition of the state that is active.
pub open spec fn step(m: Machine) -> Machine {
    match m.state {
        State::Data | State::RCDATA | State::RAWTEXT | State::ScriptData | State::PLAINTEXT => {
            impl_data::transition(m)
        },
        State::TagOpen | State::EndTagOpen | State::TagName => impl_tag::transition(m),
        State::RCDATALessThanSign | State::RCDATAEndTagOpen | State::RCDATAEndTagName
        | State::RAWTEXTLessThanSign | State::RAWTEXTEndTagOpen | State::RAWTEXTEndTagName => {
            impl_rawtext::transition(m)
        },
        State::ScriptDataLessThanSign | State::ScriptDataEndTagOpen
        | State::ScriptDataEndTagName | State::ScriptDataEscapeStart
        | State::ScriptDataEscapeStartDash | State::ScriptDataEscaped
        | State::ScriptDataEscapedDash | State::ScriptDataEscapedDashDash
        | State::ScriptDataEscapedLessThanSign | State::ScriptDataEscapedEndTagOpen
        | State::ScriptDataEscapedEndTagName | State::ScriptDataDoubleEscapeStart
        | State::ScriptDataDoubleEscaped | State::ScriptDataDoubleEscapedDash
        | State::ScriptDataDoubleEscapedDashDash | State::ScriptDataDoubleEscapedLessThanSign
        | State::ScriptDataDoubleEscapeEnd => impl_script::transition(m),
        State::BeforeAttributeName | State::AttributeName | State::AfterAttributeName
        | State::BeforeAttributeValue | State::AttributeValueDoubleQuoted
        | State::AttributeValueSingleQuoted | State::AttributeValueUnquoted
        | State::AfterAttributeValueQuoted | State::SelfClosingStartTag => {
            impl_attribute::transition(m)
        },
        State::BogusComment | State::MarkupDeclarationOpen | State::CommentStart
        | State::CommentStartDash | State::Comment | State::CommentLessThanSign
        | State::CommentLessThanSignBang | State::CommentLessThanSignBangDash
        | State::CommentLessThanSignBangDashDash | State::CommentEndDash | State::CommentEnd
        | State::CommentEndBang => impl_comment::transition(m),
        State::DOCTYPE | State::BeforeDOCTYPEName | State::DOCTYPEName
        | State::AfterDOCTYPEName | State::AfterDOCTYPEPublicKeyword
        | State::BeforeDOCTYPEPublicIdentifier | State::DOCTYPEPublicIdentifierDoubleQuoted
        | State::DOCTYPEPublicIdentifierSingleQuoted | State::AfterDOCTYPEPublicIdentifier
        | State::BetweenDOCTYPEPublicAndSystemIdentifiers | State::AfterDOCTYPESystemKeyword
        | State::BeforeDOCTYPESystemIdentifier | State::DOCTYPESystemIdentifierDoubleQuoted
        | State::DOCTYPESystemIdentifierSingleQuoted | State::AfterDOCTYPESystemIdentifier
        | State::BogusDOCTYPE => impl_doctype::transition(m),
        State::CDATASection | State::CDATASectionBracket | State::CDATASectionEnd => {
            impl_cdata::transition(m)
        },
        State::CharacterReference | State::AmbiguousAmpersand
        | State::NumericCharacterReference | State::HexadecimalCharacterReferenceStart
        | State::DecimalCharacterReferenceStart | State::HexadecimalCharacterReference
        | State::DecimalCharacterReference | State::NumericCharacterReferenceEnd => {
            impl_reference::transition(m)
        },
        State::NamedCharacterReference => impl_named::transition(m),
    }
}

/// A source of tokens and parse errors that hands out one item for each call of `next`.
pub trait Tokenizer {
    /// The items that are still to be pulled, in the order in which they will come. An
    /// implementation says here what its items are; where it does not, nothing is known of
    /// them.
    open spec fn remaining(&self) -> Seq<Item> {
        arbitrary()
    }

    /// Hands out the next item, or `None` when nothing is left.
    fn next(&mut self) -> (r: Option<Result<Token, ParseError>>)
        ensures
            match r {
                Some(item) => old(self).remaining().len() > 0 && item_view(item) == old(
                    self,
                ).remaining()[0] && final(self).remaining() == old(self).remaining().drop_first(),
                None => old(self).remaining().len() == 0 && final(self).remaining().len() == 0,
            },
    ;
}

impl View for TokenizerImpl {
    type V = Machine;

    closed spec fn view(&self) -> Machine {
        Machine {
            input: self.input.source(),
            cursor: self.input.position(),
            finished: self.finished,
            state: self.state,
            return_state: self.return_state,
            current: self.current_input_character,
            reconsume: self.reconsume_next_input_character,
            doctype: doctype_view(self.current_doctype_token),
            tag: tag_view(self.current_tag_token),
            comment: comment_view(self.current_comment_token),
            buffer: self.temporary_buffer@,
            code: self.character_reference_code as nat,
            last_start_tag: crate::tokenizer::token::text_view(self.last_start_tag_name),
            output: self.output_buf@.map_values(|item: Result<Token, ParseError>| item_view(item)),
        }
    }
}

impl TokenizerImpl {
    /// A tokenizer at the start of `input`, in the data state.
    pub fn new(input: String) -> (r: TokenizerImpl)
        ensures
            r@ == Machine::initial(input@),
            r.remaining() == tokenize(input@),
            is_consistent(r@),
    {
        let r = TokenizerImpl {
            input: CodepointStream::from_string(input),
            output_buf: VecDeque::with_capacity(4),
            finished: false,
            state: State::Data,
            return_state: None,
            current_input_character: Codepoint::null(),
            reconsume_next_input_character: false,
            current_doctype_token: None,
            current_tag_token: None,
            current_comment_token: None,
            temporary_buffer: Vec::new(),
            character_reference_code: 0,
            last_start_tag_name: None,
        };
        assert(r@.output =~= Seq::empty());
        r
    }

    /// The state that selects the next transition.
    pub fn state(&self) -> (r: State)
        ensures
            r == self@.state,
    {
        self.state
    }

    pub(crate) fn peek_input_character(&self, offset: usize) -> (r: Codepoint)
        ensures
            r == self@.peek(offset as nat),
    {
        if self.reconsume_next_input_character {
            if offset == 0 {
                self.current_input_character
            } else {
                self.input.peek(offset - 1)
            }
        } else {
            self.input.peek(offset)
        }
    }

    pub(crate) fn peek_next_input_character(&self) -> (r: Codepoint)
        ensures
            r == self@.peek(0),
    {
        self.peek_input_character(0)
    }

    pub(crate) fn next_input_character(&mut self) -> (r: Codepoint)
        ensures
            final(self)@ == old(self)@.consume(),
            r == final(self)@.current,
    {
        if !self.reconsume_next_input_character {
            self.current_input_character = self.input.consume_next();
        }
        self.reconsume_next_input_character = false;
        self.current_input_character
    }

    pub(crate) fn advance_input_character(&mut self, count: usize)
        ensures
            final(self)@ == old(self)@.consume_many(count as nat),
    {
        let mut i: usize = 0;
        while i < count
            invariant
                i <= count,
                self@ == old(self)@.consume_many(i as nat),
            decreases count - i,
        {
            self.next_input_character();
            i += 1;
        }
    }

    /// Whether the next items of input spell `expected`, compared exactly or with ASCII
    /// letters folded. Nothing is read.
    pub(crate) fn next_few_characters_match(&self, expected: &str, case_sensitive: bool) -> (r:
        bool)
        ensures
            r == self@.literal_ahead(expected@, case_sensitive),
    {
        let count = expected.unicode_len();
        let mut idx: usize = 0;
        while idx < count
            invariant
                idx <= count,
                count == expected@.len(),
                forall|i: nat|
                    i < idx ==> (#[trigger] self@.peek(i)).matches_char(
                        expected@[i as int],
                        case_sensitive,
                    ),
            decreases count - idx,
        {
            let expected_ch = expected.get_char(idx);
            if !self.peek_input_character(idx).eq_char(&expected_ch, case_sensitive) {
                return false;
            }
            idx += 1;
        }
        true
    }

    /// Reads `expected` if the next items of input spell it, and returns the text that was
    /// read. Otherwise nothing is read and the result is `None`.
    pub(crate) fn maybe_consume_next_few_matching_characters(
        &mut self,
        expected: &str,
        case_sensitive: bool,
    ) -> (r: Option<String>)
        ensures
            final(self)@ == old(self)@.consume_literal(expected@, case_sensitive),
            r is Some <==> old(self)@.literal_ahead(expected@, case_sensitive),
            r is Some ==> r->0@ == old(self)@.text_ahead(expected@.len()),
    {
        let count = expected.unicode_len();
        let mut buf = String::new();
        let mut idx: usize = 0;
        while idx < count
            invariant
                idx <= count,
                count == expected@.len(),
                self@ == old(self)@,
                buf@ == self@.text_ahead(idx as nat),
                forall|i: nat|
                    i < idx ==> (#[trigger] self@.peek(i)).matches_char(
                        expected@[i as int],
                        case_sensitive,
                    ),
            decreases count - idx,
        {
            let expected_ch = expected.get_char(idx);
            let codepoint = self.peek_input_character(idx);
            match codepoint {
                Codepoint::Scalar(ch) => {
                    if codepoint.eq_char(&expected_ch, case_sensitive) {
                        buf.push(ch);
                    } else {
                        return None;
                    }
                },
                Codepoint::EndOfFile => {
                    return None;
                },
            }
            idx += 1;
        }
        self.advance_input_character(count);
        Some(buf)
    }

    /// Makes `next_state` the active state and marks the item read last to be read again.
    /// No such mark may be pending: one item is read again at most once.
    pub(crate) fn reconsume_in(&mut self, next_state: State)
        requires
            !old(self)@.reconsume,
        ensures
            final(self)@ == old(self)@.reconsume_in(next_state),
    {
        self.reconsume_next_input_character = true;
        self.state = next_state;
    }

    /// Makes `next_state` the active state. Tree construction uses this to have the text
    /// of an element read as RCDATA, RAWTEXT, script data or plain text.
    pub fn switch_to(&mut self, next_state: State)
        ensures
            final(self)@ == old(self)@.switch_to(next_state),
    {
        self.state = next_state;
    }

    pub(crate) fn set_return_state(&mut self, state: State)
        ensures
            final(self)@ == old(self)@.set_return_state(state),
    {
        self.return_state = Some(state);
    }

    pub(crate) fn emit_character(&mut self, data: char)
        ensures
            final(self)@ == old(self)@.emit_character(data),
    {
        self.emit_token(Token::Character(data));
    }

    pub(crate) fn emit_eof(&mut self)
        ensures
            final(self)@ == old(self)@.emit_eof(),
    {
        self.emit_token(Token::EndOfFile);
    }

    fn emit_token(&mut self, token: Token)
        ensures
            final(self)@ == old(self)@.emit_token(token@),
    {
        self.output_buf.push_back(Ok(token));
        assert(self@.output =~= old(self)@.output.push(Ok(token@)));
    }

    pub(crate) fn emit_parse_error(&mut self, error: ParseError)
        ensures
            final(self)@ == old(self)@.emit_parse_error(error),
    {
        self.output_buf.push_back(Err(error));
        assert(self@.output =~= old(self)@.output.push(Err(error)));
    }

    pub(crate) fn emit_current_input_character(&mut self)
        ensures
            final(self)@ == old(self)@.emit_current_input_character(),
    {
        match self.current_input_character {
            Codepoint::Scalar(ch) => self.emit_character(ch),
            Codepoint::EndOfFile => {},
        }
    }

    /// Runs the transition of the state that is active.
    pub(crate) fn do_some_work(&mut self)
        ensures
            final(self)@ == step(old(self)@),
    {
        proof {
            reveal(impl_data::transition);
            reveal(impl_tag::transition);
            reveal(impl_rawtext::transition);
            reveal(impl_script::transition);
            reveal(impl_attribute::transition);
            reveal(impl_comment::transition);
            reveal(impl_doctype::transition);
            reveal(impl_cdata::transition);
            reveal(impl_reference::transition);
            reveal(impl_named::transition);
        }
        match self.state {
            State::Data => self.handle_data(),
            State::RCDATA => self.handle_rcdata(),
            State::RAWTEXT => self.handle_rawtext(),
            State::ScriptData => self.handle_script_data(),
            State::PLAINTEXT => self.handle_plaintext(),
            State::TagOpen => self.handle_tag_open(),
            State::EndTagOpen => self.handle_end_tag_open(),
            State::TagName => self.handle_tag_name(),
            State::RCDATALessThanSign => self.handle_rcdata_less_than_sign(),
            State::RCDATAEndTagOpen => self.handle_rcdata_end_tag_open(),
            State::RCDATAEndTagName => self.handle_rcdata_end_tag_name(),
            State::RAWTEXTLessThanSign => self.handle_rawtext_less_than_sign(),
            State::RAWTEXTEndTagOpen => self.handle_rawtext_end_tag_open(),
            State::RAWTEXTEndTagName => self.handle_rawtext_end_tag_name(),
            State::ScriptDataLessThanSign => self.handle_script_data_less_than_sign(),
            State::ScriptDataEndTagOpen => self.handle_script_data_end_tag_open(),
            State::ScriptDataEndTagName => self.handle_script_data_end_tag_name(),
            State::ScriptDataEscapeStart => self.handle_script_data_escape_start(),
            State::ScriptDataEscapeStartDash => self.handle_script_data_escape_start_dash(),
            State::ScriptDataEscaped => self.handle_script_data_escaped(),
            State::ScriptDataEscapedDash => self.handle_script_data_escaped_dash(),
            State::ScriptDataEscapedDashDash => self.handle_script_data_escaped_dash_dash(),
            State::ScriptDataEscapedLessThanSign => {
                self.handle_script_data_escaped_less_than_sign()
            },
            State::ScriptDataEscapedEndTagOpen => self.handle_script_data_escaped_end_tag_open(),
            State::ScriptDataEscapedEndTagName => self.handle_script_data_escaped_end_tag_name(),
            State::ScriptDataDoubleEscapeStart => self.handle_script_data_double_escape_start(),
            State::ScriptDataDoubleEscaped => self.handle_script_data_double_escaped(),
            State::ScriptDataDoubleEscapedDash => self.handle_script_data_double_escaped_dash(),
            State::ScriptDataDoubleEscapedDashDash => {
                self.handle_script_data_double_escaped_dash_dash()
            },
            State::ScriptDataDoubleEscapedLessThanSign => {
                self.handle_script_data_double_escaped_less_than_sign()
            },
            State::ScriptDataDoubleEscapeEnd => self.handle_script_data_double_escape_end(),
            State::BeforeAttributeName => self.handle_before_attribute_name(),
            State::AttributeName => self.handle_attribute_name(),
            State::AfterAttributeName => self.handle_after_attribute_name(),
            State::BeforeAttributeValue => self.handle_before_attribute_value(),
            State::AttributeValueDoubleQuoted => self.handle_attribute_value_double_quoted(),
            State::AttributeValueSingleQuoted => self.handle_attribute_value_single_quoted(),
            State::AttributeValueUnquoted => self.handle_attribute_value_unquoted(),
            State::AfterAttributeValueQuoted => self.handle_after_attribute_value_quoted(),
            State::SelfClosingStartTag => self.handle_self_closing_start_tag(),
            State::BogusComment => self.handle_bogus_comment(),
            State::MarkupDeclarationOpen => self.handle_markup_declaration_open(),
            State::CommentStart => self.handle_comment_start(),
            State::CommentStartDash => self.handle_comment_start_dash(),
            State::Comment => self.handle_comment(),
            State::CommentLessThanSign => self.handle_comment_less_than_sign(),
            State::CommentLessThanSignBang => self.handle_comment_less_than_sign_bang(),
            State::CommentLessThanSignBangDash => self.handle_comment_less_than_sign_bang_dash(),
            State::CommentLessThanSignBangDashDash => {
                self.handle_comment_less_than_sign_bang_dash_dash()
            },
            State::CommentEndDash => self.handle_comment_end_dash(),
            State::CommentEnd => self.handle_comment_end(),
            State::CommentEndBang => self.handle_comment_end_bang(),
            State::DOCTYPE => self.handle_doctype(),
            State::BeforeDOCTYPEName => self.handle_beforedoctype_name(),
            State::DOCTYPEName => self.handle_doctype_name(),
            State::AfterDOCTYPEName => self.handle_afterdoctype_name(),
            State::AfterDOCTYPEPublicKeyword => self.handle_afterdoctype_public_keyword(),
            State::BeforeDOCTYPEPublicIdentifier => self.handle_beforedoctype_public_identifier(),
            State::DOCTYPEPublicIdentifierDoubleQuoted => {
                self.handle_doctype_public_identifier_double_quoted()
            },
            State::DOCTYPEPublicIdentifierSingleQuoted => {
                self.handle_doctype_public_identifier_single_quoted()
            },
            State::AfterDOCTYPEPublicIdentifier => self.handle_afterdoctype_public_identifier(),
            State::BetweenDOCTYPEPublicAndSystemIdentifiers => {
                self.handle_betweendoctype_public_and_system_identifiers()
            },
            State::AfterDOCTYPESystemKeyword => self.handle_afterdoctype_system_keyword(),
            State::BeforeDOCTYPESystemIdentifier => self.handle_beforedoctype_system_identifier(),
            State::DOCTYPESystemIdentifierDoubleQuoted => {
                self.handle_doctype_system_identifier_double_quoted()
            },
            State::DOCTYPESystemIdentifierSingleQuoted => {
                self.handle_doctype_system_identifier_single_quoted()
            },
            State::AfterDOCTYPESystemIdentifier => self.handle_afterdoctype_system_identifier(),
            State::BogusDOCTYPE => self.handle_bogusdoctype(),
            State::CDATASection => self.handle_cdata_section(),
            State::CDATASectionBracket => self.handle_cdata_section_bracket(),
            State::CDATASectionEnd => self.handle_cdata_section_end(),
            State::CharacterReference => self.handle_character_reference(),
            State::NamedCharacterReference => self.handle_named_character_reference(),
            State::AmbiguousAmpersand => self.handle_ambiguous_ampersand(),
            State::NumericCharacterReference => self.handle_numeric_character_reference(),
            State::HexadecimalCharacterReferenceStart => {
                self.handle_hexadecimal_character_reference_start()
            },
            State::DecimalCharacterReferenceStart => {
                self.handle_decimal_character_reference_start()
            },
            State::HexadecimalCharacterReference => self.handle_hexadecimal_character_reference(),
            State::DecimalCharacterReference => self.handle_decimal_character_reference(),
            State::NumericCharacterReferenceEnd => self.handle_numeric_character_reference_end(),
        }
    }
}

impl Tokenizer for TokenizerImpl {
    /// Nothing once the end-of-file token has been handed out; before that, what stands in
    /// the output and what the steps to come will emit, up to the end-of-file token.
    open spec fn remaining(&self) -> Seq<Item> {
        remaining_items(self@)
    }

    /// Runs the tokenizer until an item is ready, and hands it out. The end-of-file token
    /// is the last item; after it every call returns `None`. Until then a consistent
    /// tokenizer stays consistent.
    fn next(&mut self) -> (r: Option<Result<Token, ParseError>>)
        ensures
            is_consistent(old(self)@) ==> is_consistent(final(self)@) || final(self)@.finished,
    {
        if self.finished {
            return None;
        }
        loop
            invariant
                !old(self)@.finished,
                !self@.finished,
                is_consistent(old(self)@) ==> is_consistent(self@),
                pending_items(self@) == pending_items(old(self)@),
            decreases not_done(self@), remaining(self@), rank(self@), self@.output.len(),
        {
            let ghost before = self@;
            match self.output_buf.pop_front() {
                Some(output) => {
                    assert(self@.output =~= before.output.drop_first());
                    if self::is_end_of_file(&output) {
                        self.finished = true;
                    } else {
                        proof {
                            if is_consistent(before) {
                                lemma_pop_keeps_consistent(before);
                            }
                        }
                    }
                    return Some(output);
                },
                None => {
                    proof {
                        lemma_step_progress(before);
                        if is_consistent(before) {
                            lemma_step_keeps_consistent(before);
                        }
                    }
                    self.do_some_work();
                },
            }
        }
    }
}

/// Whether `item` is the end-of-file token.
fn is_end_of_file(item: &Result<Token, ParseError>) -> (r: bool)
    ensures
        r == (item_view(*item) == end_of_file_item()),
{
    match item {
        Ok(Token::EndOfFile) => true,
        _ => false,
    }
}

} // verus!
