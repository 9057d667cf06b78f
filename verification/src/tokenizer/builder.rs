use vstd::prelude::*;
use crate::tokenizer::error::ParseError;
use crate::tokenizer::state::State;
use crate::tokenizer::token::{
    Attribute,
    IncompleteComment,
    IncompleteDoctype,
    IncompleteTag,
    TagKind,
};
use crate::tokenizer::TokenizerImpl;

verus! {

impl TokenizerImpl {
    pub(crate) fn create_new_doctype_token(&mut self)
        ensures
            final(self)@ == old(self)@.create_new_doctype_token(),
    {
        self.current_doctype_token = Some(IncompleteDoctype::default());
    }

    pub(crate) fn set_force_quirks(&mut self)
        ensures
            final(self)@ == old(self)@.set_force_quirks(),
    {
        match &mut self.current_doctype_token {
            Some(doctype) => {
                doctype.force_quirks = true;
            },
            None => {},
        }
    }

    pub(crate) fn start_doctype_name(&mut self, c: char)
        ensures
            final(self)@ == old(self)@.start_doctype_name(c),
    {
        match &mut self.current_doctype_token {
            Some(doctype) => {
                let mut name = String::new();
                name.push(c);
                doctype.name = Some(name);
            },
            None => {},
        }
    }

    pub(crate) fn push_doctype_name(&mut self, c: char)
        ensures
            final(self)@ == old(self)@.push_doctype_name(c),
    {
        match &mut self.current_doctype_token {
            Some(doctype) => match &mut doctype.name {
                Some(name) => {
                    name.push(c);
                },
                None => {},
            },
            None => {},
        }
    }

    pub(crate) fn start_public_identifier(&mut self)
        ensures
            final(self)@ == old(self)@.start_public_identifier(),
    {
        match &mut self.current_doctype_token {
            Some(doctype) => {
                doctype.public_identifier = Some(String::new());
            },
            None => {},
        }
    }

    pub(crate) fn push_public_identifier(&mut self, c: char)
        ensures
            final(self)@ == old(self)@.push_public_identifier(c),
    {
        match &mut self.current_doctype_token {
            Some(doctype) => match &mut doctype.public_identifier {
                Some(identifier) => {
                    identifier.push(c);
                },
                None => {},
            },
            None => {},
        }
    }

    pub(crate) fn start_system_identifier(&mut self)
        ensures
            final(self)@ == old(self)@.start_system_identifier(),
    {
        match &mut self.current_doctype_token {
            Some(doctype) => {
                doctype.system_identifier = Some(String::new());
            },
            None => {},
        }
    }

    pub(crate) fn push_system_identifier(&mut self, c: char)
        ensures
            final(self)@ == old(self)@.push_system_identifier(c),
    {
        match &mut self.current_doctype_token {
            Some(doctype) => match &mut doctype.system_identifier {
                Some(identifier) => {
                    identifier.push(c);
                },
                None => {},
            },
            None => {},
        }
    }

    pub(crate) fn emit_current_doctype_token(&mut self)
        ensures
            final(self)@ == old(self)@.emit_current_doctype_token(),
    {
        match self.current_doctype_token.take() {
            Some(incomplete_token) => {
                self.emit_token(incomplete_token.into_token());
            },
            None => {},
        }
    }

    pub(crate) fn create_new_start_tag_token(&mut self)
        ensures
            final(self)@ == old(self)@.create_new_tag_token(TagKind::Start),
    {
        self.current_tag_token = Some(IncompleteTag::default(TagKind::Start));
    }

    pub(crate) fn create_new_end_tag_token(&mut self)
        ensures
            final(self)@ == old(self)@.create_new_tag_token(TagKind::End),
    {
        self.current_tag_token = Some(IncompleteTag::default(TagKind::End));
    }

    pub(crate) fn push_tag_name(&mut self, c: char)
        ensures
            final(self)@ == old(self)@.push_tag_name(c),
    {
        match &mut self.current_tag_token {
            Some(tag) => {
                tag.tag_name.push(c);
            },
            None => {},
        }
    }

    pub(crate) fn set_self_closing(&mut self)
        ensures
            final(self)@ == old(self)@.set_self_closing(),
    {
        match &mut self.current_tag_token {
            Some(tag) => {
                tag.self_closing = true;
            },
            None => {},
        }
    }

    pub(crate) fn start_attribute(&mut self)
        ensures
            final(self)@ == old(self)@.start_attribute(),
    {
        match &mut self.current_tag_token {
            Some(tag) => {
                tag.attributes.push(Attribute::new(String::new(), String::new()));
            },
            None => {},
        }
    }

    pub(crate) fn push_attribute_name(&mut self, c: char)
        ensures
            final(self)@ == old(self)@.push_attribute_name(c),
    {
        match &mut self.current_tag_token {
            Some(tag) => {
                tag.attributes.push_to_name(c);
            },
            None => {},
        }
    }

    pub(crate) fn push_attribute_value(&mut self, c: char)
        ensures
            final(self)@ == old(self)@.push_attribute_value(c),
    {
        match &mut self.current_tag_token {
            Some(tag) => {
                tag.attributes.push_to_value(c);
            },
            None => {},
        }
    }

    pub(crate) fn is_appropriate_end_tag(&self) -> (r: bool)
        ensures
            r == self@.is_appropriate_end_tag(),
    {
        match &self.current_tag_token {
            Some(tag) => match &self.last_start_tag_name {
                Some(last) => tag.kind == TagKind::End && *last == tag.tag_name,
                None => false,
            },
            None => false,
        }
    }

    pub(crate) fn emit_current_tag_token(&mut self)
        ensures
            final(self)@ == old(self)@.emit_current_tag_token(),
    {
        match self.current_tag_token.take() {
            Some(incomplete_token) => {
                if incomplete_token.kind == TagKind::End && incomplete_token.attributes.len() > 0 {
                    self.emit_parse_error(ParseError::EndTagWithAttributes);
                }
                if incomplete_token.kind == TagKind::End && incomplete_token.self_closing {
                    self.emit_parse_error(ParseError::EndTagWithTrailingSolidus);
                }
                if incomplete_token.kind == TagKind::Start {
                    self.last_start_tag_name = Some(incomplete_token.tag_name.clone());
                }
                self.emit_token(incomplete_token.into_token());
            },
            None => {},
        }
    }

    pub(crate) fn discard_current_tag_token(&mut self)
        ensures
            final(self)@ == old(self)@.discard_current_tag_token(),
    {
        self.current_tag_token = None;
    }

    pub(crate) fn create_new_comment_token(&mut self)
        ensures
            final(self)@ == old(self)@.create_new_comment_token(),
    {
        self.current_comment_token = Some(IncompleteComment::default());
    }

    pub(crate) fn push_comment(&mut self, c: char)
        ensures
            final(self)@ == old(self)@.push_comment(c),
    {
        match &mut self.current_comment_token {
            Some(comment) => {
                comment.data.push(c);
            },
            None => {},
        }
    }

    pub(crate) fn emit_current_comment_token(&mut self)
        ensures
            final(self)@ == old(self)@.emit_current_comment_token(),
    {
        match self.current_comment_token.take() {
            Some(incomplete_token) => {
                self.emit_token(incomplete_token.into_token());
            },
            None => {},
        }
    }

    pub(crate) fn clear_buffer(&mut self)
        ensures
            final(self)@ == old(self)@.clear_buffer(),
    {
        self.temporary_buffer = Vec::new();
    }

    pub(crate) fn push_buffer(&mut self, c: char)
        ensures
            final(self)@ == old(self)@.push_buffer(c),
    {
        self.temporary_buffer.push(c);
    }

    pub(crate) fn append_buffer(&mut self, text: &str)
        ensures
            final(self)@ == old(self)@.append_buffer(text@),
    {
        let count = text.unicode_len();
        let mut i: usize = 0;
        while i < count
            invariant
                i <= count,
                count == text@.len(),
                self@ == old(self)@.append_buffer(text@.take(i as int)),
            decreases count - i,
        {
            let c = text.get_char(i);
            self.push_buffer(c);
            assert(old(self)@.buffer + text@.take(i + 1) =~= (old(self)@.buffer + text@.take(
                i as int,
            )).push(c));
            i += 1;
        }
        assert(text@.take(count as int) =~= text@);
    }

    pub(crate) fn set_code(&mut self, code: u32)
        ensures
            final(self)@ == old(self)@.set_code(code as nat),
    {
        self.character_reference_code = code;
    }

    pub(crate) fn code(&self) -> (r: u32)
        ensures
            r == self@.code,
    {
        self.character_reference_code
    }

    pub(crate) fn push_digit(&mut self, base: u32, digit: u32)
        requires
            base == 10 || base == 16,
            digit < 16,
        ensures
            final(self)@ == old(self)@.push_digit(base as nat, digit as nat),
    {
        let code = self.character_reference_code;
        if code > 0x10FFFF {
            assert(code * base + digit > 0x10FFFF) by (nonlinear_arith)
                requires
                    code > 0x10FFFF,
                    base >= 10,
            ;
            self.character_reference_code = 0x110000;
        } else {
            assert(code * base + digit <= 0x10FFFF * 16 + 16) by (nonlinear_arith)
                requires
                    code <= 0x10FFFF,
                    base <= 16,
                    digit < 16,
            ;
            let next = code * base + digit;
            if next > 0x10FFFF {
                self.character_reference_code = 0x110000;
            } else {
                self.character_reference_code = next;
            }
        }
    }

    pub(crate) fn return_target(&self) -> (r: State)
        ensures
            r == self@.return_target(),
    {
        match self.return_state {
            Some(State::RCDATA) => State::RCDATA,
            Some(State::AttributeValueDoubleQuoted) => State::AttributeValueDoubleQuoted,
            Some(State::AttributeValueSingleQuoted) => State::AttributeValueSingleQuoted,
            Some(State::AttributeValueUnquoted) => State::AttributeValueUnquoted,
            _ => State::Data,
        }
    }

    pub(crate) fn in_attribute(&self) -> (r: bool)
        ensures
            r == self@.in_attribute(),
    {
        match self.return_target() {
            State::AttributeValueDoubleQuoted => true,
            State::AttributeValueSingleQuoted => true,
            State::AttributeValueUnquoted => true,
            _ => false,
        }
    }

    pub(crate) fn leave_reference(&mut self)
        ensures
            final(self)@ == old(self)@.leave_reference(),
    {
        self.state = self.return_target();
        self.return_state = None;
    }

    pub(crate) fn reconsume_in_return_state(&mut self)
        requires
            !old(self)@.reconsume,
        ensures
            final(self)@ == old(self)@.reconsume_in_return_state(),
    {
        self.state = self.return_target();
        self.return_state = None;
        self.reconsume_next_input_character = true;
    }

    pub(crate) fn emit_buffer(&mut self)
        ensures
            final(self)@ == old(self)@.emit_buffer(),
            final(self)@.reconsume == old(self)@.reconsume,
    {
        let mut i: usize = 0;
        while i < self.temporary_buffer.len()
            invariant
                i <= self.temporary_buffer.len(),
                self@.buffer == old(self)@.buffer,
                self@.reconsume == old(self)@.reconsume,
                self@ == old(self)@.emit_characters(old(self)@.buffer, i as nat),
            decreases self.temporary_buffer.len() - i,
        {
            let c = self.temporary_buffer[i];
            self.emit_character(c);
            i += 1;
        }
    }

    pub(crate) fn flush_code_points(&mut self)
        ensures
            final(self)@ == old(self)@.flush_code_points(),
            final(self)@.reconsume == old(self)@.reconsume,
    {
        if self.in_attribute() {
            let mut i: usize = 0;
            while i < self.temporary_buffer.len()
                invariant
                    i <= self.temporary_buffer.len(),
                    self@.buffer == old(self)@.buffer,
                    self@.reconsume == old(self)@.reconsume,
                    self@ == old(self)@.push_attribute_value_text(old(self)@.buffer, i as nat),
                decreases self.temporary_buffer.len() - i,
            {
                let c = self.temporary_buffer[i];
                self.push_attribute_value(c);
                i += 1;
            }
        } else {
            self.emit_buffer();
        }
    }
}

} // verus!
