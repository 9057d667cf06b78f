use vstd::prelude::*;
use vstd::string::StringExecFns;
use crate::dom::{is_tree, with_child, NodeDataView};
use crate::parser::state::InsertionMode;
use crate::parser::{Parser, ParserView};
use crate::tokenizer::token::TokenView;
use crate::tokenizer::{Token, Tokenizer};

verus! {

/// Whether `c` is one of the characters that the initial mode passes over: tab, line feed,
/// form feed, carriage return and space.
pub open spec fn is_ignorable(c: char) -> bool {
    c == '\t' || c == '\n' || c == '\u{000C}' || c == '\r' || c == ' '
}

/// Whether a doctype with these parts is the one that a document should have: its name is
/// `html`, it has no public identifier, and its system identifier, if it has one, is
/// `about:legacy-compat`.
pub open spec fn is_conforming_doctype(
    name: Option<Seq<char>>,
    public_identifier: Option<Seq<char>>,
    system_identifier: Option<Seq<char>>,
) -> bool {
    name == Some("html"@) && public_identifier is None && (system_identifier is None
        || system_identifier == Some("about:legacy-compat"@))
}

/// The text, or the empty text where there is none.
pub open spec fn text_or_empty(text: Option<Seq<char>>) -> Seq<char> {
    match text {
        Some(t) => t,
        None => Seq::empty(),
    }
}

/// The tree with one more child of the document node, if it can hold one more node.
pub open spec fn with_document_child(
    dom: Seq<crate::dom::NodeView>,
    data: NodeDataView,
) -> Seq<crate::dom::NodeView> {
    if 0 < dom.len() < usize::MAX {
        with_child(dom, data, 0, 0)
    } else {
        dom
    }
}

/// The initial mode. White space is passed over. A comment becomes a child of the document.
/// A doctype becomes a child of the document, after an error is counted if it is not the
/// one that a document should have, and the mode that follows is `BeforeHtml`. Any other
/// token is handled once more in `BeforeHtml`.
pub open spec fn handle_initial(p: ParserView, token: TokenView) -> ParserView {
    match token {
        TokenView::Character(c) if is_ignorable(c) => p,
        TokenView::Comment { data } => ParserView {
            dom: with_document_child(p.dom, NodeDataView::Comment(data)),
            ..p
        },
        TokenView::Doctype { name, public_identifier, system_identifier, force_quirks } => {
            let checked = if is_conforming_doctype(name, public_identifier, system_identifier) {
                p
            } else {
                p.emit_parse_error()
            };
            ParserView {
                dom: with_document_child(
                    p.dom,
                    NodeDataView::Doctype {
                        name: text_or_empty(name),
                        public_identifier: text_or_empty(public_identifier),
                        private_identifier: text_or_empty(system_identifier),
                    },
                ),
                ..checked
            }.switch_to(InsertionMode::BeforeHtml)
        },
        _ => p.reprocess_in(InsertionMode::BeforeHtml, token),
    }
}

fn text_is(text: &Option<String>, expected: &str) -> (r: bool)
    ensures
        r == (crate::tokenizer::token::text_view(*text) == Some(expected@)),
{
    match text {
        Some(t) => *t == String::from_str(expected),
        None => false,
    }
}

fn unwrap_text(text: Option<String>) -> (r: String)
    ensures
        r@ == text_or_empty(crate::tokenizer::token::text_view(text)),
{
    match text {
        Some(t) => t,
        None => String::new(),
    }
}

impl<T: Tokenizer> Parser<T> {
    pub(crate) fn handle_initial(&mut self, token: Token)
        ensures
            is_tree(old(self)@.dom) ==> is_tree(final(self)@.dom),
            final(self)@ == handle_initial(old(self)@, token@),
            final(self).input() == old(self).input(),
    {
        match token {
            Token::Character('\t') | Token::Character('\n') | Token::Character('\u{000C}')
            | Token::Character('\r') | Token::Character(' ') => {
                // ignore the token
            },
            Token::Comment { data } => {
                self.append_comment(data);
            },
            Token::Doctype { name, public_identifier, system_identifier, force_quirks: _ } => {
                let conforming = text_is(&name, "html") && public_identifier.is_none() && (
                system_identifier.is_none() || text_is(&system_identifier, "about:legacy-compat"));
                if !conforming {
                    self.emit_anonymous_parse_error();
                }
                self.append_doctype(
                    unwrap_text(name),
                    unwrap_text(public_identifier),
                    unwrap_text(system_identifier),
                );
                self.switch_to(InsertionMode::BeforeHtml);
            },
            _ => {
                self.reprocess_in(InsertionMode::BeforeHtml, token);
            },
        }
    }
}

} // verus!
