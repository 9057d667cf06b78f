use vstd::prelude::*;
use crate::dom::{empty_document, is_tree, Dom, Node, NodeDataView, NodeView};
use crate::parser::state::InsertionMode;
use crate::tokenizer::token::{Item, TokenView};
use crate::tokenizer::{Token, Tokenizer};

pub mod impl_;
pub mod state;

verus! {

/// Builds a document tree from the items that a tokenizer hands out.
pub struct Parser<T: Tokenizer> {
    tokenizer: T,
    root_node: Dom,
    mode: InsertionMode,
    current_token: Option<Token>,
    parse_errors: usize,
}

/// The state of a parser as plain values.
pub struct ParserView {
    pub mode: InsertionMode,
    /// The token that is to be handled once more, in the mode that it led to.
    pub current_token: Option<TokenView>,
    pub dom: Seq<NodeView>,
    /// The number of parse errors met so far: the tokenizer's and the parser's own. It
    /// stays at the largest number that can be counted.
    pub parse_errors: nat,
}

pub open spec fn token_view(token: Option<Token>) -> Option<TokenView> {
    match token {
        Some(t) => Some(t@),
        None => None,
    }
}

impl ParserView {
    /// A parser that has handled nothing yet.
    pub open spec fn initial() -> ParserView {
        ParserView {
            mode: InsertionMode::Initial,
            current_token: None,
            dom: empty_document(),
            parse_errors: 0,
        }
    }

    pub open spec fn switch_to(self, mode: InsertionMode) -> ParserView {
        ParserView { mode, ..self }
    }

    /// Changes the mode and keeps `token` to be handled once more.
    pub open spec fn reprocess_in(self, mode: InsertionMode, token: TokenView) -> ParserView {
        ParserView { mode, current_token: Some(token), ..self }
    }

    pub open spec fn emit_parse_error(self) -> ParserView {
        ParserView {
            parse_errors: if self.parse_errors < usize::MAX {
                self.parse_errors + 1
            } else {
                self.parse_errors
            },
            ..self
        }
    }

    /// Handles `token` by the rules of the mode that is active. Only the initial mode has
    /// rules here: a token that arrives in a later mode is dropped.
    pub open spec fn handle(self, token: TokenView) -> ParserView {
        match self.mode {
            InsertionMode::Initial => impl_::handle_initial(self, token),
            InsertionMode::BeforeHtml | InsertionMode::BeforeHead | InsertionMode::InHead
            | InsertionMode::InHeadNoscript | InsertionMode::AfterHead | InsertionMode::InBody
            | InsertionMode::Text | InsertionMode::InTable | InsertionMode::InTableText
            | InsertionMode::InCaption | InsertionMode::InColumnGroup
            | InsertionMode::InTableBody | InsertionMode::InRow | InsertionMode::InCell
            | InsertionMode::InSelect | InsertionMode::InSelectInTable
            | InsertionMode::InTemplate | InsertionMode::AfterBody | InsertionMode::InFrameset
            | InsertionMode::AfterFrameset | InsertionMode::AfterAfterBody
            | InsertionMode::AfterAfterFrameset => self,
        }
    }

    /// How far the parser is from dropping the token that it keeps: 0 without a token.
    pub open spec fn backlog(self) -> nat {
        match self.current_token {
            Some(_) => if self.mode == InsertionMode::Initial {
                2
            } else {
                1
            },
            None => 0,
        }
    }

    /// The parser after it has handled all of `items`, one after the other. An error counts
    /// and is otherwise passed over.
    pub open spec fn run(self, items: Seq<Item>) -> ParserView
        decreases items.len(), self.backlog(),
    {
        match self.current_token {
            Some(token) => {
                let cleared = ParserView { current_token: None, ..self };
                cleared.handle(token).run(items)
            },
            None => if items.len() == 0 {
                self
            } else {
                match items[0] {
                    Ok(token) => self.handle(token).run(items.drop_first()),
                    Err(_) => self.emit_parse_error().run(items.drop_first()),
                }
            },
        }
    }
}

/// Once the initial mode has been left, the tree and the mode stay as they are: the items
/// that follow only add to the number of errors.
pub proof fn lemma_tree_is_built_in_initial_mode(p: ParserView, items: Seq<Item>)
    requires
        p.mode != InsertionMode::Initial,
    ensures
        p.run(items).dom == p.dom,
        p.run(items).mode == p.mode,
        p.run(items).current_token is None,
    decreases items.len(), p.backlog(),
{
    match p.current_token {
        Some(token) => {
            let cleared = ParserView { current_token: None, ..p };
            lemma_tree_is_built_in_initial_mode(cleared.handle(token), items);
        },
        None => {
            if items.len() > 0 {
                match items[0] {
                    Ok(token) => {
                        lemma_tree_is_built_in_initial_mode(p.handle(token), items.drop_first());
                    },
                    Err(_) => {
                        lemma_tree_is_built_in_initial_mode(
                            p.emit_parse_error(),
                            items.drop_first(),
                        );
                    },
                }
            }
        },
    }
}

/// The document tree that the items of a tokenizer's output give.
pub open spec fn parse_items(items: Seq<Item>) -> Seq<NodeView> {
    ParserView::initial().run(items).dom
}

impl<T: Tokenizer> View for Parser<T> {
    type V = ParserView;

    closed spec fn view(&self) -> ParserView {
        ParserView {
            mode: self.mode,
            current_token: token_view(self.current_token),
            dom: self.root_node@,
            parse_errors: self.parse_errors as nat,
        }
    }
}

impl<T: Tokenizer> Parser<T> {
    /// The items that the parser's tokenizer has still to hand out.
    pub closed spec fn input(&self) -> Seq<Item> {
        self.tokenizer.remaining()
    }

    /// A parser over the items of `tokenizer`, with an empty document.
    pub fn new(tokenizer: T) -> (r: Self)
        ensures
            r@ == ParserView::initial(),
            r.input() == tokenizer.remaining(),
            is_tree(r@.dom),
    {
        Self {
            tokenizer,
            root_node: Node::create_document(),
            mode: InsertionMode::Initial,
            current_token: None,
            parse_errors: 0,
        }
    }

    /// Handles every item that the tokenizer still has, and returns the document tree.
    pub fn parse(&mut self) -> (r: &Dom)
        ensures
            final(self)@ == old(self)@.run(old(self).input()),
            final(self).input().len() == 0,
            is_tree(old(self)@.dom) ==> is_tree(final(self)@.dom),
            r@ == final(self)@.dom,
            old(self)@ == ParserView::initial() ==> r@ == parse_items(old(self).input()),
    {
        loop
            invariant
                is_tree(old(self)@.dom) ==> is_tree(self@.dom),
                self@.run(self.input()) == old(self)@.run(old(self).input()),
            ensures
                is_tree(old(self)@.dom) ==> is_tree(self@.dom),
                self@ == old(self)@.run(old(self).input()),
                self.input().len() == 0,
            decreases self.input().len(), self@.backlog(),
        {
            if !self.do_some_work() {
                break ;
            }
        }
        &self.root_node
    }

    /// The number of parse errors that the parser has met.
    pub fn parse_errors(&self) -> (r: usize)
        ensures
            r == self@.parse_errors,
    {
        self.parse_errors
    }

    /// The insertion mode that is active.
    pub fn mode(&self) -> (r: InsertionMode)
        ensures
            r == self@.mode,
    {
        self.mode
    }

    pub(crate) fn switch_to(&mut self, next_mode: InsertionMode)
        ensures
            final(self)@ == old(self)@.switch_to(next_mode),
            final(self).input() == old(self).input(),
    {
        self.mode = next_mode;
    }

    pub(crate) fn reprocess_in(&mut self, next_mode: InsertionMode, token: Token)
        ensures
            final(self)@ == old(self)@.reprocess_in(next_mode, token@),
            final(self).input() == old(self).input(),
    {
        self.current_token = Some(token);
        self.mode = next_mode;
    }

    /// Handles one token: the one that was kept, or else the next one of the tokenizer.
    /// Returns `true` if there is more work to do.
    fn do_some_work(&mut self) -> (more: bool)
        ensures
            is_tree(old(self)@.dom) ==> is_tree(final(self)@.dom),
            final(self)@.run(final(self).input()) == old(self)@.run(old(self).input()),
            more ==> final(self).input().len() < old(self).input().len() || (final(self).input()
                == old(self).input() && final(self)@.backlog() < old(self)@.backlog()),
            !more ==> final(self).input().len() == 0 && final(self)@ == old(self)@.run(
                old(self).input(),
            ),
    {
        match self.next_non_error_token() {
            Some(token) => {
                self.handle(token);
                true
            },
            None => false,
        }
    }

    /// The token to handle next: the one that was kept, or else the next token of the
    /// tokenizer. Errors on the way are counted. `None` when the tokenizer has no more.
    fn next_non_error_token(&mut self) -> (r: Option<Token>)
        ensures
            final(self)@.dom == old(self)@.dom,
            final(self)@.mode == old(self)@.mode,
            final(self)@.current_token is None,
            match old(self)@.current_token {
                Some(kept) => r is Some && r->0@ == kept && final(self).input() == old(
                    self,
                ).input() && final(self)@.parse_errors == old(self)@.parse_errors,
                None => pulled(old(self)@, old(self).input(), final(self)@, final(self).input(), r),
            },
    {
        match self.current_token.take() {
            Some(token) => Some(token),
            None => {
                loop
                    invariant
                        self@.dom == old(self)@.dom,
                        self@.mode == old(self)@.mode,
                        self@.current_token is None,
                        old(self)@.current_token is None,
                        self@.run(self.input()) == old(self)@.run(old(self).input()),
                        self.input().len() <= old(self).input().len(),
                    decreases self.input().len(),
                {
                    match self.tokenizer.next() {
                        Some(Ok(token)) => {
                            return Some(token);
                        },
                        Some(Err(_)) => {
                            self.emit_parse_error();
                        },
                        None => {
                            return None;
                        },
                    }
                }
            },
        }
    }

    fn handle(&mut self, token: Token)
        ensures
            is_tree(old(self)@.dom) ==> is_tree(final(self)@.dom),
            final(self)@ == old(self)@.handle(token@),
            final(self).input() == old(self).input(),
    {
        match self.mode {
            InsertionMode::Initial => self.handle_initial(token),
            InsertionMode::BeforeHtml | InsertionMode::BeforeHead | InsertionMode::InHead
            | InsertionMode::InHeadNoscript | InsertionMode::AfterHead | InsertionMode::InBody
            | InsertionMode::Text | InsertionMode::InTable | InsertionMode::InTableText
            | InsertionMode::InCaption | InsertionMode::InColumnGroup
            | InsertionMode::InTableBody | InsertionMode::InRow | InsertionMode::InCell
            | InsertionMode::InSelect | InsertionMode::InSelectInTable
            | InsertionMode::InTemplate | InsertionMode::AfterBody | InsertionMode::InFrameset
            | InsertionMode::AfterFrameset | InsertionMode::AfterAfterBody
            | InsertionMode::AfterAfterFrameset => {
                // No rules for these modes: the token is dropped.
            },
        }
    }

    /// Makes a comment with the text `data` the last child of the document.
    pub(crate) fn append_comment(&mut self, data: String)
        ensures
            is_tree(old(self)@.dom) ==> is_tree(final(self)@.dom),
            final(self)@ == (ParserView {
                dom: impl_::with_document_child(old(self)@.dom, NodeDataView::Comment(data@)),
                ..old(self)@
            }),
            final(self).input() == old(self).input(),
    {
        Node::create_comment(data, &mut self.root_node, 0, 0);
    }

    /// Makes a doctype with these parts the last child of the document.
    pub(crate) fn append_doctype(
        &mut self,
        name: String,
        public_identifier: String,
        system_identifier: String,
    )
        ensures
            is_tree(old(self)@.dom) ==> is_tree(final(self)@.dom),
            final(self)@ == (ParserView {
                dom: impl_::with_document_child(
                    old(self)@.dom,
                    (NodeDataView::Doctype {
                        name: name@,
                        public_identifier: public_identifier@,
                        private_identifier: system_identifier@,
                    }),
                ),
                ..old(self)@
            }),
            final(self).input() == old(self).input(),
    {
        Node::create_doctype(
            name,
            public_identifier,
            system_identifier,
            &mut self.root_node,
            0,
            0,
        );
    }

    fn emit_parse_error(&mut self)
        ensures
            final(self)@ == old(self)@.emit_parse_error(),
            final(self).input() == old(self).input(),
    {
        if self.parse_errors < usize::MAX {
            self.parse_errors += 1;
        }
    }

    pub(crate) fn emit_anonymous_parse_error(&mut self)
        ensures
            final(self)@ == old(self)@.emit_parse_error(),
            final(self).input() == old(self).input(),
    {
        self.emit_parse_error();
    }
}

/// What pulling the next token does to a parser that keeps none: the errors before the
/// first token of `input` are counted, and the rest of the input follows that token.
pub open spec fn pulled(
    before: ParserView,
    input: Seq<Item>,
    after: ParserView,
    rest: Seq<Item>,
    r: Option<Token>,
) -> bool {
    &&& rest.len() <= input.len()
    &&& match r {
        Some(token) => rest.len() < input.len() && before.run(input) == after.handle(token@).run(
            rest,
        ),
        None => rest.len() == 0 && before.run(input) == after,
    }
}

} // verus!
