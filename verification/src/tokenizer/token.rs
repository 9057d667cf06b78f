use vstd::prelude::*;
use vstd::seq_lib::to_multiset_build;
use vstd::std_specs::cmp::PartialEqSpecImpl;
use vstd::std_specs::convert::FromSpecImpl;
use crate::tokenizer::machine::{DoctypeView, TagView};

verus! {

/// An attribute as a pair of texts: its name, then its value.
pub type AttributeView = (Seq<char>, Seq<char>);

/// A finished token.
#[derive(Clone, PartialEq, Debug)]
pub enum Token {
    Doctype {
        name: Option<String>,
        public_identifier: Option<String>,
        system_identifier: Option<String>,
        force_quirks: bool,
    },
    Tag { kind: TagKind, tag_name: String, self_closing: bool, attributes: Attributes },
    Comment { data: String },
    Character(char),
    EndOfFile,
}

/// Whether a tag opens or closes an element.
#[derive(Copy, Clone, Eq, PartialEq, Debug, Structural)]
pub enum TagKind {
    Start,
    End,
}

/// The attributes of a tag, in the order in which they were read. A name may occur more
/// than once. Two lists are equal when they hold the same attributes the same number of
/// times, in whatever order.
#[derive(Clone, Debug)]
pub struct Attributes {
    attrs: Vec<Attribute>,
}

/// One attribute of a tag: its name and its value.
#[derive(Clone, PartialEq, Debug)]
pub struct Attribute(String, String);

/// What a finished token holds, with every text as a sequence of characters.
pub enum TokenView {
    Doctype {
        name: Option<Seq<char>>,
        public_identifier: Option<Seq<char>>,
        system_identifier: Option<Seq<char>>,
        force_quirks: bool,
    },
    Tag { kind: TagKind, tag_name: Seq<char>, self_closing: bool, attributes: Seq<AttributeView> },
    Comment { data: Seq<char> },
    Character(char),
    EndOfFile,
}

/// One item of the tokenizer's output: a token, or an error.
pub type Item = Result<TokenView, crate::tokenizer::error::ParseError>;

pub open spec fn text_view(text: Option<String>) -> Option<Seq<char>> {
    match text {
        Some(s) => Some(s@),
        None => None,
    }
}

impl View for Attribute {
    type V = AttributeView;

    closed spec fn view(&self) -> AttributeView {
        (self.0@, self.1@)
    }
}

impl View for Attributes {
    type V = Seq<AttributeView>;

    closed spec fn view(&self) -> Seq<AttributeView> {
        self.attrs@.map_values(|a: Attribute| a@)
    }
}

impl View for Token {
    type V = TokenView;

    open spec fn view(&self) -> TokenView {
        match *self {
            Token::Doctype { name, public_identifier, system_identifier, force_quirks } => {
                TokenView::Doctype {
                    name: text_view(name),
                    public_identifier: text_view(public_identifier),
                    system_identifier: text_view(system_identifier),
                    force_quirks,
                }
            },
            Token::Tag { kind, tag_name, self_closing, attributes } => TokenView::Tag {
                kind,
                tag_name: tag_name@,
                self_closing,
                attributes: attributes@,
            },
            Token::Comment { data } => TokenView::Comment { data: data@ },
            Token::Character(c) => TokenView::Character(c),
            Token::EndOfFile => TokenView::EndOfFile,
        }
    }
}

impl From<char> for Token {
    fn from(data: char) -> (r: Token) {
        Token::Character(data)
    }
}

impl FromSpecImpl<char> for Token {
    open spec fn obeys_from_spec() -> bool {
        true
    }

    open spec fn from_spec(data: char) -> Token {
        Token::Character(data)
    }
}

/// How often `x` occurs in `s`.
pub open spec fn occurrences(s: Seq<AttributeView>, x: AttributeView) -> nat
    decreases s.len(),
{
    if s.len() == 0 {
        0
    } else {
        occurrences(s.drop_last(), x) + if s.last() == x {
            1nat
        } else {
            0nat
        }
    }
}

/// The attributes with the character `c` added to the name of the last one. An empty list
/// stays empty.
pub open spec fn push_to_last_name(s: Seq<AttributeView>, c: char) -> Seq<AttributeView> {
    if s.len() == 0 {
        s
    } else {
        s.drop_last().push((s.last().0.push(c), s.last().1))
    }
}

/// The attributes with the character `c` added to the value of the last one. An empty list
/// stays empty.
pub open spec fn push_to_last_value(s: Seq<AttributeView>, c: char) -> Seq<AttributeView> {
    if s.len() == 0 {
        s
    } else {
        s.drop_last().push((s.last().0, s.last().1.push(c)))
    }
}

/// The number of occurrences of `x` in the multiset of `s` is the number of places of `s`
/// that hold `x`.
pub proof fn lemma_occurrences_is_count(s: Seq<AttributeView>, x: AttributeView)
    ensures
        s.to_multiset().count(x) == occurrences(s, x),
    decreases s.len(),
{
    if s.len() == 0 {
        s.to_multiset_ensures();
    } else {
        lemma_occurrences_is_count(s.drop_last(), x);
        to_multiset_build(s.drop_last(), s.last());
        assert(s.drop_last().push(s.last()) =~= s);
    }
}

proof fn lemma_occurrences_zero(s: Seq<AttributeView>, x: AttributeView)
    requires
        forall|i: int| 0 <= i < s.len() ==> s[i] != x,
    ensures
        occurrences(s, x) == 0,
    decreases s.len(),
{
    if s.len() > 0 {
        lemma_occurrences_zero(s.drop_last(), x);
    }
}

impl Attribute {
    /// The attribute with this name and this value.
    pub fn new(name: String, value: String) -> (r: Attribute)
        ensures
            r@ == (name@, value@),
    {
        Attribute(name, value)
    }

    pub fn name(&self) -> (r: &str)
        ensures
            r@ == self@.0,
    {
        self.0.as_str()
    }

    pub fn value(&self) -> (r: &str)
        ensures
            r@ == self@.1,
    {
        self.1.as_str()
    }

    /// Whether the two attributes have the same name and the same value.
    pub fn same_as(&self, other: &Attribute) -> (r: bool)
        ensures
            r == (self@ == other@),
    {
        self.0 == other.0 && self.1 == other.1
    }
}

impl Attributes {
    /// The empty list.
    pub fn new() -> (r: Attributes)
        ensures
            r@ == Seq::<AttributeView>::empty(),
    {
        let r = Attributes { attrs: Vec::new() };
        r
    }

    /// The number of attributes, each occurrence counted.
    pub fn len(&self) -> (r: usize)
        ensures
            r == self@.len(),
    {
        self.attrs.len()
    }

    /// The attribute at place `index`, if there is one.
    pub fn get(&self, index: usize) -> (r: Option<&Attribute>)
        ensures
            index < self@.len() ==> r is Some && r->0@ == self@[index as int],
            index >= self@.len() ==> r is None,
    {
        if index < self.attrs.len() {
            Some(&self.attrs[index])
        } else {
            None
        }
    }

    /// Adds `attribute` as the last one.
    pub fn push(&mut self, attribute: Attribute)
        ensures
            final(self)@ == old(self)@.push(attribute@),
    {
        self.attrs.push(attribute);
    }

    /// Adds `c` to the name of the last attribute. Without an attribute nothing changes.
    pub fn push_to_name(&mut self, c: char)
        ensures
            final(self)@ == push_to_last_name(old(self)@, c),
    {
        match self.attrs.pop() {
            Some(mut last) => {
                last.0.push(c);
                self.attrs.push(last);
            },
            None => {},
        }
    }

    /// Adds `c` to the value of the last attribute. Without an attribute nothing changes.
    pub fn push_to_value(&mut self, c: char)
        ensures
            final(self)@ == push_to_last_value(old(self)@, c),
    {
        match self.attrs.pop() {
            Some(mut last) => {
                last.1.push(c);
                self.attrs.push(last);
            },
            None => {},
        }
    }

    /// How often an attribute equal to `wanted` occurs in the list.
    fn count(&self, wanted: &Attribute) -> (r: usize)
        ensures
            r == occurrences(self@, wanted@),
    {
        let mut found: usize = 0;
        let mut i: usize = 0;
        while i < self.attrs.len()
            invariant
                i <= self.attrs.len(),
                found <= i,
                found == occurrences(self@.take(i as int), wanted@),
            decreases self.attrs.len() - i,
        {
            assert(self@.take(i + 1).drop_last() =~= self@.take(i as int));
            if self.attrs[i].same_as(wanted) {
                found += 1;
            }
            i += 1;
        }
        assert(self@.take(i as int) =~= self@);
        found
    }

    /// Whether every attribute of `self` occurs in `other` as often as in `self`.
    fn counts_agree(&self, other: &Attributes) -> (r: bool)
        ensures
            r == (forall|i: int|
                0 <= i < self@.len() ==> occurrences(self@, #[trigger] self@[i]) == occurrences(
                    other@,
                    self@[i],
                )),
    {
        let mut i: usize = 0;
        while i < self.attrs.len()
            invariant
                i <= self.attrs.len(),
                forall|k: int|
                    0 <= k < i ==> occurrences(self@, #[trigger] self@[k]) == occurrences(
                        other@,
                        self@[k],
                    ),
            decreases self.attrs.len() - i,
        {
            let wanted = &self.attrs[i];
            assert(wanted@ == self@[i as int]);
            if self.count(wanted) != other.count(wanted) {
                return false;
            }
            i += 1;
        }
        true
    }
}

/// Two sequences hold the same attributes the same number of times exactly when each
/// attribute of either occurs as often in the other.
pub proof fn lemma_same_multiset(a: Seq<AttributeView>, b: Seq<AttributeView>)
    ensures
        (a.to_multiset() == b.to_multiset()) <==> ((forall|i: int|
            0 <= i < a.len() ==> occurrences(a, #[trigger] a[i]) == occurrences(b, a[i]))
            && (forall|i: int|
            0 <= i < b.len() ==> occurrences(b, #[trigger] b[i]) == occurrences(a, b[i]))),
{
    assert forall|x: AttributeView|
        a.to_multiset().count(x) == occurrences(a, x) && b.to_multiset().count(x) == occurrences(
            b,
            x,
        ) by {
        lemma_occurrences_is_count(a, x);
        lemma_occurrences_is_count(b, x);
    }
    if (forall|i: int| 0 <= i < a.len() ==> occurrences(a, #[trigger] a[i]) == occurrences(b, a[i]))
        && (forall|i: int|
        0 <= i < b.len() ==> occurrences(b, #[trigger] b[i]) == occurrences(a, b[i])) {
        assert forall|x: AttributeView| a.to_multiset().count(x) == b.to_multiset().count(x) by {
            if exists|i: int| 0 <= i < a.len() && a[i] == x {
                let i = choose|i: int| 0 <= i < a.len() && a[i] == x;
                assert(occurrences(a, a[i]) == occurrences(b, a[i]));
            } else if exists|i: int| 0 <= i < b.len() && b[i] == x {
                let i = choose|i: int| 0 <= i < b.len() && b[i] == x;
                assert(occurrences(b, b[i]) == occurrences(a, b[i]));
            } else {
                lemma_occurrences_zero(a, x);
                lemma_occurrences_zero(b, x);
            }
        }
        assert(a.to_multiset() =~= b.to_multiset());
    }
}

impl PartialEq for Attributes {
    fn eq(&self, other: &Attributes) -> (r: bool) {
        proof {
            lemma_same_multiset(self@, other@);
        }
        self.counts_agree(other) && other.counts_agree(self)
    }
}

impl PartialEqSpecImpl for Attributes {
    open spec fn obeys_eq_spec() -> bool {
        true
    }

    open spec fn eq_spec(&self, other: &Attributes) -> bool {
        self@.to_multiset() == other@.to_multiset()
    }
}


/// A doctype whose parts are still being read.
#[derive(Debug)]
pub struct IncompleteDoctype {
    pub name: Option<String>,
    pub public_identifier: Option<String>,
    pub system_identifier: Option<String>,
    pub force_quirks: bool,
}

/// A tag whose name and attributes are still being read.
#[derive(Debug)]
pub struct IncompleteTag {
    pub kind: TagKind,
    pub tag_name: String,
    pub self_closing: bool,
    pub attributes: Attributes,
}

/// A comment whose text is still being read.
#[derive(Debug)]
pub struct IncompleteComment {
    pub data: String,
}

impl View for IncompleteDoctype {
    type V = DoctypeView;

    open spec fn view(&self) -> DoctypeView {
        DoctypeView {
            name: text_view(self.name),
            public_identifier: text_view(self.public_identifier),
            system_identifier: text_view(self.system_identifier),
            force_quirks: self.force_quirks,
        }
    }
}

impl View for IncompleteTag {
    type V = TagView;

    open spec fn view(&self) -> TagView {
        TagView {
            kind: self.kind,
            tag_name: self.tag_name@,
            self_closing: self.self_closing,
            attributes: self.attributes@,
        }
    }
}

impl View for IncompleteComment {
    type V = Seq<char>;

    open spec fn view(&self) -> Seq<char> {
        self.data@
    }
}

impl Default for IncompleteDoctype {
    /// A doctype without name and identifiers, and with the force-quirks flag off.
    fn default() -> (r: IncompleteDoctype)
        ensures
            r@ == DoctypeView::fresh(),
    {
        IncompleteDoctype {
            name: None,
            public_identifier: None,
            system_identifier: None,
            force_quirks: false,
        }
    }
}

impl IncompleteDoctype {
    /// The finished doctype token with the parts read so far.
    pub fn into_token(self) -> (r: Token)
        ensures
            r@ == self@.token(),
    {
        Token::Doctype {
            name: self.name,
            public_identifier: self.public_identifier,
            system_identifier: self.system_identifier,
            force_quirks: self.force_quirks,
        }
    }
}

impl IncompleteTag {
    /// A tag of the given kind with an empty name and no attributes.
    pub fn default(kind: TagKind) -> (r: IncompleteTag)
        ensures
            r@ == TagView::fresh(kind),
    {
        IncompleteTag {
            kind,
            tag_name: String::new(),
            self_closing: false,
            attributes: Attributes::new(),
        }
    }

    /// The finished tag token with the name and attributes read so far.
    pub fn into_token(self) -> (r: Token)
        ensures
            r@ == self@.token(),
    {
        Token::Tag {
            kind: self.kind,
            tag_name: self.tag_name,
            self_closing: self.self_closing,
            attributes: self.attributes,
        }
    }
}

impl Default for IncompleteComment {
    /// A comment with an empty text.
    fn default() -> (r: IncompleteComment)
        ensures
            r@ == Seq::<char>::empty(),
    {
        IncompleteComment { data: String::new() }
    }
}

impl IncompleteComment {
    /// The finished comment token with the text read so far.
    pub fn into_token(self) -> (r: Token)
        ensures
            r@ == (TokenView::Comment { data: self@ }),
    {
        Token::Comment { data: self.data }
    }
}

/// Whether `value` holds a text and that text is empty.
pub fn is_empty_some(value: &Option<String>) -> (r: bool)
    ensures
        r == (value is Some && value->0@.len() == 0),
{
    if let Some(it) = value {
        it.as_str().is_empty()
    } else {
        false
    }
}

} // verus!
