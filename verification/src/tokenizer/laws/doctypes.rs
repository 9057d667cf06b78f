use vstd::prelude::*;
use crate::tokenizer::impl_comment;
use crate::tokenizer::impl_doctype;
use crate::tokenizer::laws::{
    folded,
    lemma_data_ends,
    lemma_markup_declaration_opens,
    stands_at,
    token_item,
};
use crate::tokenizer::machine::{end_of_file_item, DoctypeView, Machine};
use crate::tokenizer::progress::{pending_items, tokenize};
use crate::tokenizer::state::State;
use crate::tokenizer::step;
use crate::tokenizer::token::{Item, TokenView};
use crate::tokenizer::util::{is_whitespace, to_lower, Codepoint};

verus! {

/// Whether `keyword` is the word `DOCTYPE` in some mixture of upper and lower case.
pub open spec fn is_doctype_keyword(keyword: Seq<char>) -> bool {
    keyword.len() == 7 && to_lower(keyword[0]) == 'd' && to_lower(keyword[1]) == 'o' && to_lower(
        keyword[2],
    ) == 'c' && to_lower(keyword[3]) == 't' && to_lower(keyword[4]) == 'y' && to_lower(keyword[5])
        == 'p' && to_lower(keyword[6]) == 'e'
}

/// Whether `c` is a character that a doctype's name takes as it is or folded to lower case:
/// any character but white space, `>` and NUL.
pub open spec fn is_doctype_name_character(c: char) -> bool {
    !is_whitespace(c) && c != '>' && c != '\0'
}

/// The text of a doctype that has only a name: `<!`, the keyword, a space, the name, `>`.
pub open spec fn doctype_text(keyword: Seq<char>, name: Seq<char>) -> Seq<char> {
    seq!['<', '!'] + keyword + seq![' '] + name + seq!['>']
}

/// The doctype token that has the name `name`, no identifiers, and the force-quirks flag
/// off.
pub open spec fn doctype_item(name: Seq<char>) -> Item {
    Ok(
        TokenView::Doctype {
            name: Some(name),
            public_identifier: None,
            system_identifier: None,
            force_quirks: false,
        },
    )
}

/// After `<!` and the keyword the tokenizer stands in the doctype state.
proof fn lemma_doctype_opens(m: Machine, input: Seq<char>, keyword: Seq<char>) -> (begun: Machine)
    requires
        stands_at(m, input, State::MarkupDeclarationOpen, 2),
        is_doctype_keyword(keyword),
        input.len() >= 9,
        forall|i: int| 0 <= i < 7 ==> #[trigger] input[i + 2] == keyword[i],
        m.doctype is None,
    ensures
        stands_at(begun, input, State::DOCTYPE, 9),
        begun.doctype is None,
        pending_items(begun) == pending_items(m),
{
    reveal(impl_comment::transition);
    reveal_with_fuel(Machine::consume_many, 8);
    reveal_strlit("--");
    reveal_strlit("DOCTYPE");
    assert(input[0int + 2] == keyword[0]);
    assert(input[1int + 2] == keyword[1]);
    assert(input[2int + 2] == keyword[2]);
    assert(input[3int + 2] == keyword[3]);
    assert(input[4int + 2] == keyword[4]);
    assert(input[5int + 2] == keyword[5]);
    assert(input[6int + 2] == keyword[6]);
    assert(!m.peek(0).matches_char("--"@[0], true));
    assert(!m.literal_ahead("--"@, true));
    assert forall|i: nat| i < "DOCTYPE"@.len() implies (#[trigger] m.peek(i)).matches_char(
        "DOCTYPE"@[i as int],
        false,
    ) by {
        assert(m.peek(i) == Codepoint::Scalar(keyword[i as int]));
    }
    assert(m.literal_ahead("DOCTYPE"@, false));
    let begun = step(m);
    assert(pending_items(m) == pending_items(begun));
    begun
}

/// After the name, `>` ends the doctype, which is emitted. With nothing more to read the
/// end-of-file token follows.
proof fn lemma_doctype_closes(m: Machine)
    requires
        m.state == State::DOCTYPEName,
        !m.reconsume,
        m.output.len() == 0,
        m.doctype is Some,
        m.cursor + 1 == m.input.len(),
        m.input[m.cursor as int] == '>',
    ensures
        pending_items(m) == seq![token_item(m.doctype->0.token()), end_of_file_item()],
{
    reveal(impl_doctype::transition);
    let emitted = step(m);
    assert(pending_items(m) == pending_items(emitted));
    assert(emitted.output == seq![token_item(m.doctype->0.token())]);
    let rest = emitted.pop_output();
    assert(rest.output =~= Seq::<Item>::empty());
    lemma_data_ends(rest);
    assert(pending_items(emitted) == seq![token_item(m.doctype->0.token())] + pending_items(rest));
}

/// After the keyword and a space, the first character of the name begins the doctype.
proof fn lemma_doctype_name_begins(m: Machine, input: Seq<char>, first: char) -> (named: Machine)
    requires
        stands_at(m, input, State::DOCTYPE, 9),
        m.doctype is None,
        input.len() >= 11,
        input[9] == ' ',
        input[10] == first,
        is_doctype_name_character(first),
    ensures
        stands_at(named, input, State::DOCTYPEName, 11),
        named.doctype == Some(doctype_view(seq![to_lower(first)], None, None)),
        pending_items(named) == pending_items(m),
{
    let spaced = lemma_doctype_skips_space(m, input);
    reveal(impl_doctype::transition);
    let named = step(spaced);
    assert(pending_items(spaced) == pending_items(named));
    named
}

proof fn lemma_doctype_skips_space(m: Machine, input: Seq<char>) -> (spaced: Machine)
    requires
        stands_at(m, input, State::DOCTYPE, 9),
        m.doctype is None,
        input.len() >= 10,
        input[9] == ' ',
    ensures
        stands_at(spaced, input, State::BeforeDOCTYPEName, 10),
        spaced.doctype is None,
        pending_items(spaced) == pending_items(m),
{
    reveal(impl_doctype::transition);
    let spaced = step(m);
    assert(pending_items(m) == pending_items(spaced));
    spaced
}

/// A doctype that has only a name gives one doctype token with that name, folded to lower
/// case, without identifiers and with the force-quirks flag off, and then the end-of-file
/// token. The keyword may be written in any mixture of upper and lower case. No error is
/// reported.
pub proof fn lemma_doctype_keeps_its_name(keyword: Seq<char>, name: Seq<char>)
    requires
        is_doctype_keyword(keyword),
        name.len() > 0,
        forall|i: int| 0 <= i < name.len() ==> is_doctype_name_character(#[trigger] name[i]),
    ensures
        tokenize(doctype_text(keyword, name)) == seq![
            doctype_item(folded(name)),
            end_of_file_item(),
        ],
{
    let input = doctype_text(keyword, name);
    let declared = lemma_markup_declaration_opens(input);
    assert forall|i: int| 0 <= i < 7 implies #[trigger] input[i + 2] == keyword[i] by {
    }
    let begun = lemma_doctype_opens(declared, input, keyword);
    assert(input[9] == ' ');
    assert(input[10] == name[0]);
    let named = lemma_doctype_name_begins(begun, input, name[0]);
    assert(seq![to_lower(name[0])] =~= folded(name.take(1)));
    assert forall|i: int| 0 <= i < name.len() implies #[trigger] input[i + 10] == name[i] by {
    }
    let read = lemma_doctype_name_reads(named, name, 1, 10);
    assert(input[name.len() as int + 10] == '>');
    lemma_doctype_closes(read);
}

/// Whether `keyword` is the word `PUBLIC` in some mixture of upper and lower case.
pub open spec fn is_public_keyword(keyword: Seq<char>) -> bool {
    keyword.len() == 6 && to_lower(keyword[0]) == 'p' && to_lower(keyword[1]) == 'u' && to_lower(
        keyword[2],
    ) == 'b' && to_lower(keyword[3]) == 'l' && to_lower(keyword[4]) == 'i' && to_lower(keyword[5])
        == 'c'
}

/// Whether `c` is a quotation mark, double or single.
pub open spec fn is_quote(c: char) -> bool {
    c == '"' || c == '\''
}

/// Whether `text` can stand between two marks `quote` as an identifier of a doctype: it
/// holds neither that mark nor `>` nor NUL.
pub open spec fn is_identifier(text: Seq<char>, quote: char) -> bool {
    forall|i: int|
        0 <= i < text.len() ==> (#[trigger] text[i]) != quote && text[i] != '>' && text[i] != '\0'
}

/// The state in which a public identifier is read up to the closing `quote`.
pub open spec fn public_identifier_state(quote: char) -> State {
    if quote == '"' {
        State::DOCTYPEPublicIdentifierDoubleQuoted
    } else {
        State::DOCTYPEPublicIdentifierSingleQuoted
    }
}

/// The state in which a system identifier is read up to the closing `quote`.
pub open spec fn system_identifier_state(quote: char) -> State {
    if quote == '"' {
        State::DOCTYPESystemIdentifierDoubleQuoted
    } else {
        State::DOCTYPESystemIdentifierSingleQuoted
    }
}

/// A doctype with these parts and the force-quirks flag off.
pub open spec fn doctype_view(
    name: Seq<char>,
    public_identifier: Option<Seq<char>>,
    system_identifier: Option<Seq<char>>,
) -> DoctypeView {
    DoctypeView { name: Some(name), public_identifier, system_identifier, force_quirks: false }
}

/// The text of a doctype with a public and a system identifier: `<!`, the keyword, the
/// name, the word `PUBLIC`, and the two identifiers in quotation marks, with single spaces
/// between the parts.
pub open spec fn full_doctype_text(
    keyword: Seq<char>,
    name: Seq<char>,
    public_keyword: Seq<char>,
    public_quote: char,
    public_identifier: Seq<char>,
    system_quote: char,
    system_identifier: Seq<char>,
) -> Seq<char> {
    seq!['<', '!'] + keyword + seq![' '] + name + seq![' '] + public_keyword + seq![
        ' ',
        public_quote,
    ] + public_identifier + seq![public_quote, ' ', system_quote] + system_identifier + seq![
        system_quote,
        '>',
    ]
}

/// The characters of a doctype's name go to the name one by one, folded to lower case.
proof fn lemma_doctype_name_reads(m: Machine, name: Seq<char>, k: int, offset: int) -> (after:
    Machine)
    requires
        m.state == State::DOCTYPEName,
        !m.reconsume,
        m.output.len() == 0,
        offset >= 0,
        m.input.len() >= offset + name.len(),
        forall|i: int| 0 <= i < name.len() ==> #[trigger] m.input[i + offset] == name[i],
        1 <= k <= name.len(),
        forall|i: int| 0 <= i < name.len() ==> is_doctype_name_character(#[trigger] name[i]),
        m.cursor == k + offset,
        m.doctype == Some(doctype_view(folded(name.take(k)), None, None)),
    ensures
        stands_at(after, m.input, State::DOCTYPEName, (offset + name.len()) as nat),
        after.doctype == Some(doctype_view(folded(name), None, None)),
        pending_items(after) == pending_items(m),
    decreases name.len() - k,
{
    if k < name.len() {
        reveal(impl_doctype::transition);
        let next = step(m);
        assert(pending_items(m) == pending_items(next));
        assert(m.input[k + offset] == name[k]);
        assert(is_doctype_name_character(name[k]));
        assert(folded(name.take(k)).push(to_lower(name[k])) =~= folded(name.take(k + 1)));
        lemma_doctype_name_reads(next, name, k + 1, offset)
    } else {
        assert(name.take(k) =~= name);
        m
    }
}

/// After the name and a space, the word `PUBLIC` announces the public identifier.
proof fn lemma_public_keyword_reads(m: Machine, keyword: Seq<char>) -> (after: Machine)
    requires
        m.state == State::DOCTYPEName,
        !m.reconsume,
        m.output.len() == 0,
        m.doctype is Some,
        is_public_keyword(keyword),
        m.cursor + 7 <= m.input.len(),
        m.input[m.cursor as int] == ' ',
        forall|i: int| 0 <= i < 6 ==> #[trigger] m.input[m.cursor as int + 1 + i] == keyword[i],
    ensures
        stands_at(after, m.input, State::AfterDOCTYPEPublicKeyword, m.cursor + 7),
        after.doctype == m.doctype,
        pending_items(after) == pending_items(m),
{
    reveal(impl_doctype::transition);
    reveal_with_fuel(Machine::consume_many, 7);
    reveal_strlit("PUBLIC");
    let spaced = step(m);
    assert(pending_items(m) == pending_items(spaced));
    assert(m.input[m.cursor as int + 1 + 0] == keyword[0]);
    assert(m.input[m.cursor as int + 1 + 1] == keyword[1]);
    assert(m.input[m.cursor as int + 1 + 2] == keyword[2]);
    assert(m.input[m.cursor as int + 1 + 3] == keyword[3]);
    assert(m.input[m.cursor as int + 1 + 4] == keyword[4]);
    assert(m.input[m.cursor as int + 1 + 5] == keyword[5]);
    assert forall|i: nat| i < "PUBLIC"@.len() implies (#[trigger] spaced.peek(i)).matches_char(
        "PUBLIC"@[i as int],
        false,
    ) by {
        assert(spaced.peek(i) == Codepoint::Scalar(keyword[i as int]));
    }
    assert(spaced.literal_ahead("PUBLIC"@, false));
    let after = step(spaced);
    assert(pending_items(spaced) == pending_items(after));
    after
}

/// After the word `PUBLIC`, a space and a quotation mark open the public identifier.
proof fn lemma_public_identifier_opens(m: Machine, quote: char) -> (after: Machine)
    requires
        m.state == State::AfterDOCTYPEPublicKeyword,
        !m.reconsume,
        m.output.len() == 0,
        m.doctype is Some,
        is_quote(quote),
        m.cursor + 2 <= m.input.len(),
        m.input[m.cursor as int] == ' ',
        m.input[m.cursor as int + 1] == quote,
    ensures
        stands_at(after, m.input, public_identifier_state(quote), m.cursor + 2),
        after.doctype == Some(
            DoctypeView { public_identifier: Some(Seq::<char>::empty()), ..m.doctype->0 },
        ),
        pending_items(after) == pending_items(m),
{
    reveal(impl_doctype::transition);
    let spaced = step(m);
    assert(pending_items(m) == pending_items(spaced));
    let after = step(spaced);
    assert(pending_items(spaced) == pending_items(after));
    after
}

/// The characters of a public identifier go to the identifier one by one.
proof fn lemma_public_identifier_reads(
    m: Machine,
    text: Seq<char>,
    k: int,
    offset: int,
    quote: char,
) -> (after: Machine)
    requires
        m.state == public_identifier_state(quote),
        !m.reconsume,
        m.output.len() == 0,
        offset >= 0,
        m.input.len() >= offset + text.len(),
        forall|i: int| 0 <= i < text.len() ==> #[trigger] m.input[i + offset] == text[i],
        0 <= k <= text.len(),
        is_quote(quote),
        is_identifier(text, quote),
        m.cursor == k + offset,
        m.doctype is Some,
        m.doctype->0.public_identifier == Some(text.take(k)),
    ensures
        stands_at(after, m.input, public_identifier_state(quote), (offset + text.len()) as nat),
        after.doctype == Some(DoctypeView { public_identifier: Some(text), ..m.doctype->0 }),
        pending_items(after) == pending_items(m),
    decreases text.len() - k,
{
    if k < text.len() {
        reveal(impl_doctype::transition);
        let next = step(m);
        assert(pending_items(m) == pending_items(next));
        assert(m.input[k + offset] == text[k]);
        assert(text[k] != quote && text[k] != '>' && text[k] != '\0');
        assert(text.take(k).push(text[k]) =~= text.take(k + 1));
        lemma_public_identifier_reads(next, text, k + 1, offset, quote)
    } else {
        assert(text.take(k) =~= text);
        m
    }
}

/// After the public identifier, its closing mark, a space and a quotation mark open the
/// system identifier.
proof fn lemma_system_identifier_opens(m: Machine, closing: char, quote: char) -> (after: Machine)
    requires
        m.state == public_identifier_state(closing),
        !m.reconsume,
        m.output.len() == 0,
        m.doctype is Some,
        is_quote(closing),
        is_quote(quote),
        m.cursor + 3 <= m.input.len(),
        m.input[m.cursor as int] == closing,
        m.input[m.cursor as int + 1] == ' ',
        m.input[m.cursor as int + 2] == quote,
    ensures
        stands_at(after, m.input, system_identifier_state(quote), m.cursor + 3),
        after.doctype == Some(
            DoctypeView { system_identifier: Some(Seq::<char>::empty()), ..m.doctype->0 },
        ),
        pending_items(after) == pending_items(m),
{
    reveal(impl_doctype::transition);
    let closed = step(m);
    assert(pending_items(m) == pending_items(closed));
    let spaced = step(closed);
    assert(pending_items(closed) == pending_items(spaced));
    let after = step(spaced);
    assert(pending_items(spaced) == pending_items(after));
    after
}

/// The characters of a system identifier go to the identifier one by one.
proof fn lemma_system_identifier_reads(
    m: Machine,
    text: Seq<char>,
    k: int,
    offset: int,
    quote: char,
) -> (after: Machine)
    requires
        m.state == system_identifier_state(quote),
        !m.reconsume,
        m.output.len() == 0,
        offset >= 0,
        m.input.len() >= offset + text.len(),
        forall|i: int| 0 <= i < text.len() ==> #[trigger] m.input[i + offset] == text[i],
        0 <= k <= text.len(),
        is_quote(quote),
        is_identifier(text, quote),
        m.cursor == k + offset,
        m.doctype is Some,
        m.doctype->0.system_identifier == Some(text.take(k)),
    ensures
        stands_at(after, m.input, system_identifier_state(quote), (offset + text.len()) as nat),
        after.doctype == Some(DoctypeView { system_identifier: Some(text), ..m.doctype->0 }),
        pending_items(after) == pending_items(m),
    decreases text.len() - k,
{
    if k < text.len() {
        reveal(impl_doctype::transition);
        let next = step(m);
        assert(pending_items(m) == pending_items(next));
        assert(m.input[k + offset] == text[k]);
        assert(text[k] != quote && text[k] != '>' && text[k] != '\0');
        assert(text.take(k).push(text[k]) =~= text.take(k + 1));
        lemma_system_identifier_reads(next, text, k + 1, offset, quote)
    } else {
        assert(text.take(k) =~= text);
        m
    }
}

/// After the system identifier, its closing mark and `>` end the doctype, which is emitted.
/// With nothing more to read the end-of-file token follows.
proof fn lemma_full_doctype_closes(m: Machine, quote: char)
    requires
        m.state == system_identifier_state(quote),
        !m.reconsume,
        m.output.len() == 0,
        m.doctype is Some,
        is_quote(quote),
        m.cursor + 2 == m.input.len(),
        m.input[m.cursor as int] == quote,
        m.input[m.cursor as int + 1] == '>',
    ensures
        pending_items(m) == seq![token_item(m.doctype->0.token()), end_of_file_item()],
{
    reveal(impl_doctype::transition);
    let closed = step(m);
    assert(pending_items(m) == pending_items(closed));
    let emitted = step(closed);
    assert(pending_items(closed) == pending_items(emitted));
    assert(emitted.output == seq![token_item(m.doctype->0.token())]);
    let rest = emitted.pop_output();
    assert(rest.output =~= Seq::<Item>::empty());
    lemma_data_ends(rest);
    assert(pending_items(emitted) == seq![token_item(m.doctype->0.token())] + pending_items(rest));
}

/// A doctype with a name, a public identifier and a system identifier gives one doctype
/// token with these three parts and the force-quirks flag off, and then the end-of-file
/// token. The name is folded to lower case; the identifiers are kept as they are. The two
/// keywords may be written in any mixture of upper and lower case, and each identifier may
/// stand in double or in single quotation marks. No error is reported.
pub proof fn lemma_full_doctype_keeps_its_parts(
    keyword: Seq<char>,
    name: Seq<char>,
    public_keyword: Seq<char>,
    public_quote: char,
    public_identifier: Seq<char>,
    system_quote: char,
    system_identifier: Seq<char>,
)
    requires
        is_doctype_keyword(keyword),
        name.len() > 0,
        forall|i: int| 0 <= i < name.len() ==> is_doctype_name_character(#[trigger] name[i]),
        is_public_keyword(public_keyword),
        is_quote(public_quote),
        is_identifier(public_identifier, public_quote),
        is_quote(system_quote),
        is_identifier(system_identifier, system_quote),
    ensures
        tokenize(
            full_doctype_text(
                keyword,
                name,
                public_keyword,
                public_quote,
                public_identifier,
                system_quote,
                system_identifier,
            ),
        ) == seq![
            token_item(
                doctype_view(
                    folded(name),
                    Some(public_identifier),
                    Some(system_identifier),
                ).token(),
            ),
            end_of_file_item(),
        ],
{
    let input = full_doctype_text(
        keyword,
        name,
        public_keyword,
        public_quote,
        public_identifier,
        system_quote,
        system_identifier,
    );
    let after_name: int = name.len() as int + 10;
    let public_start: int = after_name + 9;
    let after_public: int = public_start + public_identifier.len();
    let system_start: int = after_public + 3;
    let after_system: int = system_start + system_identifier.len();
    assert(input.len() == after_system + 2);
    assert forall|i: int| 0 <= i < 7 implies #[trigger] input[i + 2] == keyword[i] by {
    }
    assert(input[9] == ' ');
    assert forall|i: int| 0 <= i < name.len() implies #[trigger] input[i + 10] == name[i] by {
    }
    assert(input[after_name] == ' ');
    assert forall|i: int| 0 <= i < 6 implies #[trigger] input[after_name + 1 + i]
        == public_keyword[i] by {
    }
    assert(input[after_name + 7] == ' ');
    assert(input[after_name + 8] == public_quote);
    assert forall|i: int| 0 <= i < public_identifier.len() implies #[trigger] input[i
        + public_start] == public_identifier[i] by {
    }
    assert(input[after_public] == public_quote);
    assert(input[after_public + 1] == ' ');
    assert(input[after_public + 2] == system_quote);
    assert forall|i: int| 0 <= i < system_identifier.len() implies #[trigger] input[i
        + system_start] == system_identifier[i] by {
    }
    assert(input[after_system] == system_quote);
    assert(input[after_system + 1] == '>');
    let declared = lemma_markup_declaration_opens(input);
    let begun = lemma_doctype_opens(declared, input, keyword);
    let named = lemma_doctype_name_begins(begun, input, name[0]);
    assert(seq![to_lower(name[0])] =~= folded(name.take(1)));
    let read = lemma_doctype_name_reads(named, name, 1, 10);
    let announced = lemma_public_keyword_reads(read, public_keyword);
    let opened = lemma_public_identifier_opens(announced, public_quote);
    assert(public_identifier.take(0) =~= Seq::<char>::empty());
    let identified = lemma_public_identifier_reads(
        opened,
        public_identifier,
        0,
        public_start,
        public_quote,
    );
    let reopened = lemma_system_identifier_opens(identified, public_quote, system_quote);
    assert(system_identifier.take(0) =~= Seq::<char>::empty());
    let finished = lemma_system_identifier_reads(
        reopened,
        system_identifier,
        0,
        system_start,
        system_quote,
    );
    lemma_full_doctype_closes(finished, system_quote);
}

} // verus!
