use vstd::prelude::*;
use crate::tokenizer::laws::{folded, lemma_data_ends, stands_at};
use crate::tokenizer::machine::{end_of_file_item, Machine, TagView};
use crate::tokenizer::progress::{pending_items, tokenize};
use crate::tokenizer::state::State;
use crate::tokenizer::step;
use crate::tokenizer::token::{Item, TagKind, TokenView};
use crate::tokenizer::util::{is_alpha, is_whitespace, to_lower, Codepoint};
use crate::tokenizer::{impl_data, impl_tag};

verus! {

/// Whether `c` is a character that a tag's name takes as it is or folded to lower case:
/// any character but white space, `/`, `>` and NUL.
pub open spec fn is_name_character(c: char) -> bool {
    !is_whitespace(c) && c != '/' && c != '>' && c != '\0'
}

/// The tag of the given kind named `name`, without attributes and not self-closing.
pub open spec fn tag_item(kind: TagKind, name: Seq<char>) -> Item {
    Ok(TokenView::Tag { kind, tag_name: name, self_closing: false, attributes: Seq::empty() })
}

/// The text of a start tag without attributes: `<`, the name, `>`.
pub open spec fn start_tag_text(name: Seq<char>) -> Seq<char> {
    seq!['<'] + name + seq!['>']
}

/// The text of an end tag: `</`, the name, `>`.
pub open spec fn end_tag_text(name: Seq<char>) -> Seq<char> {
    seq!['<', '/'] + name + seq!['>']
}

/// A tag's name is read up to `>`, and the tag is emitted. The name stands in the input
/// from place `offset` on and has been read as far as its place `k`. The result is the
/// machine after the tag has been handed out.
proof fn lemma_tag_name_reads(
    m: Machine,
    name: Seq<char>,
    k: int,
    kind: TagKind,
    offset: int,
) -> (after: Machine)
    requires
        m.state == State::TagName,
        m.output.len() == 0,
        offset >= 0,
        m.input.len() >= offset + name.len() + 1,
        forall|i: int| 0 <= i < name.len() ==> #[trigger] m.input[i + offset] == name[i],
        m.input[name.len() + offset] == '>',
        0 <= k <= name.len(),
        forall|i: int| 0 <= i < name.len() ==> is_name_character(#[trigger] name[i]),
        if m.reconsume {
            k < name.len() && m.cursor == k + offset + 1 && m.current == Codepoint::Scalar(name[k])
        } else {
            m.cursor == k + offset
        },
        m.tag == Some(
            TagView {
                kind,
                tag_name: folded(name.take(k)),
                self_closing: false,
                attributes: Seq::empty(),
            },
        ),
        m.doctype is None,
        m.comment is None,
        m.return_state is None,
    ensures
        stands_at(after, m.input, State::Data, (offset + name.len() + 1) as nat),
        after.tag is None,
        after.doctype is None,
        after.comment is None,
        after.return_state is None,
        pending_items(m) == seq![tag_item(kind, folded(name))] + pending_items(after),
    decreases name.len() - k,
{
    reveal(impl_tag::transition);
    let next = step(m);
    assert(pending_items(m) == pending_items(next));
    if k < name.len() {
        assert(m.input[k + offset] == name[k]);
        assert(is_name_character(name[k]));
        assert(folded(name.take(k)).push(to_lower(name[k])) =~= folded(name.take(k + 1)));
        lemma_tag_name_reads(next, name, k + 1, kind, offset)
    } else {
        assert(name.take(k) =~= name);
        assert(next.output == seq![tag_item(kind, folded(name))]);
        let after = next.pop_output();
        assert(after.output =~= Seq::<Item>::empty());
        assert(pending_items(next) == seq![tag_item(kind, folded(name))] + pending_items(after));
        after
    }
}

/// In the data state, `<` and a letter begin a start tag.
proof fn lemma_start_tag_opens(m: Machine, first: char) -> (after: Machine)
    requires
        m.state == State::Data,
        !m.reconsume,
        m.output.len() == 0,
        m.cursor + 2 <= m.input.len(),
        m.input[m.cursor as int] == '<',
        m.input[m.cursor as int + 1] == first,
        is_alpha(first),
        m.doctype is None,
        m.comment is None,
        m.return_state is None,
    ensures
        after.state == State::TagName,
        after.reconsume,
        after.current == Codepoint::Scalar(first),
        after.cursor == m.cursor + 2,
        after.input == m.input,
        after.output.len() == 0,
        after.tag == Some(TagView::fresh(TagKind::Start)),
        after.doctype is None,
        after.comment is None,
        after.return_state is None,
        pending_items(after) == pending_items(m),
{
    reveal(impl_tag::transition);
    reveal(impl_data::transition);
    let opened = step(m);
    let after = step(opened);
    assert(pending_items(m) == pending_items(opened));
    assert(pending_items(opened) == pending_items(after));
    after
}

/// In the data state, `</` and a letter begin an end tag.
proof fn lemma_end_tag_opens(m: Machine, first: char) -> (after: Machine)
    requires
        m.state == State::Data,
        !m.reconsume,
        m.output.len() == 0,
        m.cursor + 3 <= m.input.len(),
        m.input[m.cursor as int] == '<',
        m.input[m.cursor as int + 1] == '/',
        m.input[m.cursor as int + 2] == first,
        is_alpha(first),
        m.doctype is None,
        m.comment is None,
        m.return_state is None,
    ensures
        after.state == State::TagName,
        after.reconsume,
        after.current == Codepoint::Scalar(first),
        after.cursor == m.cursor + 3,
        after.input == m.input,
        after.output.len() == 0,
        after.tag == Some(TagView::fresh(TagKind::End)),
        after.doctype is None,
        after.comment is None,
        after.return_state is None,
        pending_items(after) == pending_items(m),
{
    reveal(impl_tag::transition);
    reveal(impl_data::transition);
    let opened = step(m);
    let closing = step(opened);
    let after = step(closing);
    assert(pending_items(m) == pending_items(opened));
    assert(pending_items(opened) == pending_items(closing));
    assert(pending_items(closing) == pending_items(after));
    after
}

/// A start tag without attributes gives one tag token, whose name is the name as written
/// with its ASCII upper-case letters folded to lower case, and then the end-of-file token.
/// No error is reported. The name has to begin with an ASCII letter.
pub proof fn lemma_start_tag_name_is_folded(name: Seq<char>)
    requires
        name.len() > 0,
        is_alpha(name[0]),
        forall|i: int| 0 <= i < name.len() ==> is_name_character(#[trigger] name[i]),
    ensures
        tokenize(start_tag_text(name)) == seq![
            tag_item(TagKind::Start, folded(name)),
            end_of_file_item(),
        ],
{
    let input = start_tag_text(name);
    let start = Machine::initial(input);
    assert(input[0] == '<');
    assert(input[1] == name[0]);
    let named = lemma_start_tag_opens(start, name[0]);
    assert(folded(name.take(0)) =~= Seq::<char>::empty());
    assert forall|i: int| 0 <= i < name.len() implies #[trigger] input[i + 1] == name[i] by {
    }
    let after = lemma_tag_name_reads(named, name, 0, TagKind::Start, 1);
    lemma_data_ends(after);
}

/// An end tag gives one tag token, whose name is the name as written with its ASCII
/// upper-case letters folded to lower case, and then the end-of-file token. No error is
/// reported. The name has to begin with an ASCII letter.
pub proof fn lemma_end_tag_name_is_folded(name: Seq<char>)
    requires
        name.len() > 0,
        is_alpha(name[0]),
        forall|i: int| 0 <= i < name.len() ==> is_name_character(#[trigger] name[i]),
    ensures
        tokenize(end_tag_text(name)) == seq![
            tag_item(TagKind::End, folded(name)),
            end_of_file_item(),
        ],
{
    let input = end_tag_text(name);
    let start = Machine::initial(input);
    assert(input[0] == '<');
    assert(input[1] == '/');
    assert(input[2] == name[0]);
    let named = lemma_end_tag_opens(start, name[0]);
    assert(folded(name.take(0)) =~= Seq::<char>::empty());
    assert forall|i: int| 0 <= i < name.len() implies #[trigger] input[i + 2] == name[i] by {
    }
    let after = lemma_tag_name_reads(named, name, 0, TagKind::End, 2);
    lemma_data_ends(after);
}

/// A start tag and an end tag, one after the other, give two tag tokens and then the
/// end-of-file token: an element without content. The names are folded as in a single tag.
/// No error is reported.
pub proof fn lemma_empty_element(opening: Seq<char>, closing: Seq<char>)
    requires
        opening.len() > 0,
        is_alpha(opening[0]),
        forall|i: int| 0 <= i < opening.len() ==> is_name_character(#[trigger] opening[i]),
        closing.len() > 0,
        is_alpha(closing[0]),
        forall|i: int| 0 <= i < closing.len() ==> is_name_character(#[trigger] closing[i]),
    ensures
        tokenize(start_tag_text(opening) + end_tag_text(closing)) == seq![
            tag_item(TagKind::Start, folded(opening)),
            tag_item(TagKind::End, folded(closing)),
            end_of_file_item(),
        ],
{
    let input = start_tag_text(opening) + end_tag_text(closing);
    let start = Machine::initial(input);
    let between: int = opening.len() as int + 2;
    assert(input[0] == '<');
    assert(input[1] == opening[0]);
    assert(input[between - 1] == '>');
    assert(input[between] == '<');
    assert(input[between + 1] == '/');
    assert(input[between + 2] == closing[0]);
    assert(input[between + 2 + closing.len()] == '>');
    assert forall|i: int| 0 <= i < opening.len() implies #[trigger] input[i + 1]
        == opening[i] by {
    }
    assert forall|i: int| 0 <= i < closing.len() implies #[trigger] input[i + (between + 2)]
        == closing[i] by {
    }
    let named = lemma_start_tag_opens(start, opening[0]);
    assert(folded(opening.take(0)) =~= Seq::<char>::empty());
    let opened = lemma_tag_name_reads(named, opening, 0, TagKind::Start, 1);
    let renamed = lemma_end_tag_opens(opened, closing[0]);
    assert(folded(closing.take(0)) =~= Seq::<char>::empty());
    let closed = lemma_tag_name_reads(renamed, closing, 0, TagKind::End, between + 2);
    lemma_data_ends(closed);
}

} // verus!
