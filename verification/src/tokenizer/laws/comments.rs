use vstd::prelude::*;
use crate::tokenizer::error::ParseError;
use crate::tokenizer::impl_comment;
use crate::tokenizer::impl_data;
use crate::tokenizer::laws::{error_item, lemma_markup_declaration_opens, stands_at};
use crate::tokenizer::machine::{end_of_file_item, Machine};
use crate::tokenizer::progress::{pending_items, tokenize};
use crate::tokenizer::state::State;
use crate::tokenizer::step;
use crate::tokenizer::token::{Item, TokenView};
use crate::tokenizer::util::Codepoint;

verus! {

/// Whether `c` is a character that a comment takes as it is, wherever it stands: any
/// character but `-`, `<`, `>` and NUL.
pub open spec fn is_comment_character(c: char) -> bool {
    c != '-' && c != '<' && c != '>' && c != '\0'
}

/// The comment token that holds `data`.
pub open spec fn comment_item(data: Seq<char>) -> Item {
    Ok(TokenView::Comment { data })
}

/// The text of a comment: `<!--`, what the comment says, `-->`.
pub open spec fn comment_text(data: Seq<char>) -> Seq<char> {
    seq!['<', '!', '-', '-'] + data + seq!['-', '-', '>']
}

/// Inside a comment, characters that are neither `-`, `<`, `>` nor NUL go to the comment's
/// text one by one. The result is the machine after all of `data`, which stands in the
/// input from place `offset` on, has been read from its place `k` on.
proof fn lemma_comment_reads(m: Machine, data: Seq<char>, k: int, offset: int) -> (after: Machine)
    requires
        m.state == State::Comment,
        m.output.len() == 0,
        m.comment is Some,
        offset >= 0,
        m.input.len() >= offset + data.len(),
        forall|i: int| 0 <= i < data.len() ==> #[trigger] m.input[i + offset] == data[i],
        0 <= k <= data.len(),
        forall|i: int| 0 <= i < data.len() ==> is_comment_character(#[trigger] data[i]),
        if m.reconsume {
            k < data.len() && m.cursor == k + offset + 1 && m.current == Codepoint::Scalar(data[k])
        } else {
            m.cursor == k + offset
        },
    ensures
        stands_at(after, m.input, State::Comment, (offset + data.len()) as nat),
        after.comment == Some(m.comment->0 + data.subrange(k, data.len() as int)),
        pending_items(after) == pending_items(m),
    decreases data.len() - k,
{
    if k < data.len() {
        reveal(impl_comment::transition);
        let next = step(m);
        assert(pending_items(m) == pending_items(next));
        assert(m.input[k + offset] == data[k]);
        assert(is_comment_character(data[k]));
        let after = lemma_comment_reads(next, data, k + 1, offset);
        assert(m.comment->0.push(data[k]) + data.subrange(k + 1, data.len() as int)
            =~= m.comment->0 + data.subrange(k, data.len() as int));
        after
    } else {
        assert(m.comment->0 + data.subrange(k, data.len() as int) =~= m.comment->0);
        m
    }
}

/// After `<!--` the tokenizer stands at the start of an empty comment.
proof fn lemma_comment_opens(m: Machine, input: Seq<char>) -> (begun: Machine)
    requires
        stands_at(m, input, State::MarkupDeclarationOpen, 2),
        input.len() >= 4,
        input[2] == '-',
        input[3] == '-',
    ensures
        stands_at(begun, input, State::CommentStart, 4),
        begun.comment == Some(Seq::<char>::empty()),
        pending_items(begun) == pending_items(m),
{
    reveal(impl_comment::transition);
    reveal_with_fuel(Machine::consume_many, 3);
    reveal_strlit("--");
    assert(m.peek(0) == Codepoint::Scalar('-'));
    assert(m.peek(1) == Codepoint::Scalar('-'));
    assert(m.literal_ahead("--"@, true));
    let begun = step(m);
    assert(pending_items(m) == pending_items(begun));
    begun
}

/// The end of a comment: after `-->` the comment is emitted, and with nothing more to read
/// the end-of-file token follows.
proof fn lemma_comment_closes(m: Machine, data: Seq<char>)
    requires
        m.state == State::Comment || m.state == State::CommentStart,
        !m.reconsume,
        m.output.len() == 0,
        m.comment == Some(data),
        m.cursor + 3 == m.input.len(),
        m.input[m.cursor as int] == '-',
        m.input[m.cursor as int + 1] == '-',
        m.input[m.cursor as int + 2] == '>',
    ensures
        pending_items(m) == seq![comment_item(data), end_of_file_item()],
{
    reveal(impl_comment::transition);
    reveal(impl_data::transition);
    let after = step(m);
    let dashed = step(after);
    let closed = step(dashed);
    assert(pending_items(m) == pending_items(after));
    assert(pending_items(after) == pending_items(dashed));
    assert(pending_items(dashed) == pending_items(closed));
    assert(closed.output == seq![comment_item(data)]);
    let rest = closed.pop_output();
    assert(rest.output =~= Seq::<Item>::empty());
    assert(step(rest).output == seq![end_of_file_item()]);
    assert(pending_items(rest) == pending_items(step(rest)));
    assert(pending_items(closed) == seq![comment_item(data)] + pending_items(rest));
}

/// A comment gives one comment token that holds what the comment says, and then the
/// end-of-file token. No error is reported.
pub proof fn lemma_comment_keeps_its_text(data: Seq<char>)
    requires
        forall|i: int| 0 <= i < data.len() ==> is_comment_character(#[trigger] data[i]),
    ensures
        tokenize(comment_text(data)) == seq![comment_item(data), end_of_file_item()],
{
    let input = comment_text(data);
    let declared = lemma_markup_declaration_opens(input);
    let begun = lemma_comment_opens(declared, input);
    if data.len() > 0 {
        assert(input[4] == data[0]);
        assert(is_comment_character(data[0]));
        let first = lemma_comment_starts(begun, data[0]);
        assert forall|i: int| 0 <= i < data.len() implies #[trigger] input[i + 4] == data[i] by {
        }
        let read = lemma_comment_reads(first, data, 0, 4);
        assert(Seq::<char>::empty() + data.subrange(0, data.len() as int) =~= data);
        assert(input[data.len() as int + 4] == '-');
        assert(input[data.len() as int + 5] == '-');
        assert(input[data.len() as int + 6] == '>');
        lemma_comment_closes(read, data);
    } else {
        assert(data =~= Seq::<char>::empty());
        lemma_comment_closes(begun, data);
    }
}

/// At the start of a comment, a character that is neither `-` nor `>` is read again as
/// part of the comment.
proof fn lemma_comment_starts(m: Machine, first: char) -> (after: Machine)
    requires
        m.state == State::CommentStart,
        !m.reconsume,
        m.output.len() == 0,
        m.cursor < m.input.len(),
        m.input[m.cursor as int] == first,
        first != '-',
        first != '>',
    ensures
        after.state == State::Comment,
        after.reconsume,
        after.current == Codepoint::Scalar(first),
        after.cursor == m.cursor + 1,
        after.input == m.input,
        after.output.len() == 0,
        after.comment == m.comment,
        pending_items(after) == pending_items(m),
{
    reveal(impl_comment::transition);
    let after = step(m);
    assert(pending_items(m) == pending_items(after));
    after
}

/// The four characters `<!--` inside a comment go to the comment's text only in part: the
/// machine keeps `<!` and waits to see what follows the two dashes. The `<` stands at
/// `place`.
proof fn lemma_comment_meets_opener(m: Machine, place: int) -> (after: Machine)
    requires
        m.state == State::Comment,
        m.output.len() == 0,
        m.comment is Some,
        0 <= place,
        place + 4 <= m.input.len(),
        m.input[place] == '<',
        m.input[place + 1] == '!',
        m.input[place + 2] == '-',
        m.input[place + 3] == '-',
        if m.reconsume {
            m.cursor == place + 1 && m.current == Codepoint::Scalar('<')
        } else {
            m.cursor == place
        },
    ensures
        stands_at(after, m.input, State::CommentLessThanSignBangDashDash, (place + 4) as nat),
        after.comment == Some(m.comment->0.push('<').push('!')),
        pending_items(after) == pending_items(m),
{
    reveal(impl_comment::transition);
    let first = step(m);
    let second = step(first);
    let third = step(second);
    let fourth = step(third);
    assert(pending_items(m) == pending_items(first));
    assert(pending_items(first) == pending_items(second));
    assert(pending_items(second) == pending_items(third));
    assert(pending_items(third) == pending_items(fourth));
    fourth
}

/// After `<!--` inside a comment, a character that does not end the comment shows that a
/// comment was opened inside a comment: the error is reported at once, before the comment
/// goes on with the two dashes in its text.
proof fn lemma_comment_reports_nesting(m: Machine, next: char) -> (after: Machine)
    requires
        m.state == State::CommentLessThanSignBangDashDash,
        !m.reconsume,
        m.output.len() == 0,
        m.comment is Some,
        m.cursor < m.input.len(),
        m.input[m.cursor as int] == next,
        is_comment_character(next),
        next != '!',
    ensures
        after.state == State::Comment,
        after.reconsume,
        after.current == Codepoint::Scalar(next),
        after.cursor == m.cursor + 1,
        after.input == m.input,
        after.output.len() == 0,
        after.comment == Some(m.comment->0.push('-').push('-')),
        pending_items(m) == seq![error_item(ParseError::NestedComment)] + pending_items(after),
{
    reveal(impl_comment::transition);
    let reported = step(m);
    assert(pending_items(m) == pending_items(reported));
    assert(reported.output == seq![error_item(ParseError::NestedComment)]);
    let resumed = reported.pop_output();
    assert(resumed.output =~= Seq::<Item>::empty());
    assert(pending_items(reported) == seq![error_item(ParseError::NestedComment)] + pending_items(
        resumed,
    ));
    let after = step(resumed);
    assert(pending_items(resumed) == pending_items(after));
    after
}

/// The text of a comment inside which a comment is opened: `<!--`, some text, `<!--`, more
/// text, `-->`.
pub open spec fn nested_comment_text(before: Seq<char>, inside: Seq<char>) -> Seq<char> {
    seq!['<', '!', '-', '-'] + before + seq!['<', '!', '-', '-'] + inside + seq!['-', '-', '>']
}

/// What a comment holds inside which a comment is opened: everything between the outer
/// `<!--` and `-->`, the inner `<!--` included.
pub open spec fn nested_comment_data(before: Seq<char>, inside: Seq<char>) -> Seq<char> {
    before + seq!['<', '!', '-', '-'] + inside
}

/// A comment inside which a comment is opened gives the error first, then one comment
/// token that holds everything up to the closing `-->`, and then the end-of-file token:
/// the error comes before the token that it belongs to.
pub proof fn lemma_nested_comment_is_reported_first(before: Seq<char>, inside: Seq<char>)
    requires
        forall|i: int| 0 <= i < before.len() ==> is_comment_character(#[trigger] before[i]),
        forall|i: int| 0 <= i < inside.len() ==> is_comment_character(#[trigger] inside[i]),
        inside.len() > 0,
        inside[0] != '!',
    ensures
        tokenize(nested_comment_text(before, inside)) == seq![
            error_item(ParseError::NestedComment),
            comment_item(nested_comment_data(before, inside)),
            end_of_file_item(),
        ],
{
    let input = nested_comment_text(before, inside);
    let declared = lemma_markup_declaration_opens(input);
    let begun = lemma_comment_opens(declared, input);
    let met = input.len() - inside.len() - 7;
    assert(met == before.len() + 4);
    assert(input[met] == '<');
    assert(input[met + 1] == '!');
    assert(input[met + 2] == '-');
    assert(input[met + 3] == '-');
    assert(input[met + 4] == inside[0]);
    let read = if before.len() > 0 {
        assert(input[4] == before[0]);
        assert(is_comment_character(before[0]));
        let first = lemma_comment_starts(begun, before[0]);
        assert forall|i: int| 0 <= i < before.len() implies #[trigger] input[i + 4]
            == before[i] by {
        }
        let read = lemma_comment_reads(first, before, 0, 4);
        assert(Seq::<char>::empty() + before.subrange(0, before.len() as int) =~= before);
        read
    } else {
        assert(before =~= Seq::<char>::empty());
        lemma_comment_starts(begun, '<')
    };
    let waiting = lemma_comment_meets_opener(read, met);
    assert(is_comment_character(inside[0]));
    let resumed = lemma_comment_reports_nesting(waiting, inside[0]);
    assert forall|i: int| 0 <= i < inside.len() implies #[trigger] input[i + (met + 4)]
        == inside[i] by {
    }
    let finished = lemma_comment_reads(resumed, inside, 0, met + 4);
    let data = nested_comment_data(before, inside);
    assert(before.push('<').push('!').push('-').push('-') + inside.subrange(
        0,
        inside.len() as int,
    ) =~= data);
    assert(input[met + 4 + inside.len()] == '-');
    assert(input[met + 5 + inside.len()] == '-');
    assert(input[met + 6 + inside.len()] == '>');
    lemma_comment_closes(finished, data);
}

} // verus!
