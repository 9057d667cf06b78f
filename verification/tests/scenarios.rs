use html_tokenizer::tokenizer::error::ParseError;
use html_tokenizer::tokenizer::state::State;
use html_tokenizer::tokenizer::{Attribute, Attributes, TagKind, Token, Tokenizer, TokenizerImpl};

type Item = Result<Token, ParseError>;

fn run(input: &str) -> Vec<Item> {
    run_from(input, State::Data)
}

fn run_from(input: &str, state: State) -> Vec<Item> {
    let mut tokenizer = TokenizerImpl::new(input.into());
    tokenizer.switch_to(state);
    let mut items = Vec::new();
    while let Some(item) = tokenizer.next() {
        items.push(item);
        assert!(items.len() <= 4 * input.len() + 8);
    }
    items
}

fn chars(text: &str) -> Vec<Item> {
    text.chars().map(|c| Ok(Token::Character(c))).collect()
}

fn attributes(pairs: &[(&str, &str)]) -> Attributes {
    let mut attributes = Attributes::new();
    for (name, value) in pairs {
        attributes.push(Attribute::new(String::from(*name), String::from(*value)));
    }
    attributes
}

fn tag(kind: TagKind, name: &str, self_closing: bool, pairs: &[(&str, &str)]) -> Item {
    Ok(Token::Tag {
        kind,
        tag_name: String::from(name),
        self_closing,
        attributes: attributes(pairs),
    })
}

fn start_tag(name: &str, pairs: &[(&str, &str)]) -> Item {
    tag(TagKind::Start, name, false, pairs)
}

fn end_tag(name: &str) -> Item {
    tag(TagKind::End, name, false, &[])
}

fn doctype(name: Option<&str>, public: Option<&str>, system: Option<&str>, quirks: bool) -> Item {
    Ok(Token::Doctype {
        name: name.map(String::from),
        public_identifier: public.map(String::from),
        system_identifier: system.map(String::from),
        force_quirks: quirks,
    })
}

fn comment(data: &str) -> Item {
    Ok(Token::Comment { data: String::from(data) })
}

fn eof() -> Item {
    Ok(Token::EndOfFile)
}

fn concat(parts: Vec<Vec<Item>>) -> Vec<Item> {
    parts.into_iter().flatten().collect()
}

#[test]
fn empty_input_gives_only_end_of_file() {
    assert_eq!(run(""), vec![eof()]);
}

#[test]
fn html_start_and_end_tag() {
    assert_eq!(run("<html></html>"), vec![start_tag("html", &[]), end_tag("html"), eof()]);
}

#[test]
fn doctype_html() {
    assert_eq!(run("<!DOCTYPE html>"), vec![doctype(Some("html"), None, None, false), eof()]);
}

#[test]
fn doctype_with_public_and_system_identifier() {
    assert_eq!(
        run("<!DOCTYPE html PUBLIC \"A\" \"B\">"),
        vec![doctype(Some("html"), Some("A"), Some("B"), false), eof()]
    );
}

#[test]
fn doctype_keywords_in_any_case_and_single_quotes() {
    assert_eq!(
        run("<!doctype HTML public 'A' 'B'>"),
        vec![doctype(Some("html"), Some("A"), Some("B"), false), eof()]
    );
    assert_eq!(
        run("<!DocType x SyStEm 'B' >"),
        vec![doctype(Some("x"), None, Some("B"), false), eof()]
    );
}

#[test]
fn doctype_with_empty_identifiers() {
    assert_eq!(
        run("<!DOCTYPE html PUBLIC \"\" \"\">"),
        vec![doctype(Some("html"), Some(""), Some(""), false), eof()]
    );
}

#[test]
fn nested_comment_error_comes_before_the_comment() {
    assert_eq!(
        run("<!-- a <!-- nested --> "),
        vec![
            Err(ParseError::NestedComment),
            comment(" a <!-- nested "),
            Ok(Token::Character(' ')),
            eof(),
        ]
    );
    assert_eq!(
        run("<!-- a <!-- nested -->"),
        vec![Err(ParseError::NestedComment), comment(" a <!-- nested "), eof()]
    );
}

#[test]
fn tag_names_are_lowercased() {
    assert_eq!(run("<DIV>"), vec![start_tag("div", &[]), eof()]);
    assert_eq!(run("</DiV>"), vec![end_tag("div"), eof()]);
    assert_eq!(run("<a\u{C9}Z>"), vec![start_tag("a\u{C9}z", &[]), eof()]);
}

#[test]
fn nul_in_data_is_reported_and_kept() {
    assert_eq!(
        run("a\0b"),
        vec![
            Ok(Token::Character('a')),
            Err(ParseError::UnexpectedNullCharacter),
            Ok(Token::Character('\0')),
            Ok(Token::Character('b')),
            eof(),
        ]
    );
}

#[test]
fn nul_inside_a_construct_is_replaced() {
    assert_eq!(
        run("<!DOCTYPE a\0>"),
        vec![
            Err(ParseError::UnexpectedNullCharacter),
            doctype(Some("a\u{FFFD}"), None, None, false),
            eof(),
        ]
    );
    assert_eq!(
        run("<!DOCTYPE \0>"),
        vec![
            Err(ParseError::UnexpectedNullCharacter),
            doctype(Some("\u{FFFD}"), None, None, false),
            eof(),
        ]
    );
    assert_eq!(
        run("<a\0>"),
        vec![Err(ParseError::UnexpectedNullCharacter), start_tag("a\u{FFFD}", &[]), eof()]
    );
    assert_eq!(
        run("<!--\0-->"),
        vec![Err(ParseError::UnexpectedNullCharacter), comment("\u{FFFD}"), eof()]
    );
    assert_eq!(
        run("<a \0='\0' b=\0 c=\"\0\">"),
        vec![
            Err(ParseError::UnexpectedNullCharacter),
            Err(ParseError::UnexpectedNullCharacter),
            Err(ParseError::UnexpectedNullCharacter),
            Err(ParseError::UnexpectedNullCharacter),
            start_tag(
                "a",
                &[("\u{FFFD}", "\u{FFFD}"), ("b", "\u{FFFD}"), ("c", "\u{FFFD}")]
            ),
            eof(),
        ]
    );
    assert_eq!(
        run("<!DOCTYPE a PUBLIC '\0' \"\0\">"),
        vec![
            Err(ParseError::UnexpectedNullCharacter),
            Err(ParseError::UnexpectedNullCharacter),
            doctype(Some("a"), Some("\u{FFFD}"), Some("\u{FFFD}"), false),
            eof(),
        ]
    );
}

#[test]
fn text_is_emitted_character_by_character() {
    assert_eq!(run("a \u{1F600}b"), concat(vec![chars("a \u{1F600}b"), vec![eof()]]));
}

#[test]
fn attributes_in_all_forms() {
    assert_eq!(
        run("<a b c=d E='f g' h=\"i\" j = k />"),
        vec![
            tag(
                TagKind::Start,
                "a",
                true,
                &[("b", ""), ("c", "d"), ("e", "f g"), ("h", "i"), ("j", "k")]
            ),
            eof(),
        ]
    );
}

#[test]
fn duplicate_attribute_names_are_kept() {
    assert_eq!(
        run("<a b=1 b=2>"),
        vec![start_tag("a", &[("b", "1"), ("b", "2")]), eof()]
    );
}

#[test]
fn self_closing_tag() {
    assert_eq!(run("<br/>"), vec![tag(TagKind::Start, "br", true, &[]), eof()]);
    assert_eq!(run("<a b=c/>"), vec![start_tag("a", &[("b", "c/")]), eof()]);
}

#[test]
fn comment_forms() {
    assert_eq!(run("<!---->"), vec![comment(""), eof()]);
    assert_eq!(run("<!--a-b--c--->"), vec![comment("a-b--c-"), eof()]);
    assert_eq!(run("<!--<-->"), vec![comment("<"), eof()]);
    assert_eq!(run("<!--<<!-->"), vec![comment("<<!"), eof()]);
    assert_eq!(run("<!--a--!b-->"), vec![comment("a--!b"), eof()]);
    assert_eq!(run("<!--a--!-->"), vec![comment("a--!"), eof()]);
    assert_eq!(run("<!--a<!-b-->"), vec![comment("a<!-b"), eof()]);
}

#[test]
fn cdata_section() {
    assert_eq!(
        run("<![CDATA[a]b]]c]]]>d"),
        concat(vec![chars("a]b]]c]d"), vec![eof()]])
    );
    assert_eq!(
        run("<![CDATA[\0]]>"),
        vec![Ok(Token::Character('\0')), eof()]
    );
    assert_eq!(
        run("<![cdata[a]]>"),
        vec![Err(ParseError::IncorrectlyOpenedComment), comment("[cdata[a]]"), eof()]
    );
}

#[test]
fn named_character_references() {
    assert_eq!(run("&amp;"), vec![Ok(Token::Character('&')), eof()]);
    assert_eq!(run("&lt;&gt;"), concat(vec![chars("<>"), vec![eof()]]));
    assert_eq!(run("&notin;"), vec![Ok(Token::Character('\u{2209}')), eof()]);
    assert_eq!(
        run("&NotEqualTilde;"),
        vec![Ok(Token::Character('\u{2242}')), Ok(Token::Character('\u{338}')), eof()]
    );
    assert_eq!(
        run("&CounterClockwiseContourIntegral;x"),
        vec![Ok(Token::Character('\u{2233}')), Ok(Token::Character('x')), eof()]
    );
    assert_eq!(run("&Tab;"), vec![Ok(Token::Character('\t')), eof()]);
    assert_eq!(run("&zwnj;"), vec![Ok(Token::Character('\u{200C}')), eof()]);
    assert_eq!(run("&AElig;"), vec![Ok(Token::Character('\u{C6}')), eof()]);
}

#[test]
fn the_longest_reference_name_wins() {
    assert_eq!(
        run("&notit;"),
        concat(vec![
            vec![
                Err(ParseError::MissingSemicolonAfterCharacterReference),
                Ok(Token::Character('\u{AC}')),
            ],
            chars("it;"),
            vec![eof()],
        ])
    );
    assert_eq!(run("&not;in;"), concat(vec![chars("\u{AC}in;"), vec![eof()]]));
}

#[test]
fn ampersand_without_reference_is_text() {
    assert_eq!(run("&"), vec![Ok(Token::Character('&')), eof()]);
    assert_eq!(run("& a"), concat(vec![chars("& a"), vec![eof()]]));
    assert_eq!(run("&&amp;"), concat(vec![chars("&&"), vec![eof()]]));
    assert_eq!(run("&x"), concat(vec![chars("&x"), vec![eof()]]));
    assert_eq!(run("&1;"), concat(vec![
        chars("&1"),
        vec![Err(ParseError::UnknownNamedCharacterReference)],
        chars(";"),
        vec![eof()],
    ]));
}

#[test]
fn numeric_character_references() {
    assert_eq!(run("&#65;"), vec![Ok(Token::Character('A')), eof()]);
    assert_eq!(run("&#x41;"), vec![Ok(Token::Character('A')), eof()]);
    assert_eq!(run("&#X1f600;"), vec![Ok(Token::Character('\u{1F600}')), eof()]);
    assert_eq!(run("&#x10FFFD;"), vec![Ok(Token::Character('\u{10FFFD}')), eof()]);
    assert_eq!(run("&#1114109;"), vec![Ok(Token::Character('\u{10FFFD}')), eof()]);
    assert_eq!(run("&#xaBc;"), vec![Ok(Token::Character('\u{ABC}')), eof()]);
    assert_eq!(run("&#9;"), vec![Ok(Token::Character('\t')), eof()]);
    assert_eq!(
        run("&#99999999999999999999;"),
        vec![
            Err(ParseError::CharacterReferenceOutsideUnicodeRange),
            Ok(Token::Character('\u{FFFD}')),
            eof(),
        ]
    );
}

#[test]
fn legacy_numeric_references() {
    let table = [
        (0x80, '\u{20AC}'),
        (0x82, '\u{201A}'),
        (0x83, '\u{0192}'),
        (0x84, '\u{201E}'),
        (0x85, '\u{2026}'),
        (0x86, '\u{2020}'),
        (0x87, '\u{2021}'),
        (0x88, '\u{02C6}'),
        (0x89, '\u{2030}'),
        (0x8A, '\u{0160}'),
        (0x8B, '\u{2039}'),
        (0x8C, '\u{0152}'),
        (0x8E, '\u{017D}'),
        (0x91, '\u{2018}'),
        (0x92, '\u{2019}'),
        (0x93, '\u{201C}'),
        (0x94, '\u{201D}'),
        (0x95, '\u{2022}'),
        (0x96, '\u{2013}'),
        (0x97, '\u{2014}'),
        (0x98, '\u{02DC}'),
        (0x99, '\u{2122}'),
        (0x9A, '\u{0161}'),
        (0x9B, '\u{203A}'),
        (0x9C, '\u{0153}'),
        (0x9E, '\u{017E}'),
        (0x9F, '\u{0178}'),
        (0x81, '\u{81}'),
        (0x8D, '\u{8D}'),
        (0x8F, '\u{8F}'),
        (0x90, '\u{90}'),
        (0x9D, '\u{9D}'),
    ];
    for (code, expected) in table {
        assert_eq!(
            run(&format!("&#{};", code)),
            vec![
                Err(ParseError::ControlCharacterReference),
                Ok(Token::Character(expected)),
                eof(),
            ]
        );
    }
}

#[test]
fn references_in_attribute_values() {
    assert_eq!(
        run("<a b='&amp;' c=\"&#65;\" d=&lt;>"),
        vec![start_tag("a", &[("b", "&"), ("c", "A"), ("d", "<")]), eof()]
    );
    assert_eq!(
        run("<a b='?x&copy=1&reg1&amp'>"),
        vec![
            Err(ParseError::MissingSemicolonAfterCharacterReference),
            start_tag("a", &[("b", "?x&copy=1&reg1&")]),
            eof(),
        ]
    );
    assert_eq!(
        run("<a b='&foo;&#;'>"),
        vec![
            Err(ParseError::UnknownNamedCharacterReference),
            Err(ParseError::AbsenceOfDigitsInNumericCharacterReference),
            start_tag("a", &[("b", "&foo;&#;")]),
            eof(),
        ]
    );
    assert_eq!(
        run("<a b=&NotEqualTilde;>"),
        vec![start_tag("a", &[("b", "\u{2242}\u{338}")]), eof()]
    );
}

#[test]
fn rcdata_reads_up_to_the_matching_end_tag() {
    let mut tokenizer = TokenizerImpl::new("<title>a&lt;</b></title >x".into());
    assert_eq!(tokenizer.next(), Some(start_tag("title", &[])));
    tokenizer.switch_to(State::RCDATA);
    let mut items = Vec::new();
    while let Some(item) = tokenizer.next() {
        items.push(item);
    }
    assert_eq!(
        items,
        concat(vec![chars("a<</b>"), vec![end_tag("title")], chars("x"), vec![eof()]])
    );
    assert_eq!(tokenizer.state(), State::Data);
}

#[test]
fn rawtext_does_not_read_references() {
    let mut tokenizer = TokenizerImpl::new("<style>a&lt;<</STYLE/>".into());
    assert_eq!(tokenizer.next(), Some(start_tag("style", &[])));
    tokenizer.switch_to(State::RAWTEXT);
    let mut items = Vec::new();
    while let Some(item) = tokenizer.next() {
        items.push(item);
    }
    assert_eq!(
        items,
        concat(vec![
            chars("a&lt;<"),
            vec![
                Err(ParseError::EndTagWithTrailingSolidus),
                tag(TagKind::End, "style", true, &[]),
                eof(),
            ],
        ])
    );
}

#[test]
fn end_tag_without_start_tag_is_text_in_raw_text() {
    assert_eq!(
        run_from("a</b>c</", State::RCDATA),
        concat(vec![chars("a</b>c</"), vec![eof()]])
    );
    assert_eq!(
        run_from("</b x", State::RAWTEXT),
        concat(vec![chars("</b x"), vec![eof()]])
    );
    assert_eq!(
        run_from("a\0<", State::RAWTEXT),
        vec![
            Ok(Token::Character('a')),
            Err(ParseError::UnexpectedNullCharacter),
            Ok(Token::Character('\u{FFFD}')),
            Ok(Token::Character('<')),
            eof(),
        ]
    );
    assert_eq!(
        run_from("&amp;\0", State::RCDATA),
        vec![
            Ok(Token::Character('&')),
            Err(ParseError::UnexpectedNullCharacter),
            Ok(Token::Character('\u{FFFD}')),
            eof(),
        ]
    );
}

#[test]
fn plaintext_reads_everything_as_text() {
    assert_eq!(
        run_from("<a>&amp;\0</a>", State::PLAINTEXT),
        concat(vec![
            chars("<a>&amp;"),
            vec![Err(ParseError::UnexpectedNullCharacter)],
            chars("\u{FFFD}</a>"),
            vec![eof()],
        ])
    );
}

#[test]
fn script_data_with_escapes() {
    let mut tokenizer = TokenizerImpl::new(
        "<script>a<b<!--c<script>d</script>e-->f</script>".into(),
    );
    assert_eq!(tokenizer.next(), Some(start_tag("script", &[])));
    tokenizer.switch_to(State::ScriptData);
    let mut items = Vec::new();
    while let Some(item) = tokenizer.next() {
        items.push(item);
    }
    assert_eq!(
        items,
        concat(vec![
            chars("a<b<!--c<script>d</script>e-->f"),
            vec![end_tag("script"), eof()],
        ])
    );
}

#[test]
fn script_data_escaped_end_tag() {
    let mut tokenizer = TokenizerImpl::new("<script><!--a</script>".into());
    assert_eq!(tokenizer.next(), Some(start_tag("script", &[])));
    tokenizer.switch_to(State::ScriptData);
    let mut items = Vec::new();
    while let Some(item) = tokenizer.next() {
        items.push(item);
    }
    assert_eq!(items, concat(vec![chars("<!--a"), vec![end_tag("script"), eof()]]));
}

#[test]
fn script_data_other_paths() {
    assert_eq!(
        run_from("<!-a<!x</x", State::ScriptData),
        concat(vec![chars("<!-a<!x</x"), vec![eof()]])
    );
    assert_eq!(
        run_from("<!---\0-\0--\0--></", State::ScriptData),
        concat(vec![
            chars("<!---"),
            vec![Err(ParseError::UnexpectedNullCharacter)],
            chars("\u{FFFD}-"),
            vec![Err(ParseError::UnexpectedNullCharacter)],
            chars("\u{FFFD}--"),
            vec![Err(ParseError::UnexpectedNullCharacter)],
            chars("\u{FFFD}--></"),
            vec![eof()],
        ])
    );
    assert_eq!(
        run_from("<!--<a </a <1", State::ScriptData),
        concat(vec![
            chars("<!--<a </a <1"),
            vec![Err(ParseError::EofInScriptHtmlCommentLikeText), eof()],
        ])
    );
    assert_eq!(
        run_from("<!--<script \0-\0--\0--<x-></script>--></script x", State::ScriptData),
        concat(vec![
            chars("<!--<script "),
            vec![Err(ParseError::UnexpectedNullCharacter)],
            chars("\u{FFFD}-"),
            vec![Err(ParseError::UnexpectedNullCharacter)],
            chars("\u{FFFD}--"),
            vec![Err(ParseError::UnexpectedNullCharacter)],
            chars("\u{FFFD}--<x-></script>--></script x"),
            vec![eof()],
        ])
    );
    assert_eq!(
        run_from("<!--<script>-", State::ScriptData),
        concat(vec![
            chars("<!--<script>-"),
            vec![Err(ParseError::EofInScriptHtmlCommentLikeText), eof()],
        ])
    );
    assert_eq!(
        run_from("<!--<script>--", State::ScriptData),
        concat(vec![
            chars("<!--<script>--"),
            vec![Err(ParseError::EofInScriptHtmlCommentLikeText), eof()],
        ])
    );
    assert_eq!(
        run_from("<!--<script>", State::ScriptData),
        concat(vec![
            chars("<!--<script>"),
            vec![Err(ParseError::EofInScriptHtmlCommentLikeText), eof()],
        ])
    );
    assert_eq!(
        run_from("<!--<scripx>-", State::ScriptData),
        concat(vec![
            chars("<!--<scripx>-"),
            vec![Err(ParseError::EofInScriptHtmlCommentLikeText), eof()],
        ])
    );
    assert_eq!(
        run_from("<!--<script></scripx>", State::ScriptData),
        concat(vec![
            chars("<!--<script></scripx>"),
            vec![Err(ParseError::EofInScriptHtmlCommentLikeText), eof()],
        ])
    );
    assert_eq!(
        run_from("a\0", State::ScriptData),
        concat(vec![
            chars("a"),
            vec![Err(ParseError::UnexpectedNullCharacter)],
            chars("\u{FFFD}"),
            vec![eof()],
        ])
    );
}

#[test]
fn pulling_after_the_end_gives_nothing() {
    let mut tokenizer = TokenizerImpl::new("a".into());
    assert_eq!(tokenizer.next(), Some(Ok(Token::Character('a'))));
    assert_eq!(tokenizer.next(), Some(eof()));
    assert_eq!(tokenizer.next(), None);
    assert_eq!(tokenizer.next(), None);
}

#[test]
fn every_output_ends_with_one_end_of_file() {
    let inputs = [
        "", "<", "</", "<a", "<a b", "<a b=", "<a b='", "<a b=\"", "<a b=c", "<a b='c'", "<a/",
        "<!", "<!-", "<!--", "<!---", "<!----", "<!----!", "<!--<", "<!--<!", "<!--<!-",
        "<!--<!--", "<!D", "<!DOCTYPE", "<!DOCTYPE ", "<!DOCTYPE a", "<!DOCTYPE a ",
        "<!DOCTYPE a P", "<!DOCTYPE a PUBLIC", "<!DOCTYPE a PUBLIC ", "<!DOCTYPE a PUBLIC '",
        "<!DOCTYPE a PUBLIC \"", "<!DOCTYPE a PUBLIC ''", "<!DOCTYPE a PUBLIC '' ",
        "<!DOCTYPE a PUBLIC '' '", "<!DOCTYPE a PUBLIC '' \"", "<!DOCTYPE a PUBLIC '' ''",
        "<!DOCTYPE a SYSTEM", "<!DOCTYPE a SYSTEM ", "<!DOCTYPE a SYSTEM '",
        "<!DOCTYPE a SYSTEM \"", "<!DOCTYPE a x", "<![CDATA[", "<![CDATA[]", "<![CDATA[]]",
        "&", "&a", "&am", "&amp", "&#", "&#x", "&#1", "&#x1", "<?", "</ ", "<a b=&", "<a b='&#",
        "<a b=\"&#x", "<a b=&amp",
    ];
    let states = [
        State::Data,
        State::RCDATA,
        State::RAWTEXT,
        State::ScriptData,
        State::PLAINTEXT,
        State::CDATASection,
    ];
    for input in inputs {
        for state in states {
            let items = run_from(input, state);
            assert_eq!(items.last(), Some(&eof()));
            let count = items.iter().filter(|item| **item == eof()).count();
            assert_eq!(count, 1);
        }
    }
}
