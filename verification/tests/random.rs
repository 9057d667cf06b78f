use html_tokenizer::tokenizer::error::ParseError;
use html_tokenizer::tokenizer::state::State;
use html_tokenizer::tokenizer::{Token, Tokenizer, TokenizerImpl};

type Item = Result<Token, ParseError>;

struct Generator {
    state: u64,
}

impl Generator {
    fn next(&mut self) -> u64 {
        self.state = self
            .state
            .wrapping_mul(6364136223846793005)
            .wrapping_add(1442695040888963407);
        self.state >> 33
    }

    fn text(&mut self) -> String {
        let pieces = [
            "<", ">", "/", "!", "-", "--", "=", "\"", "'", "&", "#", ";", "x", "a", "B", "0", "9",
            " ", "\n", "\t", "\0", "?", "[", "]", "`", "amp", "lt;", "not", "script", "SCRIPT",
            "DOCTYPE", "doctype", "PUBLIC", "SYSTEM", "[CDATA[", "]]>", "html", "\u{E9}",
            "\u{1F600}", "<!--", "-->", "</", "title", "&#", "&#x", "f",
        ];
        let length = self.next() % 12;
        let mut text = String::new();
        for _ in 0..length {
            text.push_str(pieces[(self.next() % pieces.len() as u64) as usize]);
        }
        text
    }
}

fn run_from(input: &str, state: State) -> Vec<Item> {
    let mut tokenizer = TokenizerImpl::new(input.into());
    tokenizer.switch_to(state);
    let mut items = Vec::new();
    while let Some(item) = tokenizer.next() {
        items.push(item);
        assert!(items.len() <= 8 * input.len() + 8);
    }
    assert_eq!(tokenizer.next(), None);
    items
}

#[test]
fn random_inputs_end_with_one_end_of_file() {
    let states = [
        State::Data,
        State::RCDATA,
        State::RAWTEXT,
        State::ScriptData,
        State::PLAINTEXT,
        State::CDATASection,
    ];
    let mut generator = Generator { state: 2024 };
    for round in 0..6000 {
        let input = generator.text();
        let items = run_from(&input, states[round % states.len()]);
        assert_eq!(items.last(), Some(&Ok(Token::EndOfFile)));
        let count = items.iter().filter(|item| **item == Ok(Token::EndOfFile)).count();
        assert_eq!(count, 1);
    }
}

#[test]
fn random_inputs_give_well_formed_tokens() {
    let mut generator = Generator { state: 7 };
    for _ in 0..6000 {
        let input = generator.text();
        for item in run_from(&input, State::Data) {
            match item {
                Ok(Token::Tag { tag_name, attributes, .. }) => {
                    assert!(!tag_name.is_empty());
                    assert!(!tag_name.chars().any(|c| c.is_ascii_uppercase()));
                    for index in 0..attributes.len() {
                        let name = attributes.get(index).unwrap().name();
                        assert!(!name.is_empty());
                        assert!(!name.chars().any(|c| c.is_ascii_uppercase()));
                    }
                }
                Ok(Token::Doctype { name: Some(name), .. }) => {
                    assert!(!name.is_empty());
                    assert!(!name.chars().any(|c| c.is_ascii_uppercase()));
                }
                _ => {}
            }
        }
    }
}

#[test]
fn text_without_markup_comes_back_as_it_is() {
    let mut generator = Generator { state: 99 };
    for _ in 0..2000 {
        let input: String = generator
            .text()
            .chars()
            .filter(|c| *c != '<' && *c != '&' && *c != '\0')
            .collect();
        let expected: Vec<Item> = input
            .chars()
            .map(|c| Ok(Token::Character(c)))
            .chain(std::iter::once(Ok(Token::EndOfFile)))
            .collect();
        assert_eq!(run_from(&input, State::Data), expected);
    }
}
