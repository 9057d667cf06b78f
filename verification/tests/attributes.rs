use html_tokenizer::tokenizer::token::is_empty_some;
use html_tokenizer::tokenizer::{Attribute, Attributes, Token};

fn attributes(pairs: &[(&str, &str)]) -> Attributes {
    let mut attributes = Attributes::new();
    for (name, value) in pairs {
        attributes.push(Attribute::new(String::from(*name), String::from(*value)));
    }
    attributes
}

#[test]
fn attribute_equality_ignores_order() {
    assert_eq!(attributes(&[("a", "1"), ("b", "2")]), attributes(&[("b", "2"), ("a", "1")]));
    assert_ne!(attributes(&[("a", "1"), ("b", "2")]), attributes(&[("a", "1"), ("b", "3")]));
}

#[test]
fn attribute_equality_counts_duplicates() {
    assert_eq!(
        attributes(&[("a", "1"), ("a", "2"), ("a", "1")]),
        attributes(&[("a", "1"), ("a", "1"), ("a", "2")])
    );
    assert_ne!(
        attributes(&[("a", "1"), ("a", "2"), ("a", "1")]),
        attributes(&[("a", "1"), ("a", "2"), ("a", "2")])
    );
    assert_ne!(attributes(&[("a", "1"), ("a", "1")]), attributes(&[("a", "1")]));
    assert_ne!(attributes(&[("a", "1")]), attributes(&[("a", "1"), ("a", "1")]));
    assert_ne!(attributes(&[("a", "1")]), attributes(&[("a", "1"), ("b", "1")]));
    assert_ne!(attributes(&[]), attributes(&[("a", "1")]));
    assert_eq!(attributes(&[]), Attributes::new());
    assert_ne!(attributes(&[("a", "b")]), attributes(&[("b", "a")]));
    assert_ne!(attributes(&[("ab", "")]), attributes(&[("a", "b")]));
}

#[test]
fn attribute_name_and_value() {
    let attribute = Attribute::new(String::from("href"), String::from("x y"));
    assert_eq!(attribute.name(), "href");
    assert_eq!(attribute.value(), "x y");
    assert!(attribute.same_as(&Attribute::new(String::from("href"), String::from("x y"))));
    assert!(!attribute.same_as(&Attribute::new(String::from("href"), String::from("x"))));
    assert!(!attribute.same_as(&Attribute::new(String::from("hre"), String::from("x y"))));
}

#[test]
fn attributes_hold_what_was_pushed() {
    let mut list = attributes(&[("a", "1"), ("b", "2")]);
    assert_eq!(list.len(), 2);
    assert_eq!(list.get(0).map(|a| a.name()), Some("a"));
    assert_eq!(list.get(1).map(|a| a.value()), Some("2"));
    assert!(list.get(2).is_none());
    list.push_to_name('c');
    list.push_to_value('3');
    assert_eq!(list, attributes(&[("a", "1"), ("bc", "23")]));
    let mut empty = Attributes::new();
    empty.push_to_name('x');
    empty.push_to_value('y');
    assert_eq!(empty.len(), 0);
}

#[test]
fn empty_some_is_told_from_none_and_from_text() {
    assert!(is_empty_some(&Some(String::new())));
    assert!(!is_empty_some(&Some(String::from("a"))));
    assert!(!is_empty_some(&None));
}

#[test]
fn a_character_becomes_a_character_token() {
    assert_eq!(Token::from('x'), Token::Character('x'));
}
