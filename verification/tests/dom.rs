use html_tokenizer::dom::{Node, NodeData};
use html_tokenizer::parser::state::InsertionMode;
use html_tokenizer::parser::Parser;
use html_tokenizer::tokenizer::TokenizerImpl;

#[test]
fn a_new_document_holds_only_the_document_node() {
    let dom = Node::create_document();
    assert_eq!(dom.len(), 1);
    let document = dom.node(0).unwrap();
    assert_eq!(*document.data(), NodeData::Document);
    assert_eq!(document.document(), None);
    assert_eq!(document.parent(), None);
    assert!(document.children().is_empty());
    assert!(dom.node(1).is_none());
    assert_eq!(dom, Node::create_document());
}

#[test]
fn elements_become_last_children() {
    let mut dom = Node::create_document();
    let html = Node::create_element(String::from("html"), &mut dom, 0, 0);
    assert_eq!(html, Some(1));
    let head = Node::create_element(String::from("head"), &mut dom, 0, 1);
    assert_eq!(head, Some(2));
    let body = Node::create_element(String::from("body"), &mut dom, 0, 1);
    assert_eq!(body, Some(3));
    assert_eq!(dom.len(), 4);
    assert_eq!(dom.node(0).unwrap().children(), &vec![1]);
    assert_eq!(dom.node(1).unwrap().children(), &vec![2, 3]);
    let body = dom.node(3).unwrap();
    assert_eq!(*body.data(), NodeData::Element { tag_name: String::from("body") });
    assert_eq!(body.parent(), Some(1));
    assert_eq!(body.document(), Some(0));
    assert!(body.children().is_empty());
}

#[test]
fn a_node_needs_a_parent_and_a_document_in_the_tree() {
    let mut dom = Node::create_document();
    assert_eq!(Node::create_element(String::from("a"), &mut dom, 0, 1), None);
    assert_eq!(Node::create_element(String::from("a"), &mut dom, 1, 0), None);
    assert_eq!(Node::create_comment(String::from("a"), &mut dom, 0, 7), None);
    assert_eq!(
        Node::create_doctype(String::from("a"), String::new(), String::new(), &mut dom, 9, 0),
        None
    );
    assert_eq!(dom, Node::create_document());
}

#[test]
fn parser_of_an_empty_input_gives_an_empty_document() {
    let mut parser = Parser::new(TokenizerImpl::new(String::new()));
    let actual = parser.parse();
    let expected = Node::create_document();
    assert_eq!(actual, &expected);
    assert_eq!(parser.parse_errors(), 0);
    assert_eq!(parser.mode(), InsertionMode::BeforeHtml);
}

#[test]
fn parser_puts_comments_and_the_doctype_into_the_document() {
    let mut parser = Parser::new(TokenizerImpl::new(String::from(
        " \n<!--a-->\t\r<!DOCTYPE html><!--b--><p>",
    )));
    let dom = parser.parse();
    assert_eq!(dom.len(), 3);
    assert_eq!(dom.node(0).unwrap().children(), &vec![1, 2]);
    assert_eq!(*dom.node(1).unwrap().data(), NodeData::Comment(String::from("a")));
    assert_eq!(
        *dom.node(2).unwrap().data(),
        NodeData::Doctype {
            name: String::from("html"),
            public_identifier: String::new(),
            private_identifier: String::new(),
        }
    );
    assert_eq!(dom.node(2).unwrap().parent(), Some(0));
    assert_eq!(parser.parse_errors(), 0);
    assert_eq!(parser.mode(), InsertionMode::BeforeHtml);
}

#[test]
fn parser_counts_errors() {
    let mut parser = Parser::new(TokenizerImpl::new(String::from("\0 <!DOCTYPE a PUBLIC 'b' 'c'>")));
    let dom = parser.parse();
    assert_eq!(dom.len(), 1);
    assert_eq!(parser.parse_errors(), 1);

    let mut parser = Parser::new(TokenizerImpl::new(String::from("<!DOCTYPE a PUBLIC 'b' 'c'>")));
    let dom = parser.parse();
    assert_eq!(
        *dom.node(1).unwrap().data(),
        NodeData::Doctype {
            name: String::from("a"),
            public_identifier: String::from("b"),
            private_identifier: String::from("c"),
        }
    );
    assert_eq!(parser.parse_errors(), 1);

    let mut parser = Parser::new(TokenizerImpl::new(String::from(
        "<!DOCTYPE html SYSTEM 'about:legacy-compat'>",
    )));
    parser.parse();
    assert_eq!(parser.parse_errors(), 0);

    let mut parser = Parser::new(TokenizerImpl::new(String::from("<!DOCTYPE html SYSTEM 'x'>")));
    parser.parse();
    assert_eq!(parser.parse_errors(), 1);

    let mut parser = Parser::new(TokenizerImpl::new(String::from("<!DOCTYPE>")));
    let dom = parser.parse();
    assert_eq!(
        *dom.node(1).unwrap().data(),
        NodeData::Doctype {
            name: String::new(),
            public_identifier: String::new(),
            private_identifier: String::new(),
        }
    );
    assert_eq!(parser.parse_errors(), 2);
}

#[test]
fn parser_stops_building_after_the_first_other_token() {
    let mut parser = Parser::new(TokenizerImpl::new(String::from("<!--a-->x<!--b-->")));
    let dom = parser.parse();
    assert_eq!(dom.len(), 2);
    assert_eq!(parser.mode(), InsertionMode::BeforeHtml);
}
