use xml_compare_api::element::{FlatDocument, XmlElement};
use xml_compare_api::error::AppError;
use xml_compare_api::flatten::{flatten_tokens, gather_attributes, parse_xml, Flattener};
use xml_compare_api::tokens::XmlToken;

fn start(name: &str, attributes: Vec<Option<(&str, &str)>>) -> XmlToken {
    XmlToken::Start {
        name: name.to_string(),
        attributes: attributes
            .into_iter()
            .map(|a| a.map(|(k, v)| (k.to_string(), v.to_string())))
            .collect(),
    }
}

fn text(value: &str) -> XmlToken {
    XmlToken::Text(value.to_string())
}

fn paths(doc: &FlatDocument) -> Vec<String> {
    doc.elements.iter().map(|e| e.path.clone()).collect()
}

#[test]
fn flatten_records_each_element_under_its_path() {
    let doc = parse_xml("<a c=\"C\"><child>hey</child></a>").unwrap();
    assert_eq!(doc.elements.len(), 2);
    assert_eq!(doc.elements[0].path, "/a");
    assert_eq!(doc.elements[0].name, "a");
    assert_eq!(doc.elements[0].attributes, vec![("c".to_string(), "C".to_string())]);
    assert_eq!(doc.elements[0].content, None);
    assert_eq!(doc.elements[1].path, "/a/child");
    assert_eq!(doc.elements[1].name, "child");
    assert_eq!(doc.elements[1].content, Some("hey".to_string()));
}

#[test]
fn flatten_keeps_first_occurrence_order_of_paths() {
    let doc = parse_xml("<root><b>1</b><a>2</a><c><d/>3</c></root>").unwrap();
    assert_eq!(paths(&doc), vec!["/root", "/root/b", "/root/a", "/root/c"]);
    assert_eq!(doc.elements[3].content, Some("3".to_string()));
}

#[test]
fn flatten_later_sibling_overwrites_earlier_one() {
    let doc = parse_xml("<r><x k=\"1\">one</x><y>mid</y><x j=\"2\">two</x></r>").unwrap();
    assert_eq!(paths(&doc), vec!["/r", "/r/x", "/r/y"]);
    assert_eq!(doc.elements[1].attributes, vec![("j".to_string(), "2".to_string())]);
    assert_eq!(doc.elements[1].content, Some("two".to_string()));
}

#[test]
fn flatten_overwritten_sibling_without_text_has_no_content() {
    let doc = parse_xml("<r><x>one</x><x></x></r>").unwrap();
    assert_eq!(paths(&doc), vec!["/r", "/r/x"]);
    assert_eq!(doc.elements[1].content, None);
}

#[test]
fn flatten_keeps_only_the_last_text_run() {
    let doc = parse_xml("<a>first<b>inner</b>last</a>").unwrap();
    assert_eq!(paths(&doc), vec!["/a", "/a/b"]);
    assert_eq!(doc.elements[0].content, Some("last".to_string()));
    assert_eq!(doc.elements[1].content, Some("inner".to_string()));
}

#[test]
fn flatten_trims_text() {
    let doc = parse_xml("<a>\n   padded text \t\n</a>").unwrap();
    assert_eq!(doc.elements[0].content, Some("padded text".to_string()));
}

#[test]
fn flatten_ignores_self_closed_tags_comments_and_declarations() {
    let doc = parse_xml("<?xml version=\"1.0\"?><!-- note --><a><b/><c>x</c></a>").unwrap();
    assert_eq!(paths(&doc), vec!["/a", "/a/c"]);
}

#[test]
fn flatten_empty_text_gives_empty_document() {
    let doc = parse_xml("").unwrap();
    assert!(doc.elements.is_empty());
    assert_eq!(doc.len(), 0);
}

#[test]
fn flatten_surfaces_tokenizer_failure() {
    match parse_xml("<a></b>") {
        Err(AppError::XmlParseError(message)) => assert!(!message.is_empty()),
        other => panic!("expected a parse failure, got {:?}", other),
    }
}

#[test]
fn flatten_failure_gives_no_partial_document() {
    assert!(matches!(parse_xml("<a><b>text</b></c>"), Err(AppError::XmlParseError(_))));
}

#[test]
fn flatten_tokens_follows_the_stack() {
    let tokens = vec![
        start("a", vec![Some(("c", "C"))]),
        start("child", vec![]),
        text("  hey "),
        XmlToken::End,
        start("other", vec![]),
        XmlToken::Other,
        XmlToken::End,
        text("tail"),
        XmlToken::End,
        XmlToken::Eof,
    ];
    let doc = flatten_tokens(&tokens).unwrap();
    assert_eq!(paths(&doc), vec!["/a", "/a/child", "/a/other"]);
    assert_eq!(doc.elements[0].content, Some("tail".to_string()));
    assert_eq!(doc.elements[1].content, Some("hey".to_string()));
    assert_eq!(doc.elements[2].content, None);
}

#[test]
fn flatten_tokens_stops_at_eof() {
    let tokens = vec![start("a", vec![]), XmlToken::Eof, start("b", vec![])];
    let doc = flatten_tokens(&tokens).unwrap();
    assert_eq!(paths(&doc), vec!["/a"]);
}

#[test]
fn flatten_tokens_without_eof_ends_with_the_tokens() {
    let tokens = vec![start("a", vec![]), start("b", vec![])];
    let doc = flatten_tokens(&tokens).unwrap();
    assert_eq!(paths(&doc), vec!["/a", "/a/b"]);
}

#[test]
fn flatten_tokens_fails_with_the_first_failure() {
    let tokens = vec![
        start("a", vec![]),
        XmlToken::Failed("bad token".to_string()),
        XmlToken::Failed("later".to_string()),
        XmlToken::Eof,
    ];
    match flatten_tokens(&tokens) {
        Err(AppError::XmlParseError(message)) => assert_eq!(message, "bad token"),
        other => panic!("expected a parse failure, got {:?}", other),
    }
}

#[test]
fn flatten_tokens_text_and_end_outside_any_element_change_nothing() {
    let tokens = vec![text("stray"), XmlToken::End, start("a", vec![]), XmlToken::End, XmlToken::End];
    let doc = flatten_tokens(&tokens).unwrap();
    assert_eq!(paths(&doc), vec!["/a"]);
    assert_eq!(doc.elements[0].content, None);
}

#[test]
fn flatten_tokens_root_after_root_starts_at_the_top_again() {
    let tokens = vec![
        start("a", vec![]),
        XmlToken::End,
        start("b", vec![]),
        start("c", vec![]),
        XmlToken::Eof,
    ];
    let doc = flatten_tokens(&tokens).unwrap();
    assert_eq!(paths(&doc), vec!["/a", "/b", "/b/c"]);
}

#[test]
fn gather_attributes_skips_malformed_and_overwrites_in_place() {
    let raw = vec![
        Some(("k".to_string(), "1".to_string())),
        None,
        Some(("j".to_string(), "2".to_string())),
        Some(("k".to_string(), "3".to_string())),
    ];
    assert_eq!(
        gather_attributes(&raw),
        vec![("k".to_string(), "3".to_string()), ("j".to_string(), "2".to_string())]
    );
}

#[test]
fn flattener_apply_opens_and_closes() {
    let mut state = Flattener::new();
    state.apply(&start("a", vec![]));
    assert_eq!(state.stack, vec!["/a"]);
    state.apply(&start("b", vec![]));
    assert_eq!(state.stack, vec!["/a", "/a/b"]);
    state.apply(&XmlToken::End);
    assert_eq!(state.stack, vec!["/a"]);
    state.apply(&XmlToken::Eof);
    assert_eq!(state.stack, vec!["/a"]);
    assert_eq!(state.document.len(), 2);
}

#[test]
fn document_insert_get_and_set_content() {
    let mut doc = FlatDocument::new();
    let element = |path: &str, name: &str| XmlElement {
        name: name.to_string(),
        attributes: vec![],
        content: None,
        path: path.to_string(),
    };
    doc.insert(element("/a", "a"));
    doc.insert(element("/a/b", "b"));
    doc.insert(element("/a", "again"));
    assert_eq!(doc.len(), 2);
    assert_eq!(doc.elements[0].name, "again");
    assert_eq!(doc.position(&"/a/b".to_string()), Some(1));
    assert_eq!(doc.position(&"/none".to_string()), None);
    doc.set_content(&"/a/b".to_string(), "text".to_string());
    doc.set_content(&"/none".to_string(), "lost".to_string());
    assert_eq!(doc.elements[1].content, Some("text".to_string()));
    assert_eq!(doc.elements[0].content, None);
}
