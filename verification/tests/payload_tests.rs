use xml_compare_api::flatten::parse_xml;
use xml_compare_api::payload::{
    extract_tag_name, generate_large_xml, generate_xml, generate_xml_depth_2,
    generate_xml_depth_3, generate_xml_depth_5, generate_xml_levels, generate_xml_recursive,
    generate_xml_with_different_attr, generate_xml_with_different_content, position_of,
    simple_xml_compare,
};

#[test]
fn nested_document_of_depth_zero_is_the_content() {
    assert_eq!(generate_xml(0, 7, "doc"), "doc_7");
    assert_eq!(generate_xml_with_different_content(0, 7, "doc"), "doc_7_CHANGED");
    assert_eq!(generate_xml_with_different_attr(0, 7, "doc"), "doc_7");
}

#[test]
fn nested_document_of_depth_two() {
    assert_eq!(
        generate_xml(2, 123, "doc1"),
        "<level2 id=\"doc1_2\" value=\"123\"><level1 id=\"doc1_1\" value=\"124\">doc1_125</level1></level2>"
    );
}

#[test]
fn nested_document_with_changed_attribute_marks_level_one() {
    assert_eq!(
        generate_xml_with_different_attr(2, 123, "doc1"),
        "<level2 id=\"doc1_2\" value=\"123\"><level1 id=\"doc1_1\" value=\"124_CHANGED\">doc1_125</level1></level2>"
    );
}

#[test]
fn nested_document_with_changed_content_marks_the_content() {
    assert_eq!(
        generate_xml_with_different_content(2, 123, "doc1"),
        "<level2 id=\"doc1_2\" value=\"123\"><level1 id=\"doc1_1\" value=\"124\">doc1_125_CHANGED</level1></level2>"
    );
    assert_eq!(
        generate_xml_recursive(1, 0, "p", true, true),
        "<level1 id=\"p_1\" value=\"0_CHANGED\">p_1_CHANGED</level1>"
    );
}

#[test]
fn nested_document_reaches_the_largest_seed() {
    assert_eq!(
        generate_xml(1, u32::MAX - 1, "d"),
        "<level1 id=\"d_1\" value=\"4294967294\">d_4294967295</level1>"
    );
    assert_eq!(generate_xml(0, u32::MAX, "d"), "d_4294967295");
}

#[test]
fn nested_documents_flatten_to_one_element_per_level() {
    let doc = parse_xml(&generate_xml(5, 10, "doc")).unwrap();
    let paths: Vec<&str> = doc.elements.iter().map(|e| e.path.as_str()).collect();
    assert_eq!(
        paths,
        vec![
            "/level5",
            "/level5/level4",
            "/level5/level4/level3",
            "/level5/level4/level3/level2",
            "/level5/level4/level3/level2/level1"
        ]
    );
    assert_eq!(doc.elements[4].content, Some("doc_15".to_string()));
}

#[test]
fn indented_document_of_two_levels() {
    assert_eq!(
        generate_xml_depth_2(123, "doc1"),
        "<level2 id=\"doc1_2\" value=\"123\">\n            <level1 id=\"doc1_1\" value=\"124\">doc1_content</level1>\n        </level2>"
    );
}

#[test]
fn indented_document_of_three_levels() {
    assert_eq!(
        generate_xml_depth_3(1, "p"),
        "<level3 id=\"p_3\" value=\"1\">\n            <level2 id=\"p_2\" value=\"2\">\n                <level1 id=\"p_1\" value=\"3\">p_content</level1>\n            </level2>\n        </level3>"
    );
}

#[test]
fn indented_document_of_five_levels() {
    assert_eq!(
        generate_xml_depth_5(0, "p"),
        "<level5 id=\"p_5\" value=\"0\">\n            <level4 id=\"p_4\" value=\"1\">\n                <level3 id=\"p_3\" value=\"2\">\n                    <level2 id=\"p_2\" value=\"3\">\n                        <level1 id=\"p_1\" value=\"4\">p_content</level1>\n                    </level2>\n                </level3>\n            </level4>\n        </level5>"
    );
    assert_eq!(generate_xml_levels(5, 1, 0, "p"), "<level1 id=\"p_1\" value=\"4\">p_content</level1>");
}

#[test]
fn wide_document() {
    assert_eq!(generate_large_xml(0, "big"), "<root id=\"big\">\n</root>");
    assert_eq!(
        generate_large_xml(2, "big"),
        "<root id=\"big\">\n  <item0 id=\"big0\" value=\"0\" type=\"test\">big_content_0</item0>\n  <item1 id=\"big1\" value=\"7\" type=\"test\">big_content_1</item1>\n</root>"
    );
    let doc = parse_xml(&generate_large_xml(100, "large1")).unwrap();
    assert_eq!(doc.elements.len(), 101);
    assert_eq!(doc.elements[100].path, "/root/item99");
    assert_eq!(
        doc.elements[100].attributes,
        vec![
            ("id".to_string(), "large199".to_string()),
            ("value".to_string(), "693".to_string()),
            ("type".to_string(), "test".to_string())
        ]
    );
}

#[test]
fn tag_name_ends_at_the_first_space_or_else_at_the_first_bracket() {
    assert_eq!(extract_tag_name("<level2 id=\"a\" value=\"1\">"), Some("level2".to_string()));
    assert_eq!(extract_tag_name("<root>"), Some("root".to_string()));
    assert_eq!(extract_tag_name("  <a>text with space</a>"), Some("a>text".to_string()));
    assert_eq!(extract_tag_name("text <b>"), Some("b".to_string()));
    assert_eq!(extract_tag_name("x<b>y"), Some("b".to_string()));
    assert_eq!(extract_tag_name("<>"), Some("".to_string()));
    assert_eq!(extract_tag_name("<é ü>"), Some("é".to_string()));
}

#[test]
fn no_tag_name_without_an_opening_or_an_end() {
    assert_eq!(extract_tag_name("no tag here"), None);
    assert_eq!(extract_tag_name("<unclosed"), None);
    assert_eq!(extract_tag_name(""), None);
    assert_eq!(extract_tag_name("a > b <"), None);
}

#[test]
fn position_of_searches_from_the_given_index() {
    let chars: Vec<char> = "a<b<c".chars().collect();
    assert_eq!(position_of(&chars, '<', 0), Some(1));
    assert_eq!(position_of(&chars, '<', 2), Some(3));
    assert_eq!(position_of(&chars, '<', 4), None);
    assert_eq!(position_of(&chars, '<', 9), None);
}

#[test]
fn simple_compare_is_equality_of_texts() {
    assert!(simple_xml_compare("<a/>", "<a/>"));
    assert!(!simple_xml_compare("<a/>", "<a />"));
    assert!(simple_xml_compare("", ""));
}
