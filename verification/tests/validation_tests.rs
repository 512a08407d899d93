use xml_compare_api::error::AppError;
use xml_compare_api::validation::{validate_url, validate_xml_content};

fn validation_message(outcome: Result<(), AppError>) -> String {
    match outcome {
        Err(AppError::ValidationError(message)) => message,
        other => panic!("unexpected {:?}", other),
    }
}

#[test]
fn blank_content_is_refused_as_empty() {
    assert_eq!(validation_message(validate_xml_content("")), "XML content cannot be empty");
    assert_eq!(validation_message(validate_xml_content("  \n\t ")), "XML content cannot be empty");
    assert_eq!(
        validation_message(validate_xml_content("\u{a0}\u{2003}\u{3000}")),
        "XML content cannot be empty"
    );
}

#[test]
fn content_that_does_not_open_with_a_bracket_is_refused() {
    assert_eq!(validation_message(validate_xml_content("hello <a/>")), "Invalid XML format");
    assert_eq!(validation_message(validate_xml_content("  x")), "Invalid XML format");
    assert_eq!(validation_message(validate_xml_content("\u{200b}<a/>")), "Invalid XML format");
}

#[test]
fn content_that_opens_with_a_bracket_is_accepted() {
    assert!(validate_xml_content("<a/>").is_ok());
    assert!(validate_xml_content("  \n <a>text</a>  ").is_ok());
    assert!(validate_xml_content("<").is_ok());
    assert!(validate_xml_content("<invalid><not-closed").is_ok());
}

#[test]
fn url_must_begin_with_http_or_https() {
    assert!(validate_url("http://host").is_ok());
    assert!(validate_url("https://host/path?q=1").is_ok());
    assert!(validate_url("http://").is_ok());
    match validate_url("ftp://host") {
        Err(AppError::InvalidUrl(url)) => assert_eq!(url, "ftp://host"),
        other => panic!("unexpected {:?}", other),
    }
    assert!(validate_url("").is_err());
    assert!(validate_url("http:/host").is_err());
    assert!(validate_url(" http://host").is_err());
    assert!(validate_url("HTTP://host").is_err());
    assert!(validate_url("https:/").is_err());
}
