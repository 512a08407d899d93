use xml_compare_api::error::AppError;

fn all() -> Vec<AppError> {
    vec![
        AppError::XmlParseError("bad".to_string()),
        AppError::HttpError("down".to_string()),
        AppError::AuthError("no".to_string()),
        AppError::InvalidUrl("x".to_string()),
        AppError::InternalError("oops".to_string()),
        AppError::ValidationError("empty".to_string()),
    ]
}

#[test]
fn each_failure_has_its_sentence() {
    let messages: Vec<String> = all().iter().map(|e| e.message()).collect();
    assert_eq!(
        messages,
        vec![
            "XML parsing error: bad",
            "HTTP request error: down",
            "Authentication failed: no",
            "Invalid URL: x",
            "Internal server error: oops",
            "Validation error: empty",
        ]
    );
}

#[test]
fn each_failure_has_its_status() {
    let statuses: Vec<u16> = all().iter().map(|e| e.status_code()).collect();
    assert_eq!(statuses, vec![400, 502, 401, 400, 500, 400]);
}

#[test]
fn fetch_and_internal_failures_withhold_their_detail() {
    let messages: Vec<String> = all().iter().map(|e| e.public_message()).collect();
    assert_eq!(
        messages,
        vec![
            "XML parsing error: bad",
            "Failed to fetch XML from URL",
            "Authentication failed: no",
            "Invalid URL: x",
            "Internal server error",
            "Validation error: empty",
        ]
    );
}
