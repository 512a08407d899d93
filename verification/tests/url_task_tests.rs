use xml_compare_api::error::AppError;
use xml_compare_api::models::{AuthCredentials, UrlComparisonRequest};
use xml_compare_api::url_task::{
    clone_rules, url_task_step, UrlTaskAction, UrlTaskEvent, UrlTaskState,
};

fn request(credentials: bool) -> UrlComparisonRequest {
    UrlComparisonRequest {
        url1: "http://one.example/a.xml".to_string(),
        url2: "http://two.example/b.xml".to_string(),
        ignore_paths: None,
        ignore_properties: Some(vec!["stamp".to_string()]),
        auth_credentials: if credentials {
            Some(AuthCredentials { username: "test".to_string(), password: "password".to_string() })
        } else {
            None
        },
    }
}

#[test]
fn task_without_credentials_fetches_both_and_compares() {
    let req = request(false);
    let (state, action) = url_task_step(&req, UrlTaskState::Idle, UrlTaskEvent::Started);
    match action {
        UrlTaskAction::Fetch { url, session } => {
            assert_eq!(url, "http://one.example/a.xml");
            assert_eq!(session, None);
        }
        other => panic!("unexpected action {:?}", other),
    }
    let (state, action) =
        url_task_step(&req, state, UrlTaskEvent::Fetched(Ok("<a stamp=\"1\">x</a>".to_string())));
    match action {
        UrlTaskAction::Fetch { url, session } => {
            assert_eq!(url, "http://two.example/b.xml");
            assert_eq!(session, None);
        }
        other => panic!("unexpected action {:?}", other),
    }
    let (state, action) =
        url_task_step(&req, state, UrlTaskEvent::Fetched(Ok("<a stamp=\"2\">y</a>".to_string())));
    assert!(matches!(state, UrlTaskState::Finished));
    match action {
        UrlTaskAction::Finish(Ok(result)) => {
            assert!(!result.matched);
            assert_eq!(result.diffs.len(), 1);
            assert_eq!(result.diffs[0].message, "Content differs");
        }
        other => panic!("unexpected action {:?}", other),
    }
}

#[test]
fn task_with_credentials_logs_in_once_at_the_first_address() {
    let req = request(true);
    let (state, action) = url_task_step(&req, UrlTaskState::Idle, UrlTaskEvent::Started);
    assert!(matches!(state, UrlTaskState::LoggingIn));
    match action {
        UrlTaskAction::Login(login) => {
            assert_eq!(login.url, "http://one.example/a.xml");
            assert_eq!(login.username, "test");
            assert_eq!(login.password, "password");
        }
        other => panic!("unexpected action {:?}", other),
    }
    let (state, action) =
        url_task_step(&req, state, UrlTaskEvent::LoggedIn(Ok("session-1".to_string())));
    match action {
        UrlTaskAction::Fetch { url, session } => {
            assert_eq!(url, "http://one.example/a.xml");
            assert_eq!(session, Some("session-1".to_string()));
        }
        other => panic!("unexpected action {:?}", other),
    }
    let (state, action) = url_task_step(&req, state, UrlTaskEvent::Fetched(Ok("<a/>".to_string())));
    match action {
        UrlTaskAction::Fetch { url, session } => {
            assert_eq!(url, "http://two.example/b.xml");
            assert_eq!(session, Some("session-1".to_string()));
        }
        other => panic!("unexpected action {:?}", other),
    }
    let (_, action) = url_task_step(&req, state, UrlTaskEvent::Fetched(Ok("<a/>".to_string())));
    match action {
        UrlTaskAction::Finish(Ok(result)) => assert!(result.matched),
        other => panic!("unexpected action {:?}", other),
    }
}

#[test]
fn failed_login_finishes_the_task_with_the_failure() {
    let req = request(true);
    let (state, _) = url_task_step(&req, UrlTaskState::Idle, UrlTaskEvent::Started);
    let (state, action) = url_task_step(
        &req,
        state,
        UrlTaskEvent::LoggedIn(Err(AppError::AuthError("refused".to_string()))),
    );
    assert!(matches!(state, UrlTaskState::Finished));
    match action {
        UrlTaskAction::Finish(Err(AppError::AuthError(message))) => assert_eq!(message, "refused"),
        other => panic!("unexpected action {:?}", other),
    }
}

#[test]
fn failed_fetch_finishes_the_task_with_the_failure() {
    let req = request(false);
    let (state, _) = url_task_step(&req, UrlTaskState::Idle, UrlTaskEvent::Started);
    let (state, action) = url_task_step(
        &req,
        state,
        UrlTaskEvent::Fetched(Err(AppError::HttpError("down".to_string()))),
    );
    assert!(matches!(state, UrlTaskState::Finished));
    assert!(matches!(action, UrlTaskAction::Finish(Err(AppError::HttpError(_)))));

    let (state, _) = url_task_step(&req, UrlTaskState::Idle, UrlTaskEvent::Started);
    let (state, _) = url_task_step(&req, state, UrlTaskEvent::Fetched(Ok("<a/>".to_string())));
    let (state, action) = url_task_step(
        &req,
        state,
        UrlTaskEvent::Fetched(Err(AppError::InternalError("404".to_string()))),
    );
    assert!(matches!(state, UrlTaskState::Finished));
    assert!(matches!(action, UrlTaskAction::Finish(Err(AppError::InternalError(_)))));
}

#[test]
fn malformed_document_finishes_the_task_with_a_parse_failure() {
    let req = request(false);
    let (state, _) = url_task_step(&req, UrlTaskState::Idle, UrlTaskEvent::Started);
    let (state, _) = url_task_step(&req, state, UrlTaskEvent::Fetched(Ok("<a></b>".to_string())));
    let (_, action) = url_task_step(&req, state, UrlTaskEvent::Fetched(Ok("<a/>".to_string())));
    assert!(matches!(action, UrlTaskAction::Finish(Err(AppError::XmlParseError(_)))));
}

#[test]
fn event_out_of_turn_finishes_the_task() {
    let req = request(false);
    let (state, action) =
        url_task_step(&req, UrlTaskState::Idle, UrlTaskEvent::Fetched(Ok("<a/>".to_string())));
    assert!(matches!(state, UrlTaskState::Finished));
    match action {
        UrlTaskAction::Finish(Err(AppError::InternalError(message))) => {
            assert_eq!(message, "Unexpected event for the state of the comparison")
        }
        other => panic!("unexpected action {:?}", other),
    }
    let (_, action) = url_task_step(&req, UrlTaskState::Finished, UrlTaskEvent::Started);
    assert!(matches!(action, UrlTaskAction::Finish(Err(AppError::InternalError(_)))));
    let (_, action) = url_task_step(
        &req,
        UrlTaskState::LoggingIn,
        UrlTaskEvent::Fetched(Ok("<a/>".to_string())),
    );
    assert!(matches!(action, UrlTaskAction::Finish(Err(AppError::InternalError(_)))));
}

#[test]
fn clone_rules_copies_the_list() {
    assert_eq!(clone_rules(&None), None);
    let rules = Some(vec!["a".to_string(), "b".to_string()]);
    assert_eq!(clone_rules(&rules), rules);
    assert_eq!(clone_rules(&Some(vec![])), Some(vec![]));
}
