use xml_compare_api::error::AppError;
use xml_compare_api::models::LoginRequest;
use xml_compare_api::session::{AuthService, Session, SessionStore, SESSION_LIFETIME_MS};
use xml_compare_api::text::clone_texts;

fn session(id: &str, now: i64) -> Session {
    Session::opened(
        id.to_string(),
        "http://host/login".to_string(),
        vec!["session=abc123; HttpOnly".to_string()],
        now,
    )
}

fn login_request(url: &str) -> LoginRequest {
    LoginRequest { url: url.to_string(), username: "test".to_string(), password: "password".to_string() }
}

fn ids(store: &SessionStore) -> Vec<String> {
    store.sessions.iter().map(|s| s.id.clone()).collect()
}

#[test]
fn session_expires_one_hour_after_it_was_opened() {
    let s = session("id-1", 1_000);
    assert_eq!(SESSION_LIFETIME_MS, 3_600_000);
    assert_eq!(s.id, "id-1");
    assert_eq!(s.url, "http://host/login");
    assert_eq!(s.cookies, vec!["session=abc123; HttpOnly"]);
    assert_eq!(s.created_at, 1_000);
    assert_eq!(s.expires_at, 3_601_000);
}

#[test]
fn session_is_expired_strictly_after_its_expiry() {
    let s = session("id-1", 1_000);
    assert!(!s.is_expired_at(1_000));
    assert!(!s.is_expired_at(3_600_999));
    assert!(!s.is_expired_at(3_601_000));
    assert!(s.is_expired_at(3_601_001));
}

#[test]
fn new_session_is_fresh_and_not_expired() {
    let a = Session::new("http://a".to_string(), vec!["c=1".to_string()]).unwrap();
    let b = Session::new("http://a".to_string(), vec![]).unwrap();
    assert!(!a.id.is_empty());
    assert_ne!(a.id, b.id);
    assert_eq!(a.url, "http://a");
    assert_eq!(a.cookies, vec!["c=1"]);
    assert_eq!(a.expires_at, a.created_at + SESSION_LIFETIME_MS);
    assert!(a.created_at > 1_600_000_000_000);
    assert!(!a.is_expired());
}

#[test]
fn duplicate_and_login_response_copy_the_session() {
    let s = session("id-1", 5);
    let copy = s.duplicate();
    assert_eq!(copy.id, s.id);
    assert_eq!(copy.url, s.url);
    assert_eq!(copy.cookies, s.cookies);
    assert_eq!(copy.created_at, s.created_at);
    assert_eq!(copy.expires_at, s.expires_at);
    let response = s.login_response();
    assert_eq!(response.session_id, "id-1");
    assert_eq!(response.cookies, vec!["session=abc123; HttpOnly"]);
    assert_eq!(response.expires_at, 3_600_005);
    assert_eq!(clone_texts(&vec!["a".to_string(), "b".to_string()]), vec!["a", "b"]);
}

#[test]
fn store_holds_each_session_under_its_identifier() {
    let mut store = SessionStore::new();
    store.insert(session("a", 1));
    store.insert(session("b", 2));
    store.insert(session("a", 3));
    assert_eq!(ids(&store), vec!["a", "b"]);
    assert_eq!(store.get(&"a".to_string()).unwrap().created_at, 3);
    assert_eq!(store.get(&"b".to_string()).unwrap().created_at, 2);
    assert!(store.get(&"c".to_string()).is_none());
    assert_eq!(store.position(&"b".to_string()), Some(1));
    store.remove(&"a".to_string());
    store.remove(&"zzz".to_string());
    assert_eq!(ids(&store), vec!["b"]);
}

#[test]
fn store_drops_expired_sessions_and_keeps_the_order() {
    let mut store = SessionStore::new();
    store.insert(session("old", 0));
    store.insert(session("edge", 1_000));
    store.insert(session("older", -5));
    store.insert(session("new", 2_000));
    store.remove_expired(3_601_000);
    assert_eq!(ids(&store), vec!["edge", "new"]);
    store.remove_expired(3_601_001);
    assert_eq!(ids(&store), vec!["new"]);
    store.remove_expired(i64::MAX);
    assert!(store.sessions.is_empty());
}

#[test]
fn test_login_invalid_url() {
    let mut auth_service = AuthService::new();
    let request = login_request("invalid-url");
    assert!(auth_service.check_login(&request).is_err());
    let result = auth_service.login(&request, Ok(session("s", 0)));
    match result {
        Err(AppError::InvalidUrl(url)) => assert_eq!(url, "invalid-url"),
        other => panic!("unexpected {:?}", other),
    }
    assert!(auth_service.session_store.sessions.is_empty());
}

#[test]
fn test_session_retrieval() {
    let auth_service = AuthService::new();
    let result = auth_service.get_session("non-existent");
    assert!(result.is_ok());
    assert!(result.unwrap().is_none());
}

#[test]
fn login_stores_the_session_and_tells_the_client() {
    let mut auth_service = AuthService::new();
    let request = login_request("https://host/login");
    assert!(auth_service.check_login(&request).is_ok());
    let response = auth_service.login(&request, Ok(session("s-1", 10))).unwrap();
    assert_eq!(response.session_id, "s-1");
    assert!(!response.cookies.is_empty());
    assert_eq!(response.expires_at, 3_600_010);
    let held = auth_service.get_session("s-1").unwrap().unwrap();
    assert_eq!(held.id, "s-1");
    assert!(auth_service.logout("s-1").is_ok());
    assert!(auth_service.get_session("s-1").unwrap().is_none());
    assert!(auth_service.logout("s-1").is_ok());
}

#[test]
fn failed_authentication_fails_the_login_and_stores_nothing() {
    let mut auth_service = AuthService::new();
    let request = login_request("http://host/login");
    let result = auth_service.login(&request, Err(AppError::AuthError("no".to_string())));
    assert!(matches!(result, Err(AppError::AuthError(_))));
    assert!(auth_service.session_store.sessions.is_empty());
}

#[test]
fn valid_urls_begin_with_a_scheme() {
    let auth_service = AuthService::new();
    assert!(auth_service.is_valid_url("http://a"));
    assert!(auth_service.is_valid_url("https://a"));
    assert!(!auth_service.is_valid_url("ftp://a"));
    assert!(!auth_service.is_valid_url("invalid-url"));
}

#[test]
fn cleanup_drops_sessions_that_expired_long_ago() {
    let mut auth_service = AuthService::new();
    auth_service.session_store.insert(session("ancient", 0));
    auth_service.session_store.insert(Session::new("http://a".to_string(), vec![]).unwrap());
    auth_service.cleanup_expired_sessions();
    assert_eq!(auth_service.session_store.sessions.len(), 1);
    assert_eq!(auth_service.session_store.sessions[0].url, "http://a");
}

#[test]
fn open_at_gives_the_session_where_its_expiry_can_be_held() {
    let last = i64::MAX - SESSION_LIFETIME_MS;
    let s = Session::open_at("id".to_string(), "http://a".to_string(), vec!["c=1".to_string()], last)
        .unwrap();
    assert_eq!(s.id, "id");
    assert_eq!(s.url, "http://a");
    assert_eq!(s.cookies, vec!["c=1"]);
    assert_eq!(s.created_at, last);
    assert_eq!(s.expires_at, i64::MAX);
    assert!(!s.is_expired());
    let early = Session::open_at("id".to_string(), "u".to_string(), vec![], i64::MIN).unwrap();
    assert_eq!(early.expires_at, i64::MIN + SESSION_LIFETIME_MS);
    assert!(early.is_expired());
}

#[test]
fn open_at_gives_none_within_an_hour_of_the_last_time() {
    let last = i64::MAX - SESSION_LIFETIME_MS;
    assert!(Session::open_at("id".to_string(), "u".to_string(), vec![], last + 1).is_none());
    assert!(Session::open_at("id".to_string(), "u".to_string(), vec![], i64::MAX).is_none());
}
