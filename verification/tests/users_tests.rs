use rust_crud_api::cache::{invalidations, UserWrite};
use rust_crud_api::read_through::{read_through_step, ReadAction, ReadEvent, ReadStage};
use rust_crud_api::cache::{is_pong, list_cache_key, list_cache_pattern, list_uses_cache, user_cache_key};
use rust_crud_api::errors::ApiError;
use rust_crud_api::health::{get_requests_total, health_response, increment_requests, metrics_response, RequestCounter};
use rust_crud_api::models::{CreateUserRequest, ListQuery, User};
use rust_crud_api::repository::merge_update;
use rust_crud_api::users::{prepare_password_update, prepare_user, validate_create_request};

fn req(email: &str, username: &str, password: &str) -> CreateUserRequest {
    CreateUserRequest { email: email.into(), username: username.into(), password: password.into() }
}

fn bad(r: Result<(), ApiError>) -> String {
    match r {
        Err(ApiError::BadRequest(m)) => m,
        other => panic!("unexpected {:?}", other),
    }
}

#[test]
fn validation_rules() {
    assert!(validate_create_request(&req("a@b", "abc", "12345678")).is_ok());
    assert_eq!(bad(validate_create_request(&req("", "abc", "12345678"))), "Invalid email format");
    assert_eq!(bad(validate_create_request(&req("ab", "abc", "12345678"))), "Invalid email format");
    assert_eq!(bad(validate_create_request(&req("a@b", "ab", "12345678"))), "Username must be between 3 and 50 characters");
    assert_eq!(bad(validate_create_request(&req("a@b", &"x".repeat(51), "12345678"))), "Username must be between 3 and 50 characters");
    assert!(validate_create_request(&req("a@b", &"x".repeat(50), "12345678")).is_ok());
    assert_eq!(bad(validate_create_request(&req("a@b", "abc", "1234567"))), "Password must be at least 8 characters");
    // lengths are counted in bytes: two two-byte characters make four bytes
    assert!(validate_create_request(&req("a@b", "éé", "12345678")).is_ok());
    assert!(validate_create_request(&req("a@b", "abc", "éééé")).is_ok());
    // the e-mail check comes first
    assert_eq!(bad(validate_create_request(&req("x", "a", "1"))), "Invalid email format");
}

#[test]
fn prepared_user_keeps_request_and_hashes() {
    let u = prepare_user(req("a@b", "abc", "12345678")).unwrap();
    assert_eq!(u.email, "a@b");
    assert_eq!(u.username, "abc");
    assert_eq!(u.created_at, u.updated_at);
    assert!(u.password_hash.starts_with("$argon2id$"));
    assert!(matches!(prepare_user(req("a@b", "abc", "short")), Err(ApiError::BadRequest(_))));
}

#[test]
fn password_update() {
    assert!(matches!(prepare_password_update(None), Ok(None)));
    assert!(matches!(prepare_password_update(Some("newpassword".into())), Ok(Some(h)) if h.starts_with("$argon2id$")));
}

#[test]
fn merge_update_keeps_missing_fields() {
    let u = User { id: 1, email: "e".into(), username: "u".into(), password_hash: "h".into(), created_at: 0, updated_at: 0 };
    assert_eq!(merge_update(&u, None, None, None), ("e".into(), "u".into(), "h".into()));
    assert_eq!(merge_update(&u, Some("E".into()), None, Some("H".into())), ("E".into(), "u".into(), "H".into()));
}

#[test]
fn cache_keys() {
    assert_eq!(user_cache_key(255), "user:00000000-0000-0000-0000-0000000000ff");
    assert_eq!(list_cache_key(None, 20), "users:list:none:20");
    assert_eq!(list_cache_key(Some("abc"), -3), "users:list:abc:-3");
    assert_eq!(list_cache_pattern(), "users:list:*");
    assert!(list_cache_key(Some("x"), 1).starts_with(&list_cache_pattern()[..11]));
    assert!(!user_cache_key(1).starts_with(&list_cache_pattern()[..11]));
    assert!(list_uses_cache(&None));
    assert!(!list_uses_cache(&Some("c".into())));
}

#[test]
fn health_reports() {
    let h = health_response(true, None);
    assert_eq!((h.status.as_str(), h.database.as_str(), h.redis.as_str()), ("ok", "healthy", "not_configured"));
    let h = health_response(false, Some(true));
    assert_eq!((h.database.as_str(), h.redis.as_str()), ("unhealthy", "healthy"));
    let h = health_response(true, Some(false));
    assert_eq!(h.redis, "unhealthy");
    assert!(is_pong("PONG"));
    assert!(!is_pong("pong"));
}

#[test]
fn request_counter() {
    let mut c = RequestCounter::new();
    assert_eq!(get_requests_total(&c), 0);
    increment_requests(&mut c);
    increment_requests(&mut c);
    assert_eq!(get_requests_total(&c), 2);
    assert_eq!(metrics_response(&c).requests_total, 2);
}

#[test]
fn list_query_defaults() {
    let q = ListQuery::default();
    assert!(q.cursor.is_none());
    assert_eq!(q.limit, Some(20));
    assert_eq!(q.limit_or_default(), 20);
    assert_eq!(ListQuery { cursor: None, limit: None }.limit_or_default(), 20);
    assert_eq!(ListQuery { cursor: None, limit: Some(5) }.limit_or_default(), 5);
}

#[test]
fn write_invalidations() {
    assert_eq!(invalidations(&UserWrite::Create), (None, "users:list:*".to_string()));
    assert_eq!(
        invalidations(&UserWrite::Update(1)),
        (Some("user:00000000-0000-0000-0000-000000000001".to_string()), "users:list:*".to_string())
    );
    assert_eq!(invalidations(&UserWrite::Delete(2)).0.as_deref(), Some("user:00000000-0000-0000-0000-000000000002"));
}

#[test]
fn read_through_protocol() {
    // with a cache: hit
    let (s, a) = read_through_step(ReadStage::Start, true, ReadEvent::Begin);
    assert_eq!((s, a), (ReadStage::AwaitingCache, Some(ReadAction::LookUpCache)));
    assert_eq!(read_through_step(s, true, ReadEvent::CacheHit), (ReadStage::Finished, Some(ReadAction::ReturnCached)));
    // with a cache: miss, query, store
    let (s, a) = read_through_step(ReadStage::AwaitingCache, true, ReadEvent::CacheMiss);
    assert_eq!(a, Some(ReadAction::RunQuery));
    let (s, a) = read_through_step(s, true, ReadEvent::QueryOk);
    assert_eq!((s, a), (ReadStage::AwaitingStore, Some(ReadAction::StoreResult)));
    assert_eq!(read_through_step(s, true, ReadEvent::Stored), (ReadStage::Finished, Some(ReadAction::ReturnQueried)));
    // without a cache
    let (s, a) = read_through_step(ReadStage::Start, false, ReadEvent::Begin);
    assert_eq!((s, a), (ReadStage::AwaitingQuery, Some(ReadAction::RunQuery)));
    assert_eq!(read_through_step(s, false, ReadEvent::QueryOk), (ReadStage::Finished, Some(ReadAction::ReturnQueried)));
    assert_eq!(read_through_step(s, false, ReadEvent::QueryErr), (ReadStage::Finished, Some(ReadAction::ReturnError)));
    // an event that cannot come ends the read
    assert_eq!(read_through_step(ReadStage::Start, true, ReadEvent::Stored), (ReadStage::Finished, None));
}

#[test]
fn default_hash_records_its_cost() {
    let u = prepare_user(req("a@b", "abc", "12345678")).unwrap();
    assert!(u.password_hash.starts_with("$argon2id$v=19$m=19456,t=2,p=1$"));
    let h = prepare_password_update(Some("another password".into())).unwrap().unwrap();
    assert!(h.starts_with("$argon2id$v=19$m=19456,t=2,p=1$"));
    assert_ne!(h, prepare_password_update(Some("another password".into())).unwrap().unwrap());
}
