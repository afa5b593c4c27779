use rust_crud_api::models::UserResponse;
use rust_crud_api::pagination::{cursor_user_id, page_query_limit, page_response, paginate, Cursor};

fn user(id: u128) -> UserResponse {
    UserResponse { id, email: format!("u{}@x", id), username: format!("u{}", id), created_at: 0, updated_at: 0 }
}

#[test]
fn cursor_encodes_as_base64_json() {
    let c = Cursor { timestamp: 5, id: "a".to_string() };
    assert_eq!(c.encode(), "eyJ0aW1lc3RhbXAiOjUsImlkIjoiYSJ9");
}

#[test]
fn cursor_encoding_escapes_json() {
    let c = Cursor { timestamp: -12, id: "q\"\u{1}".to_string() };
    assert_eq!(c.encode(), "eyJ0aW1lc3RhbXAiOi0xMiwiaWQiOiJxXCJcdTAwMDEifQ");
}

#[test]
fn cursor_round_trip_payload() {
    let c = Cursor { timestamp: i64::MIN, id: "é/\\\n".to_string() };
    let enc = c.encode();
    let payload = Cursor::decode_payload(&enc).unwrap();
    let expected = format!("{{\"timestamp\":{},\"id\":\"é/\\\\\\n\"}}", i64::MIN);
    assert_eq!(String::from_utf8(payload).unwrap(), expected);
}

#[test]
fn cursor_decode_rejects_bad_text() {
    assert!(Cursor::decode_payload("not base64!").is_none());
    assert!(Cursor::decode_payload("eyJ0aW1lc3RhbXAiOjUsImlkIjoiYSJ9==").is_none());
}

#[test]
fn page_with_more_rows() {
    let rows = vec![user(3), user(2), user(1)];
    let (page, next) = paginate(rows, 2);
    assert_eq!(page.len(), 2);
    assert_eq!(page[1].id, 2);
    assert_eq!(next.as_deref(), Some("00000000-0000-0000-0000-000000000002"));
    assert_eq!(cursor_user_id(next), Some(2));
}

#[test]
fn page_without_more_rows() {
    let (page, next) = paginate(vec![user(1), user(2)], 2);
    assert_eq!(page.len(), 2);
    assert_eq!(next, None);
    let (page, next) = paginate(vec![], 20);
    assert!(page.is_empty());
    assert_eq!(next, None);
}

#[test]
fn page_with_zero_limit() {
    let (page, next) = paginate(vec![user(9)], 0);
    assert!(page.is_empty());
    assert_eq!(next, None);
}

#[test]
fn page_with_negative_limit_keeps_rows() {
    let (page, next) = paginate(vec![user(1), user(2)], -1);
    assert_eq!(page.len(), 2);
    assert_eq!(next, None);
}

#[test]
fn query_limit_is_one_more() {
    assert_eq!(page_query_limit(20), 21);
    assert_eq!(page_query_limit(-1), 0);
}

#[test]
fn cursor_ids() {
    assert_eq!(cursor_user_id(None), None);
    assert_eq!(cursor_user_id(Some("nope".to_string())), None);
    assert_eq!(
        cursor_user_id(Some("67e55044-10b1-426f-9247-bb680e5fe0c8".to_string())),
        Some(0x67e5504410b1426f9247bb680e5fe0c8)
    );
}

#[test]
fn page_response_has_more_follows_cursor() {
    let r = page_response(vec![user(1)], Some("c".to_string()));
    assert!(r.has_more);
    assert_eq!(r.data.len(), 1);
    let r = page_response(vec![], None);
    assert!(!r.has_more);
}

#[test]
fn cursor_text_is_url_safe() {
    for id in ["a", "??>>??", "ÿþ/+=", ""] {
        let enc = Cursor { timestamp: 1_700_000_000_123, id: id.to_string() }.encode();
        assert!(enc.chars().all(|c| c.is_ascii_alphanumeric() || c == '-' || c == '_'));
    }
}

#[test]
fn following_cursors_lists_every_user_once() {
    // the table in listing order: newest first
    let table: Vec<UserResponse> = (0..5u128).rev().map(|i| user(i + 10)).collect();
    let limit: i64 = 2;
    let mut seen: Vec<u128> = Vec::new();
    let mut cursor: Option<String> = None;
    let mut pages = 0;
    loop {
        let start = match cursor_user_id(cursor.clone()) {
            None => 0,
            Some(id) => table.iter().position(|u| u.id == id).unwrap() + 1,
        };
        let fetch = page_query_limit(limit) as usize;
        let rows: Vec<UserResponse> = table.iter().skip(start).take(fetch).map(|u| user(u.id)).collect();
        let (page, next) = paginate(rows, limit);
        pages += 1;
        seen.extend(page.iter().map(|u| u.id));
        match next {
            Some(c) => cursor = Some(c),
            None => break,
        }
    }
    assert_eq!(pages, 3);
    assert_eq!(seen, table.iter().map(|u| u.id).collect::<Vec<_>>());
}
