//! Cursor-based pagination: opaque cursors, cutting a page from the rows
//! the database returned, and the page sent to the client.

use vstd::prelude::*;
use vstd::utf8::encode_utf8;

use crate::codec::{base64_url_decode, base64_url_encode, base64_url_encoded, json_quote, json_quoted, url_safe_char};
use crate::ids::{parse_uuid, uuid_parsed, uuid_text, uuid_to_string};
use crate::models::{PaginatedUsersResponse, UserResponse};
use crate::text::{push_i64, push_str, signed_decimal};

verus! {

/// A position in a listing: a creation time and the id there.
#[derive(Debug)]
pub struct Cursor {
    pub timestamp: i64,
    pub id: String,
}

/// `{"timestamp":T,"id":"ID"}`: the cursor as compact JSON, the id
/// written as `serde_json` writes a string.
pub open spec fn cursor_json(c: Cursor) -> Seq<char> {
    "{\"timestamp\":"@ + signed_decimal(c.timestamp as int) + ",\"id\":"@ + json_quoted(c.id@) + "}"@
}

/// The UTF-8 bytes of the cursor's JSON.
pub open spec fn cursor_bytes(c: Cursor) -> Seq<u8> {
    encode_utf8(cursor_json(c))
}

/// The opaque text handed to clients for a cursor.
pub open spec fn cursor_token(c: Cursor) -> Seq<char> {
    base64_url_encoded(cursor_bytes(c))
}

impl Cursor {
    /// The cursor's JSON in URL-safe unpadded Base64: only letters,
    /// digits, `-` and `_`.
    pub fn encode(&self) -> (r: String)
        requires
            cursor_bytes(*self).len() <= isize::MAX,
        ensures
            r@ == cursor_token(*self),
            forall|i: int| 0 <= i < r@.len() ==> url_safe_char(#[trigger] r@[i]),
    {
        let mut json = String::new();
        push_str(&mut json, "{\"timestamp\":");
        push_i64(&mut json, self.timestamp);
        push_str(&mut json, ",\"id\":");
        let quoted = json_quote(self.id.as_str());
        push_str(&mut json, quoted.as_str());
        push_str(&mut json, "}");
        assert(json@ =~= cursor_json(*self));
        base64_url_encode(json.as_str().as_bytes())
    }

    /// The JSON bytes inside an encoded cursor, or `None` when `encoded`
    /// is not URL-safe unpadded Base64. The text that `encode` wrote for a
    /// cursor gives back that cursor's JSON.
    pub fn decode_payload(encoded: &str) -> (r: Option<Vec<u8>>)
        ensures
            match r {
                Some(v) => crate::codec::base64_url_decoded(encoded@) == Some(v@),
                None => crate::codec::base64_url_decoded(encoded@) is None,
            },
            forall|c: Cursor| encoded@ == #[trigger] cursor_token(c) ==> r is Some && r.unwrap()@ == cursor_bytes(c),
    {
        base64_url_decode(encoded)
    }
}

/// Whether the database returned more rows than the page holds (the
/// query asks for one row more than the limit).
pub open spec fn has_more_rows(rows: Seq<UserResponse>, limit: i64) -> bool {
    rows.len() > (limit as usize)
}

/// The users of the page: the rows without the extra one, when there is one.
pub open spec fn page_rows(rows: Seq<UserResponse>, limit: i64) -> Seq<UserResponse> {
    if has_more_rows(rows, limit) {
        rows.drop_last()
    } else {
        rows
    }
}

/// The cursor of the next page: the id of the page's last user, when more
/// rows exist and the page is not empty.
pub open spec fn next_cursor_of(rows: Seq<UserResponse>, limit: i64) -> Option<Seq<char>> {
    let page = page_rows(rows, limit);
    if has_more_rows(rows, limit) && page.len() > 0 {
        Some(uuid_text(page.last().id))
    } else {
        None
    }
}

/// The number of rows to ask the database for: one more than the limit.
pub fn page_query_limit(limit: i64) -> (r: i64)
    requires
        limit < i64::MAX,
    ensures
        r == limit + 1,
{
    limit + 1
}

/// The id named by a listing cursor, when the cursor is a UUID; the text
/// written for an id reads back as that id.
pub fn cursor_user_id(cursor: Option<String>) -> (r: Option<u128>)
    ensures
        match cursor {
            None => r is None,
            Some(c) => r == uuid_parsed(c@) && forall|id: u128| c@ == #[trigger] uuid_text(id) ==> r == Some(id),
        },
{
    match cursor {
        None => None,
        Some(c) => parse_uuid(c.as_str()),
    }
}

/// Cuts a page from the rows the database returned for `limit + 1`: the
/// extra row is dropped, and the next cursor is the id of the last user
/// kept.
pub fn paginate(rows: Vec<UserResponse>, limit: i64) -> (r: (Vec<UserResponse>, Option<String>))
    ensures
        r.0@ == page_rows(rows@, limit),
        match r.1 {
            Some(c) => next_cursor_of(rows@, limit) == Some(c@),
            None => next_cursor_of(rows@, limit) is None,
        },
{
    let has_more = rows.len() > limit as usize;
    let mut users = rows;
    if has_more {
        users.pop();
    }
    let next_cursor = if has_more && users.len() > 0 {
        Some(uuid_to_string(users[users.len() - 1].id))
    } else {
        None
    };
    (users, next_cursor)
}

/// The page sent to the client; `has_more` says whether a next cursor exists.
pub fn page_response(data: Vec<UserResponse>, next_cursor: Option<String>) -> (r: PaginatedUsersResponse)
    ensures
        r.data@ == data@,
        r.next_cursor == next_cursor,
        r.has_more == next_cursor is Some,
{
    let has_more = next_cursor.is_some();
    PaginatedUsersResponse { data, next_cursor, has_more }
}

/// A page never holds more users than the limit, when the database
/// returned at most one row more than the limit; more rows exist exactly
/// when it returned that extra row; and when a next cursor is given it
/// names the last user of the page.
pub proof fn law_page_bounds(rows: Seq<UserResponse>, limit: i64)
    requires
        0 <= limit,
        limit as int <= usize::MAX,
        rows.len() <= limit + 1,
    ensures
        page_rows(rows, limit).len() <= limit,
        has_more_rows(rows, limit) <==> rows.len() == limit + 1,
        next_cursor_of(rows, limit) matches Some(c) ==> c == uuid_text(page_rows(rows, limit).last().id),
        (next_cursor_of(rows, limit) is Some) ==> page_rows(rows, limit).len() == limit,
{
}

/// A listing with limit zero reports more rows without a cursor when the
/// database returned a row: the page is empty and no cursor can be made.
pub proof fn law_zero_limit(rows: Seq<UserResponse>)
    requires
        rows.len() == 1,
    ensures
        has_more_rows(rows, 0),
        page_rows(rows, 0).len() == 0,
        next_cursor_of(rows, 0) is None,
{
}

/// No id occurs twice among the rows.
pub open spec fn distinct_ids(t: Seq<UserResponse>) -> bool {
    forall|i: int, j: int| 0 <= i < j < t.len() ==> #[trigger] t[i].id != #[trigger] t[j].id
}

/// Where the row with id `id` stands in `t` (when it is there).
pub open spec fn position_of(t: Seq<UserResponse>, id: u128) -> int {
    choose|i: int| 0 <= i < t.len() && #[trigger] t[i].id == id
}

/// The rows a listing query returns from `t`, the table in listing order
/// (newest first, then larger id first): from position `start`, at most
/// `fetch` of them.
pub open spec fn rows_from(t: Seq<UserResponse>, start: int, fetch: int) -> Seq<UserResponse> {
    if start + fetch < t.len() {
        t.subrange(start, start + fetch)
    } else {
        t.subrange(start, t.len() as int)
    }
}

/// Where the query after the cursor row with id `id` starts: just past
/// that row, since the keyset condition `(created_at, id) < (..)` keeps
/// exactly the rows listed after it.
pub open spec fn start_after(t: Seq<UserResponse>, id: u128) -> int {
    position_of(t, id) + 1
}

/// The users that listing `t` page by page gives from position `k` on:
/// each page is cut by `paginate` from `limit + 1` rows, and the next
/// query starts after the row that the next cursor names.
pub open spec fn pages_from(t: Seq<UserResponse>, limit: i64, k: int) -> Seq<UserResponse>
    decreases t.len() - k,
{
    let rows = rows_from(t, k, limit + 1);
    let page = page_rows(rows, limit);
    if next_cursor_of(rows, limit) is Some && k < start_after(t, page.last().id) <= t.len() {
        page + pages_from(t, limit, start_after(t, page.last().id))
    } else {
        page
    }
}

/// One step of a listing: from position `k`, the page is the next
/// `limit` rows (or what is left), a next cursor is given exactly when
/// rows remain after the page, and it names the page's last row, so the
/// next query starts right after the page.
pub proof fn law_listing_step(t: Seq<UserResponse>, limit: i64, k: int)
    requires
        distinct_ids(t),
        1 <= limit < i64::MAX,
        limit <= usize::MAX,
        0 <= k <= t.len(),
    ensures
        page_rows(rows_from(t, k, limit + 1), limit) == rows_from(t, k, limit as int),
        (next_cursor_of(rows_from(t, k, limit + 1), limit) is Some) <==> k + limit < t.len(),
        k + limit < t.len() ==> {
            &&& next_cursor_of(rows_from(t, k, limit + 1), limit) == Some(uuid_text(t[k + limit - 1].id))
            &&& start_after(t, t[k + limit - 1].id) == k + limit
        },
{
    let rows = rows_from(t, k, limit + 1);
    if k + limit < t.len() {
        assert(rows.len() == limit + 1);
        assert(rows.drop_last() =~= t.subrange(k, k + limit));
        let j = k + limit - 1;
        let id = t[j].id;
        assert(0 <= j < t.len() && t[j].id == id);
        let p = position_of(t, id);
        assert(p == j) by {
            if p < j {
                assert(t[p].id != t[j].id);
            } else if p > j {
                assert(t[j].id != t[p].id);
            }
        }
        assert(page_rows(rows, limit).last() == t[j]);
    } else {
        assert(rows.len() <= limit);
        assert(rows =~= rows_from(t, k, limit as int));
    }
}

/// Listing a table page by page, from the first page and following each
/// next cursor, gives every user once, in listing order: the pages put
/// together are the table.
pub proof fn law_pages_cover_listing(t: Seq<UserResponse>, limit: i64)
    requires
        distinct_ids(t),
        1 <= limit < i64::MAX,
        limit <= usize::MAX,
    ensures
        pages_from(t, limit, 0) == t,
{
    lemma_pages_from(t, limit, 0);
    assert(t.subrange(0, t.len() as int) =~= t);
}

proof fn lemma_pages_from(t: Seq<UserResponse>, limit: i64, k: int)
    requires
        distinct_ids(t),
        1 <= limit < i64::MAX,
        limit <= usize::MAX,
        0 <= k <= t.len(),
    ensures
        pages_from(t, limit, k) == t.subrange(k, t.len() as int),
    decreases t.len() - k,
{
    law_listing_step(t, limit, k);
    let rows = rows_from(t, k, limit + 1);
    let page = page_rows(rows, limit);
    if k + limit < t.len() {
        assert(page.last() == t[k + limit - 1]);
        lemma_pages_from(t, limit, k + limit);
        assert(page + t.subrange(k + limit, t.len() as int) =~= t.subrange(k, t.len() as int));
    } else {
        assert(page =~= t.subrange(k, t.len() as int));
    }
}

/// How many queries listing `t` page by page takes from position `k` on,
/// following next cursors until none is given.
pub open spec fn pages_needed(t: Seq<UserResponse>, limit: i64, k: int) -> nat
    decreases t.len() - k,
{
    let rows = rows_from(t, k, limit + 1);
    let page = page_rows(rows, limit);
    if next_cursor_of(rows, limit) is Some && k < start_after(t, page.last().id) <= t.len() {
        1 + pages_needed(t, limit, start_after(t, page.last().id))
    } else {
        1
    }
}

/// Listing a table page by page takes one query for an empty table and
/// otherwise as many as it has users divided by the limit, rounded up.
pub proof fn law_listing_query_count(t: Seq<UserResponse>, limit: i64)
    requires
        distinct_ids(t),
        1 <= limit < i64::MAX,
        limit <= usize::MAX,
    ensures
        pages_needed(t, limit, 0) == if t.len() == 0 { 1 } else { (t.len() + limit - 1) / (limit as int) },
{
    lemma_pages_needed(t, limit, 0);
}

proof fn lemma_pages_needed(t: Seq<UserResponse>, limit: i64, k: int)
    requires
        distinct_ids(t),
        1 <= limit < i64::MAX,
        limit <= usize::MAX,
        0 <= k <= t.len(),
    ensures
        pages_needed(t, limit, k) == if k == t.len() { 1 } else { (t.len() - k + limit - 1) / (limit as int) },
    decreases t.len() - k,
{
    law_listing_step(t, limit, k);
    let n = t.len() - k;
    let l = limit as int;
    if k + limit < t.len() {
        let page = page_rows(rows_from(t, k, limit + 1), limit);
        assert(page.last() == t[k + limit - 1]);
        lemma_pages_needed(t, limit, k + limit);
        assert((n - l + l - 1) / l + 1 == (n + l - 1) / l) by (nonlinear_arith)
            requires
                l >= 1,
                n > l,
        {
            assert(n + l - 1 == (n - l + l - 1) + l);
        }
    } else if n > 0 {
        assert((n + l - 1) / l == 1) by (nonlinear_arith)
            requires
                l >= 1,
                1 <= n <= l,
        ;
    }
}

} // verus!
