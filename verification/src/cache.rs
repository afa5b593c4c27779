//! The read-through cache: its keys, when it is used, and the handle to
//! the Redis connection with the entry lifetime.

use redis::aio::ConnectionManager;
use vstd::prelude::*;

use crate::ids::{uuid_text, uuid_to_string};
use crate::text::{lemma_signed_decimal_chars, lemma_signed_decimal_injective, push_i64, push_str, signed_decimal, str_eq};

verus! {

/// `redis::aio::ConnectionManager`, carried opaquely.
#[verifier::external_type_specification]
#[verifier::external_body]
pub struct ExConnectionManager(ConnectionManager);

/// The cache key of one user: `user:ID`.
pub open spec fn user_key(id: u128) -> Seq<char> {
    "user:"@ + uuid_text(id)
}

/// The cache key of a page of users: `users:list:CURSOR:LIMIT`, with
/// `none` for the first page.
pub open spec fn list_key(cursor: Option<Seq<char>>, limit: i64) -> Seq<char> {
    "users:list:"@ + (match cursor { Some(c) => c, None => "none"@ }) + ":"@ + signed_decimal(limit as int)
}

/// The fixed part of the pattern that removes every cached page.
pub open spec fn list_prefix() -> Seq<char> {
    "users:list:"@
}

/// Whether `key` matches the glob `PREFIX*`.
pub open spec fn matches_prefix_glob(prefix: Seq<char>, key: Seq<char>) -> bool {
    key.len() >= prefix.len() && key.take(prefix.len() as int) == prefix
}

/// The text that stands for a page's cursor in its key: the cursor, or
/// `none` for the first page.
pub open spec fn cursor_part(cursor: Option<Seq<char>>) -> Seq<char> {
    match cursor {
        Some(c) => c,
        None => "none"@,
    }
}

/// Two pages share a cache key only when they have the same limit and the
/// same cursor text: pages of different limits, or after different
/// cursors, never answer for each other.
pub proof fn law_list_keys_distinct(c1: Option<Seq<char>>, l1: i64, c2: Option<Seq<char>>, l2: i64)
    requires
        list_key(c1, l1) == list_key(c2, l2),
    ensures
        l1 == l2,
        cursor_part(c1) == cursor_part(c2),
{
    let k = list_key(c1, l1);
    let a1 = "users:list:"@ + cursor_part(c1) + ":"@;
    let a2 = "users:list:"@ + cursor_part(c2) + ":"@;
    let d1 = signed_decimal(l1 as int);
    let d2 = signed_decimal(l2 as int);
    reveal_strlit(":");
    assert(k =~= a1 + d1);
    assert(k =~= a2 + d2);
    lemma_signed_decimal_chars(l1 as int);
    lemma_signed_decimal_chars(l2 as int);
    if d1.len() < d2.len() {
        let q = a1.len() - 1;
        assert(k[q] == ':');
        assert(k[q] == d2[q - a2.len()]);
    } else if d2.len() < d1.len() {
        let q = a2.len() - 1;
        assert(k[q] == ':');
        assert(k[q] == d1[q - a1.len()]);
    }
    assert(a1.len() == a2.len());
    assert(d1 =~= k.skip(a1.len() as int));
    assert(d2 =~= k.skip(a2.len() as int));
    lemma_signed_decimal_injective(l1 as int, l2 as int);
    assert(a1 =~= k.take(a1.len() as int));
    assert(a2 =~= k.take(a2.len() as int));
    let p = "users:list:"@;
    assert(cursor_part(c1) =~= a1.subrange(p.len() as int, a1.len() - 1));
    assert(cursor_part(c2) =~= a2.subrange(p.len() as int, a2.len() - 1));
}

/// The cache key of one user.
pub fn user_cache_key(id: u128) -> (r: String)
    ensures
        r@ == user_key(id),
{
    let mut s = String::new();
    push_str(&mut s, "user:");
    let t = uuid_to_string(id);
    push_str(&mut s, t.as_str());
    s
}

/// The cache key of a page of users.
pub fn list_cache_key(cursor: Option<&str>, limit: i64) -> (r: String)
    ensures
        r@ == list_key(match cursor { Some(c) => Some(c@), None => None }, limit),
{
    let mut s = String::new();
    push_str(&mut s, "users:list:");
    match cursor {
        Some(c) => push_str(&mut s, c),
        None => push_str(&mut s, "none"),
    }
    push_str(&mut s, ":");
    push_i64(&mut s, limit);
    assert(s@ =~= list_key(match cursor { Some(c) => Some(c@), None => None }, limit));
    s
}

/// The pattern whose keys are removed when users change: every page.
pub fn list_cache_pattern() -> (r: String)
    ensures
        r@ == list_prefix() + seq!['*'],
{
    let mut s = String::new();
    push_str(&mut s, "users:list:");
    push_str(&mut s, "*");
    proof {
        reveal_strlit("*");
    }
    s
}

/// Only the first page is read from and written to the cache.
pub fn list_uses_cache(cursor: &Option<String>) -> (r: bool)
    ensures
        r == cursor is None,
{
    cursor.is_none()
}

/// Whether a reply to `PING` says the server is alive.
pub fn is_pong(reply: &str) -> (r: bool)
    ensures
        r == (reply@ == "PONG"@),
{
    str_eq(reply, "PONG")
}

/// A change to the stored users.
#[derive(Debug)]
pub enum UserWrite {
    Create,
    Update(u128),
    Delete(u128),
}

/// The user entry a write makes stale: the written user's, after an
/// update or a delete; none after a creation.
pub open spec fn stale_user_key(w: UserWrite) -> Option<Seq<char>> {
    match w {
        UserWrite::Create => None,
        UserWrite::Update(id) => Some(user_key(id)),
        UserWrite::Delete(id) => Some(user_key(id)),
    }
}

/// The cache entries to drop after a write: the written user's entry (for
/// an update or a delete) and, by pattern, every cached page.
pub fn invalidations(write: &UserWrite) -> (r: (Option<String>, String))
    ensures
        match (r.0, stale_user_key(*write)) {
            (Some(k), Some(s)) => k@ == s,
            (None, None) => true,
            _ => false,
        },
        r.1@ == list_prefix() + seq!['*'],
{
    let key = match write {
        UserWrite::Create => None,
        UserWrite::Update(id) => Some(user_cache_key(*id)),
        UserWrite::Delete(id) => Some(user_cache_key(*id)),
    };
    (key, list_cache_pattern())
}

/// Removing the pages removes every cached page, whatever its cursor and
/// limit, and no cached user.
pub proof fn law_list_pattern_covers_pages(cursor: Option<Seq<char>>, limit: i64, id: u128)
    ensures
        matches_prefix_glob(list_prefix(), list_key(cursor, limit)),
        !matches_prefix_glob(list_prefix(), user_key(id)),
{
    reveal_strlit("users:list:");
    reveal_strlit("user:");
    let k = list_key(cursor, limit);
    assert(k.take(list_prefix().len() as int) =~= list_prefix());
    let u = user_key(id);
    if u.len() >= list_prefix().len() {
        assert(u.take(list_prefix().len() as int)[4] == ':');
        assert(list_prefix()[4] == 's');
    }
}

/// The entries of a cache, keyed by text, after a write's invalidations
/// ran: the stale user entry and every key that the page pattern matches
/// are gone, the rest stay as they were.
pub open spec fn invalidated<V>(cache: Map<Seq<char>, V>, w: UserWrite) -> Map<Seq<char>, V> {
    cache.restrict(cache.dom().filter(|k: Seq<char>| stale_user_key(w) != Some(k) && !matches_prefix_glob(list_prefix(), k)))
}

/// After a write's invalidations, no page of users is cached, whatever
/// its cursor and limit, nor the written user's entry; every other
/// user's entry is kept unchanged.
pub proof fn law_invalidation_drops_stale_entries<V>(
    cache: Map<Seq<char>, V>,
    w: UserWrite,
    cursor: Option<Seq<char>>,
    limit: i64,
    other: u128,
)
    ensures
        !invalidated(cache, w).contains_key(list_key(cursor, limit)),
        stale_user_key(w) matches Some(k) ==> !invalidated(cache, w).contains_key(k),
        stale_user_key(w) != Some(user_key(other)) && cache.contains_key(user_key(other)) ==> {
            &&& invalidated(cache, w).contains_key(user_key(other))
            &&& invalidated(cache, w)[user_key(other)] == cache[user_key(other)]
        },
{
    law_list_pattern_covers_pages(cursor, limit, other);
}

/// A cache of JSON values in Redis, with one lifetime for every entry.
pub struct RedisCache {
    manager: ConnectionManager,
    ttl: u64,
}

impl RedisCache {
    /// The lifetime of cached entries, in seconds.
    pub closed spec fn lifetime(&self) -> u64 {
        self.ttl
    }

    /// The connection the cache was made over.
    pub closed spec fn connection(&self) -> ConnectionManager {
        self.manager
    }

    /// A cache over `manager` whose entries live `ttl` seconds.
    pub fn new(manager: ConnectionManager, ttl: u64) -> (r: Self)
        ensures
            r.lifetime() == ttl,
            r.connection() == manager,
    {
        RedisCache { manager, ttl }
    }

    /// The lifetime of cached entries, in seconds.
    pub fn ttl(&self) -> (r: u64)
        ensures
            r == self.lifetime(),
    {
        self.ttl
    }

    /// The connection to Redis.
    pub fn manager(&self) -> (r: &ConnectionManager)
        ensures
            *r == self.connection(),
    {
        &self.manager
    }
}

} // verus!
