# rust_crud_api

A REST service for managing users (create, read, update, delete, log in),
split in two:

- `src/` — the library, verified with Verus: configuration and connection
  URLs, the error table, request validation, password hashing and checking
  (Argon2), access-token claims, signing and checking (HS256 JWT), cursor
  pagination, cache keys and the read-through protocol, the health report,
  the request counter and the per-client sliding-window rate limiter.
  Calls into outside crates (Argon2, jsonwebtoken, serde_json, base64,
  uuid, chrono, the clock) sit behind small trusted wrappers whose contracts are stated
  next to them.
- `app/` — the HTTP server around it (axum, PostgreSQL through sqlx,
  Redis, configuration loading, logging). It runs the queries, the cache
  traffic and the HTTP plumbing; the checks and choices around them (which
  error a failed query is, what a page holds, which cache entries a write
  drops, whether a token or a request is let through) are calls into the
  library.

- `tests/` — tests of the library on concrete values.

The rate limiter keeps one record per client in a vector, with no client
recorded twice as part of its invariant, rather than in a hash map keyed
by the client's address: Verus's standard library states what a hash map
with integer keys does, but proves nothing of one keyed by strings, so
the vector is what lets the limiter's decisions be proved.
