//! The health report and the request counter.

use vstd::prelude::*;

use crate::models::{HealthResponse, MetricsResponse};

verus! {

/// `healthy` or `unhealthy`.
pub open spec fn health_word(ok: bool) -> Seq<char> {
    if ok { "healthy"@ } else { "unhealthy"@ }
}

/// The health report: the service answers `ok`; the database is
/// healthy when its probe succeeded; Redis is healthy when its probe
/// succeeded, or not configured when there is no cache.
pub fn health_response(database_ok: bool, redis_ok: Option<bool>) -> (r: HealthResponse)
    ensures
        r.status@ == "ok"@,
        r.database@ == health_word(database_ok),
        r.redis@ == (match redis_ok { Some(ok) => health_word(ok), None => "not_configured"@ }),
{
    let database = if database_ok { String::from_str("healthy") } else { String::from_str("unhealthy") };
    let redis = match redis_ok {
        Some(true) => String::from_str("healthy"),
        Some(false) => String::from_str("unhealthy"),
        None => String::from_str("not_configured"),
    };
    HealthResponse { status: String::from_str("ok"), database, redis }
}

/// Counts handled requests; the count wraps around past `usize::MAX`.
pub struct RequestCounter {
    count: usize,
}

impl RequestCounter {
    /// The number of requests counted (modulo `usize::MAX + 1`).
    pub closed spec fn total(&self) -> usize {
        self.count
    }

    /// A counter at zero.
    pub fn new() -> (r: Self)
        ensures
            r.total() == 0,
    {
        RequestCounter { count: 0 }
    }
}

/// Counts one more request.
pub fn increment_requests(counter: &mut RequestCounter)
    ensures
        final(counter).total() == (if old(counter).total() == usize::MAX { 0 } else { old(counter).total() + 1 }),
{
    counter.count = if counter.count == usize::MAX { 0 } else { counter.count + 1 };
}

/// The number of requests counted.
pub fn get_requests_total(counter: &RequestCounter) -> (r: usize)
    ensures
        r == counter.total(),
{
    counter.count
}

/// The body reporting the count.
pub fn metrics_response(counter: &RequestCounter) -> (r: MetricsResponse)
    ensures
        r.requests_total == counter.total(),
{
    MetricsResponse { requests_total: counter.count }
}

} // verus!
