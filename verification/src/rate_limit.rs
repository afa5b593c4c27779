//! Sliding-window rate limiting per client address.
//!
//! Times are nanoseconds since the limiter was created. A request at
//! time `now` counts against the client's budget together with every
//! earlier accepted request less than sixty seconds before it.

use std::sync::Arc;
use std::time::Instant;

use vstd::prelude::*;

use crate::config::Settings;
use crate::text::str_eq;

verus! {

/// Length of the window, in nanoseconds (sixty seconds).
pub const WINDOW_NANOS: u64 = 60_000_000_000;

/// `std::time::Instant`, carried as an opaque start time.
#[verifier::external_type_specification]
#[verifier::external_body]
pub struct ExInstant(Instant);

/// `Instant::now`: the current instant. Nothing is stated of it.
#[verifier::external_body]
fn instant_now() -> Instant {
    Instant::now()
}

/// `Instant::elapsed`: nanoseconds since `origin`, read from the clock.
/// Nothing is stated of the value, which depends on the time of the call.
#[verifier::external_body]
fn elapsed_nanos(origin: &Instant) -> u64 {
    origin.elapsed().as_nanos() as u64
}

/// Whether a request recorded at `t` still counts at time `now`: less
/// than a window has passed since it (a time after `now` still counts).
pub open spec fn in_window(now: u64, t: u64) -> bool {
    now - t < WINDOW_NANOS
}

/// The recorded times that still count at `now`, in their order.
pub open spec fn recent(ts: Seq<u64>, now: u64) -> Seq<u64>
    decreases ts.len(),
{
    if ts.len() == 0 {
        Seq::empty()
    } else if in_window(now, ts.last()) {
        recent(ts.drop_last(), now).push(ts.last())
    } else {
        recent(ts.drop_last(), now)
    }
}

/// Whether a request at `now` is accepted, given the client's recorded
/// times and the per-minute budget.
pub open spec fn admits(ts: Seq<u64>, now: u64, limit: nat) -> bool {
    recent(ts, now).len() < limit
}

/// The client's recorded times after a request at `now`: the expired
/// ones are dropped, and `now` is recorded when the request is accepted.
pub open spec fn record(ts: Seq<u64>, now: u64, limit: nat) -> Seq<u64> {
    if admits(ts, now, limit) {
        recent(ts, now).push(now)
    } else {
        recent(ts, now)
    }
}

/// Dropping expired times never lengthens the record.
pub proof fn lemma_recent_len(ts: Seq<u64>, now: u64)
    ensures
        recent(ts, now).len() <= ts.len(),
    decreases ts.len(),
{
    if ts.len() > 0 {
        lemma_recent_len(ts.drop_last(), now);
    }
}

/// The recorded request times of one client.
pub struct ClientWindow {
    pub client: String,
    pub timestamps: Vec<u64>,
    pub burst: u32,
}

/// Accepts at most `requests_per_minute` requests per client in any
/// window of sixty seconds. Besides the records, it keeps the latest time
/// it decided at (times never go back) and, as ghost state, every
/// request time of each client.
pub struct RateLimiter {
    requests: Vec<ClientWindow>,
    config: Arc<Settings>,
    origin: Instant,
    latest: u64,
    log: Ghost<Map<Seq<char>, Seq<u64>>>,
}

impl RateLimiter {
    /// The per-minute budget of each client.
    pub closed spec fn limit(&self) -> nat {
        self.config.rate_limit.requests_per_minute as nat
    }

    /// The configuration the limiter was made with.
    pub closed spec fn settings(&self) -> Settings {
        *self.config
    }

    /// Whether `client` has a record.
    pub closed spec fn knows(&self, client: Seq<char>) -> bool {
        exists|i: int| 0 <= i < self.requests.len() && #[trigger] self.requests[i].client@ == client
    }

    /// The recorded request times of `client` (empty when it has none).
    pub closed spec fn history(&self, client: Seq<char>) -> Seq<u64> {
        if self.knows(client) {
            let i = choose|i: int| 0 <= i < self.requests.len() && #[trigger] self.requests[i].client@ == client;
            self.requests[i].timestamps@
        } else {
            Seq::empty()
        }
    }

    /// The latest time a request was decided at (0 before any).
    pub closed spec fn latest(&self) -> u64 {
        self.latest
    }

    /// The times of every request of `client` so far, in order, accepted
    /// or not.
    pub closed spec fn requests_of(&self, client: Seq<char>) -> Seq<u64> {
        if self.log@.contains_key(client) {
            self.log@[client]
        } else {
            Seq::empty()
        }
    }

    /// Each client has one record, holding at most `limit` times; the
    /// record is what its requests so far leave, and those came at
    /// non-decreasing times up to the latest one.
    pub closed spec fn wf(&self) -> bool {
        &&& forall|c: Seq<char>| self.history(c) == replay(#[trigger] self.requests_of(c), self.limit())
        &&& forall|c: Seq<char>| nondecreasing(#[trigger] self.requests_of(c))
        &&& forall|c: Seq<char>, i: int|
            0 <= i < self.requests_of(c).len() ==> #[trigger] self.requests_of(c)[i] <= self.latest
        &&& forall|i: int, j: int|
            0 <= i < j < self.requests.len() ==> #[trigger] self.requests[i].client@ != #[trigger] self.requests[j].client@
        &&& forall|i: int|
            0 <= i < self.requests.len() ==> #[trigger] self.requests[i].timestamps.len() <= self.limit()
        &&& forall|i: int|
            0 <= i < self.requests.len() ==> #[trigger] self.requests[i].burst == self.config.rate_limit.burst_size
    }

    /// A limiter with no recorded requests.
    pub fn new(config: Arc<Settings>) -> (r: Self)
        ensures
            r.wf(),
            r.settings() == *config,
            r.limit() == config.rate_limit.requests_per_minute,
            r.latest() == 0,
            forall|c: Seq<char>| !r.knows(c) && #[trigger] r.history(c) == Seq::<u64>::empty(),
            forall|c: Seq<char>| #[trigger] r.requests_of(c) == Seq::<u64>::empty(),
    {
        let r = RateLimiter { requests: Vec::new(), config, origin: instant_now(), latest: 0, log: Ghost(Map::empty()) };
        proof {
            assert forall|c: Seq<char>| r.history(c) == replay(#[trigger] r.requests_of(c), r.limit()) by {
                assert(!r.knows(c));
            }
        }
        r
    }

    fn lookup(&self, client_ip: &str) -> (r: Option<usize>)
        requires
            self.wf(),
        ensures
            match r {
                Some(i) => i < self.requests.len() && self.requests[i as int].client@ == client_ip@
                    && self.history(client_ip@) == self.requests[i as int].timestamps@,
                None => !self.knows(client_ip@) && self.history(client_ip@) == Seq::<u64>::empty(),
            },
    {
        let n = self.requests.len();
        for i in 0..n
            invariant
                n == self.requests.len(),
                self.wf(),
                forall|j: int| 0 <= j < i ==> self.requests[j].client@ != client_ip@,
        {
            if str_eq(self.requests[i].client.as_str(), client_ip) {
                proof {
                    let k = choose|k: int| 0 <= k < self.requests.len() && #[trigger] self.requests[k].client@ == client_ip@;
                    assert(k == i as int) by {
                        if k < i {
                        } else if k > i {
                            assert(self.requests[i as int].client@ != self.requests[k].client@);
                        }
                    }
                }
                return Some(i);
            }
        }
        None
    }

    /// Decides a request of `client_ip` at time `now` (nanoseconds since
    /// the limiter was made): expired times are dropped, and the request
    /// is refused when the remaining ones already fill the budget;
    /// otherwise it is recorded and accepted. Other clients are untouched.
    pub fn check_at(&mut self, client_ip: &str, now: u64) -> (r: Result<(), ()>)
        requires
            old(self).wf(),
            old(self).latest() <= now,
        ensures
            final(self).wf(),
            final(self).settings() == old(self).settings(),
            final(self).limit() == old(self).limit(),
            final(self).latest() == now,
            final(self).requests_of(client_ip@) == old(self).requests_of(client_ip@).push(now),
            forall|c: Seq<char>| c != client_ip@ ==> #[trigger] final(self).requests_of(c) == old(self).requests_of(c),
            r is Ok <==> admits(old(self).history(client_ip@), now, old(self).limit()),
            r is Ok <==> accepted_recent(
                old(self).requests_of(client_ip@),
                old(self).limit(),
                old(self).requests_of(client_ip@).len() as int,
                now,
            ).len() < old(self).limit(),
            final(self).knows(client_ip@),
            final(self).history(client_ip@) == record(old(self).history(client_ip@), now, old(self).limit()),
            forall|c: Seq<char>| c != client_ip@ ==> #[trigger] final(self).knows(c) == old(self).knows(c),
            forall|c: Seq<char>| c != client_ip@ ==> #[trigger] final(self).history(c) == old(self).history(c),
    {
        let ghost old_self = *self;
        let idx = match self.lookup(client_ip) {
            Some(i) => i,
            None => {
                let burst = self.config.rate_limit.burst_size;
                self.requests.push(ClientWindow { client: String::from_str(client_ip), timestamps: Vec::new(), burst });
                proof {
                    let n = (self.requests.len() - 1) as int;
                    assert forall|i: int, j: int| 0 <= i < j < self.requests.len() implies
                        #[trigger] self.requests[i].client@ != #[trigger] self.requests[j].client@ by {
                        if j == n {
                            assert(old_self.requests[i].client@ != client_ip@);
                        } else {
                            assert(old_self.requests[i].client@ != old_self.requests[j].client@);
                        }
                    }
                }
                self.requests.len() - 1
            },
        };
        let ghost mid = *self;
        assert(mid.requests[idx as int].client@ == client_ip@);
        assert(mid.history(client_ip@) == old_self.history(client_ip@)) by {
            assert(mid.knows(client_ip@));
        }
        assert forall|c: Seq<char>| c != client_ip@ implies
                #[trigger] mid.knows(c) == old_self.knows(c) && mid.history(c) == old_self.history(c) by {
            if mid.knows(c) {
                let k = choose|k: int| 0 <= k < mid.requests.len() && #[trigger] mid.requests[k].client@ == c;
                assert(k < old_self.requests.len());
                assert(old_self.knows(c));
                let k2 = choose|k: int| 0 <= k < old_self.requests.len() && #[trigger] old_self.requests[k].client@ == c;
                assert(k == k2) by {
                    if k < k2 {
                        assert(mid.requests[k].client@ != mid.requests[k2].client@);
                    } else if k2 < k {
                        assert(mid.requests[k2].client@ != mid.requests[k].client@);
                    }
                }
            } else {
                if old_self.knows(c) {
                    let k2 = choose|k: int| 0 <= k < old_self.requests.len() && #[trigger] old_self.requests[k].client@ == c;
                    assert(mid.requests[k2].client@ == c);
                }
            }
        }

        let limit = self.config.rate_limit.requests_per_minute;
        let old_ts = self.requests[idx].timestamps.clone();
        let kept = retain_recent(&old_ts, now);
        proof {
            lemma_recent_len(old_ts@, now);
        }
        let accepted = kept.len() < limit as usize;
        let mut new_ts = kept;
        if accepted {
            new_ts.push(now);
        }
        let mut entry = self.requests.remove(idx);
        entry.timestamps = new_ts;
        self.requests.insert(idx, entry);
        self.latest = now;
        let ghost times = old_self.requests_of(client_ip@);
        self.log = Ghost(self.log@.insert(client_ip@, times.push(now)));
        proof {
            let fin = *self;
            assert(fin.requests[idx as int].client@ == client_ip@);
            assert forall|i: int| 0 <= i < fin.requests.len() && i != idx implies
                #[trigger] fin.requests[i] == mid.requests[i] by {
                if i < idx {
                } else {
                }
            }
            assert forall|i: int, j: int| 0 <= i < j < fin.requests.len() implies
                #[trigger] fin.requests[i].client@ != #[trigger] fin.requests[j].client@ by {
                assert(mid.requests[i].client@ != mid.requests[j].client@);
            }
            assert(fin.history(client_ip@) == fin.requests[idx as int].timestamps@) by {
                assert(fin.knows(client_ip@));
                let k = choose|k: int| 0 <= k < fin.requests.len() && #[trigger] fin.requests[k].client@ == client_ip@;
                assert(k == idx) by {
                    if k < idx {
                        assert(fin.requests[k].client@ != fin.requests[idx as int].client@);
                    } else if k > idx {
                        assert(fin.requests[idx as int].client@ != fin.requests[k].client@);
                    }
                }
            }
            assert forall|c: Seq<char>| c != client_ip@ implies
                #[trigger] fin.knows(c) == mid.knows(c) && fin.history(c) == mid.history(c) by {
                if mid.knows(c) {
                    let k = choose|k: int| 0 <= k < mid.requests.len() && #[trigger] mid.requests[k].client@ == c;
                    assert(k != idx);
                    assert(fin.requests[k].client@ == c);
                    assert(fin.knows(c));
                    let k2 = choose|k: int| 0 <= k < fin.requests.len() && #[trigger] fin.requests[k].client@ == c;
                    assert(k == k2) by {
                        if k < k2 {
                            assert(fin.requests[k].client@ != fin.requests[k2].client@);
                        } else if k2 < k {
                            assert(fin.requests[k2].client@ != fin.requests[k].client@);
                        }
                    }
                } else {
                    if fin.knows(c) {
                        let k2 = choose|k: int| 0 <= k < fin.requests.len() && #[trigger] fin.requests[k].client@ == c;
                        if k2 == idx {
                        } else {
                            assert(mid.requests[k2].client@ == c);
                        }
                    }
                }
            }
        }
        proof {
            let fin = *self;
            let lim = old_self.limit();
            assert(fin.requests_of(client_ip@) == times.push(now));
            law_replay_step(times, now, lim);
            if times.len() > 0 {
                assert(times[times.len() - 1] <= old_self.latest);
            }
            lemma_replay_recent(times, lim, times.len() as int, now);
            assert(times.take(times.len() as int) =~= times);
            assert forall|c: Seq<char>| fin.history(c) == replay(#[trigger] fin.requests_of(c), fin.limit()) by {
                if c != client_ip@ {
                    assert(fin.requests_of(c) == old_self.requests_of(c));
                }
            }
            assert forall|c: Seq<char>| nondecreasing(#[trigger] fin.requests_of(c)) by {
                if c == client_ip@ {
                    let ts = times.push(now);
                    assert forall|i: int, j: int| 0 <= i <= j < ts.len() implies ts[i] <= ts[j] by {
                        if j < times.len() {
                            assert(old_self.requests_of(client_ip@)[i] <= old_self.requests_of(client_ip@)[j]);
                        } else if i < times.len() {
                            assert(ts[i] == times[i]);
                            assert(old_self.requests_of(client_ip@)[i] <= old_self.latest);
                        }
                    }
                } else {
                    assert(fin.requests_of(c) == old_self.requests_of(c));
                }
            }
            assert forall|c: Seq<char>, i: int| 0 <= i < fin.requests_of(c).len() implies
                #[trigger] fin.requests_of(c)[i] <= fin.latest by {
                if c == client_ip@ {
                    if i < times.len() {
                        assert(old_self.requests_of(client_ip@)[i] <= old_self.latest);
                    }
                } else {
                    assert(fin.requests_of(c) == old_self.requests_of(c));
                    assert(old_self.requests_of(c)[i] <= old_self.latest);
                }
            }
        }
        if accepted {
            Ok(())
        } else {
            Err(())
        }
    }

    /// Decides a request of `client_ip` now, reading the clock: exactly
    /// `check_at` at the time that the clock gave, or at the latest time
    /// decided at if the clock reads earlier, so times never go back. The
    /// request is accepted exactly when fewer than the budget of this
    /// client's earlier accepted requests came less than a window before.
    pub fn check(&mut self, client_ip: &str) -> (r: Result<(), ()>)
        requires
            old(self).wf(),
        ensures
            final(self).wf(),
            final(self).settings() == old(self).settings(),
            final(self).limit() == old(self).limit(),
            final(self).latest() >= old(self).latest(),
            final(self).requests_of(client_ip@) == old(self).requests_of(client_ip@).push(final(self).latest()),
            forall|c: Seq<char>| c != client_ip@ ==> #[trigger] final(self).requests_of(c) == old(self).requests_of(c),
            r is Ok <==> admits(old(self).history(client_ip@), final(self).latest(), old(self).limit()),
            r is Ok <==> accepted_recent(
                old(self).requests_of(client_ip@),
                old(self).limit(),
                old(self).requests_of(client_ip@).len() as int,
                final(self).latest(),
            ).len() < old(self).limit(),
            final(self).history(client_ip@) == record(old(self).history(client_ip@), final(self).latest(), old(self).limit()),
            final(self).knows(client_ip@),
            forall|c: Seq<char>| c != client_ip@ ==> #[trigger] final(self).knows(c) == old(self).knows(c),
            forall|c: Seq<char>| c != client_ip@ ==> #[trigger] final(self).history(c) == old(self).history(c),
    {
        let read = elapsed_nanos(&self.origin);
        let now = if read < self.latest { self.latest } else { read };
        self.check_at(client_ip, now)
    }
}

/// The times of `ts` that still count at `now`, in their order.
fn retain_recent(ts: &Vec<u64>, now: u64) -> (r: Vec<u64>)
    ensures
        r@ == recent(ts@, now),
{
    let mut out: Vec<u64> = Vec::new();
    let n = ts.len();
    for i in 0..n
        invariant
            n == ts.len(),
            out@ == recent(ts@.take(i as int), now),
    {
        let t = ts[i];
        let keep = if now >= t { now - t < WINDOW_NANOS } else { true };
        if keep {
            out.push(t);
        }
        proof {
            assert(ts@.take(i + 1).drop_last() =~= ts@.take(i as int));
            assert(ts@.take(i + 1).last() == t);
        }
    }
    assert(ts@.take(n as int) =~= ts@);
    out
}

} // verus!

verus! {

/// The recorded times of a client after requests at `times`, starting
/// from no record.
pub open spec fn replay(times: Seq<u64>, limit: nat) -> Seq<u64>
    decreases times.len(),
{
    if times.len() == 0 {
        Seq::empty()
    } else {
        record(replay(times.drop_last(), limit), times.last(), limit)
    }
}

/// Whether the `k`-th of the requests at `times` is accepted.
pub open spec fn accepted(times: Seq<u64>, limit: nat, k: int) -> bool {
    admits(replay(times.take(k), limit), times[k], limit)
}

/// The accepted requests among the first `n` that still count at `now`,
/// in their order.
pub open spec fn accepted_recent(times: Seq<u64>, limit: nat, n: int, now: u64) -> Seq<u64>
    decreases n,
{
    if n <= 0 {
        Seq::empty()
    } else if accepted(times, limit, n - 1) && in_window(now, times[n - 1]) {
        accepted_recent(times, limit, n - 1, now).push(times[n - 1])
    } else {
        accepted_recent(times, limit, n - 1, now)
    }
}

/// Request times that never go back.
pub open spec fn nondecreasing(times: Seq<u64>) -> bool {
    forall|i: int, j: int| 0 <= i <= j < times.len() ==> times[i] <= times[j]
}

/// Filtering at an earlier time, then at a later one, is filtering at
/// the later one.
proof fn lemma_recent_twice(h: Seq<u64>, t: u64, now: u64)
    requires
        t <= now,
    ensures
        recent(recent(h, t), now) == recent(h, now),
    decreases h.len(),
{
    if h.len() > 0 {
        lemma_recent_twice(h.drop_last(), t, now);
        let x = h.last();
        if in_window(t, x) {
            assert(recent(h, t).drop_last() == recent(h.drop_last(), t));
        }
    }
}

/// What still counts of the record after the first `n` requests is the
/// accepted ones among them that still count.
proof fn lemma_replay_recent(times: Seq<u64>, limit: nat, n: int, now: u64)
    requires
        0 <= n <= times.len(),
        nondecreasing(times),
        n > 0 ==> times[n - 1] <= now,
    ensures
        recent(replay(times.take(n), limit), now) == accepted_recent(times, limit, n, now),
    decreases n,
{
    if n > 0 {
        let t = times[n - 1];
        let prefix = times.take(n);
        assert(prefix.drop_last() =~= times.take(n - 1));
        assert(prefix.last() == t);
        lemma_replay_recent(times, limit, n - 1, now);
        let h = replay(times.take(n - 1), limit);
        lemma_recent_twice(h, t, now);
        if admits(h, t, limit) {
            assert(recent(h, t).push(t).drop_last() =~= recent(h, t));
            assert(recent(h, t).push(t).last() == t);
        }
    }
}

/// No client has more than `limit` accepted requests within sixty
/// seconds: when requests come at non-decreasing times and the `k`-th is
/// accepted, the accepted requests up to and including it that fall
/// less than a window before it number at most `limit`.
pub proof fn law_window_budget(times: Seq<u64>, limit: nat, k: int)
    requires
        0 <= k < times.len(),
        nondecreasing(times),
        accepted(times, limit, k),
    ensures
        accepted_recent(times, limit, k + 1, times[k]).len() <= limit,
{
    lemma_replay_recent(times, limit, k, times[k]);
    assert(in_window(times[k], times[k]));
}

/// A request is accepted exactly when fewer than `limit` of the earlier
/// accepted requests fall less than a window before it, when requests
/// come at non-decreasing times: refused requests do not count.
pub proof fn law_accepted_iff_under_budget(times: Seq<u64>, limit: nat, k: int)
    requires
        0 <= k < times.len(),
        nondecreasing(times),
    ensures
        accepted(times, limit, k) <==> accepted_recent(times, limit, k, times[k]).len() < limit,
{
    lemma_replay_recent(times, limit, k, times[k]);
}

/// The record after one more request is that request applied to the
/// record before it: a client's record after `check_at` at `times`, from
/// a new limiter, is `replay(times)`.
pub proof fn law_replay_step(times: Seq<u64>, t: u64, limit: nat)
    ensures
        replay(times.push(t), limit) == record(replay(times, limit), t, limit),
        replay(Seq::<u64>::empty(), limit) == Seq::<u64>::empty(),
{
    assert(times.push(t).drop_last() =~= times);
}

/// A budget of zero refuses every request.
pub proof fn law_zero_budget_refuses(ts: Seq<u64>, now: u64)
    ensures
        !admits(ts, now, 0),
        record(ts, now, 0) == recent(ts, now),
{
}

/// A refused request is not recorded: the record only loses its
/// expired times.
pub proof fn law_refusal_not_recorded(ts: Seq<u64>, now: u64, limit: nat)
    requires
        !admits(ts, now, limit),
    ensures
        record(ts, now, limit) == recent(ts, now),
{
}

} // verus!
