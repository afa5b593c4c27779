use std::sync::Arc;

use rust_crud_api::config::Settings;
use rust_crud_api::rate_limit::RateLimiter;

fn limiter(rpm: u32) -> RateLimiter {
    let mut s = Settings::with_workers(1);
    s.rate_limit.requests_per_minute = rpm;
    RateLimiter::new(Arc::new(s))
}

const MINUTE: u64 = 60_000_000_000;

#[test]
fn budget_is_enforced_within_a_minute() {
    let mut l = limiter(2);
    assert_eq!(l.check_at("1.1.1.1", 0), Ok(()));
    assert_eq!(l.check_at("1.1.1.1", 1), Ok(()));
    assert_eq!(l.check_at("1.1.1.1", 2), Err(()));
    assert_eq!(l.check_at("1.1.1.1", MINUTE - 1), Err(()));
}

#[test]
fn old_requests_expire() {
    let mut l = limiter(2);
    assert_eq!(l.check_at("a", 0), Ok(()));
    assert_eq!(l.check_at("a", 1), Ok(()));
    // exactly one minute after the first: it no longer counts
    assert_eq!(l.check_at("a", MINUTE), Ok(()));
    assert_eq!(l.check_at("a", MINUTE), Err(()));
    assert_eq!(l.check_at("a", MINUTE + 2), Ok(()));
}

#[test]
fn clients_are_independent() {
    let mut l = limiter(1);
    assert_eq!(l.check_at("a", 0), Ok(()));
    assert_eq!(l.check_at("a", 0), Err(()));
    assert_eq!(l.check_at("b", 0), Ok(()));
    assert_eq!(l.check_at("b", 5), Err(()));
}

#[test]
fn zero_budget_refuses_everything() {
    let mut l = limiter(0);
    assert_eq!(l.check_at("a", 0), Err(()));
    assert_eq!(l.check_at("a", 10 * MINUTE), Err(()));
}

#[test]
fn refusals_are_not_recorded() {
    let mut l = limiter(1);
    assert_eq!(l.check_at("a", 0), Ok(()));
    for t in 1..100 {
        assert_eq!(l.check_at("a", t), Err(()));
    }
    assert_eq!(l.check_at("a", MINUTE), Ok(()));
}

#[test]
fn window_never_exceeds_budget() {
    let mut l = limiter(3);
    let mut accepted: Vec<u64> = Vec::new();
    let mut t: u64 = 0;
    for _ in 0..200 {
        if l.check_at("c", t).is_ok() {
            accepted.push(t);
        }
        t += 7_000_000_000 / 3;
    }
    for (k, &tk) in accepted.iter().enumerate() {
        let n = accepted[..=k].iter().filter(|&&tj| tk - tj < MINUTE).count();
        assert!(n <= 3);
    }
    assert!(accepted.len() > 3);
}

#[test]
fn check_reads_the_clock() {
    let mut l = limiter(1);
    assert_eq!(l.check("x"), Ok(()));
    assert_eq!(l.check("x"), Err(()));
    assert_eq!(l.check("y"), Ok(()));
}

#[test]
fn clock_checks_within_a_minute() {
    let mut l = limiter(2);
    assert_eq!(l.check("10.0.0.1"), Ok(()));
    assert_eq!(l.check("10.0.0.1"), Ok(()));
    assert_eq!(l.check("10.0.0.1"), Err(()));
    assert_eq!(l.check("10.0.0.2"), Ok(()));
}

#[test]
fn clock_and_given_times_share_one_timeline() {
    let mut l = limiter(1);
    assert_eq!(l.check_at("a", 5), Ok(()));
    // `check` decides no earlier than the latest time decided at, so the
    // request at 5 ns still counts
    assert_eq!(l.check("a"), Err(()));
    assert_eq!(l.check("b"), Ok(()));
}
