use brain_api::middleware::{eastern_midnight_wait, LoginMiddleware, RequestLimitMiddleware, SECS_PER_DAY};
use brain_api::session::{
    biometrics_complete, login_outcome, session_deadline, Instant, LoginOutcome, SessionManager,
    MAX_UTC_SECS, MIN_UTC_SECS,
};

fn at(secs: i64, nanos: u32) -> Instant {
    Instant { secs, nanos }
}

const DAILY: &[u8] = b"{\"detail\":\"DAILY_SIMULATION_LIMIT_EXCEEDED\"}";

#[test]
fn new_session_is_expired() {
    let s = SessionManager::new();
    assert!(s.is_expired(at(0, 0)));
    assert!(s.is_expired(at(i64::MIN, 0)));
    assert!(s.is_expired(at(i64::MAX, 999_999_999)));
}

#[test]
fn session_expires_at_its_deadline() {
    let now = at(1_700_000_000, 250);
    let d = session_deadline(now, 14_400);
    assert_eq!(d, at(1_700_013_800, 250));
    let mut s = SessionManager::new();
    s.set_expiry_time(d);
    assert!(!s.is_expired(now));
    assert!(!s.is_expired(at(1_700_013_799, 999_999_999)));
    assert!(!s.is_expired(at(1_700_013_800, 249)));
    assert!(s.is_expired(d));
    assert!(s.is_expired(at(1_700_013_800, 251)));
    assert!(s.is_expired(at(1_700_013_801, 0)));
    assert_eq!(session_deadline(now, 600), now);
    assert_eq!(session_deadline(at(-5, 7), 601), at(-4, 7));
}

#[test]
fn long_lived_tokens_keep_their_deadline() {
    // a token valid for 5e12 seconds, far past the year 2262
    let now = at(1_700_000_000, 0);
    let d = session_deadline(now, 5_000_000_000_000);
    assert_eq!(d, at(5_001_699_999_400, 0));
    let mut s = SessionManager::new();
    s.set_expiry_time(d);
    assert!(!s.is_expired(at(4_000_000_000_000, 0)));
    assert!(s.is_expired(d));
}

#[test]
fn login_answers_are_classified() {
    match login_outcome(401, Some("https://platform/verify/1".to_string())) {
        LoginOutcome::Biometrics { url } => assert_eq!(url, "https://platform/verify/1"),
        _ => panic!("expected biometrics"),
    }
    assert!(matches!(login_outcome(401, None), LoginOutcome::ClearCredentials));
    assert!(matches!(login_outcome(201, None), LoginOutcome::ReadToken));
    assert!(matches!(login_outcome(200, Some("x".to_string())), LoginOutcome::ReadToken));
    assert!(biometrics_complete(201));
    assert!(!biometrics_complete(200));
    assert!(!biometrics_complete(401));
}

#[test]
fn login_layer_skips_the_login_request() {
    let layer = LoginMiddleware;
    let fresh = SessionManager::new();
    assert!(!layer.must_login("/authentication", &fresh, at(10, 0)));
    assert!(layer.must_login("/simulations", &fresh, at(10, 0)));
    let mut live = SessionManager::new();
    live.set_expiry_time(at(100, 0));
    assert!(!layer.must_login("/simulations", &live, at(99, 999_999_999)));
    assert!(layer.must_login("/simulations", &live, at(100, 0)));
    assert!(!layer.must_login("/authentication", &live, at(100, 0)));
}

#[test]
fn limit_waits_by_status_and_detail() {
    let layer = RequestLimitMiddleware;
    assert_eq!(layer.limit_wait(429, "DAILY_SIMULATION_LIMIT_EXCEEDED", 3600), 3700);
    assert_eq!(layer.limit_wait(429, "CONCURRENT_SIMULATION_LIMIT_EXCEEDED", 3600), 10);
    assert_eq!(layer.limit_wait(429, "OTHER", 3600), 0);
    assert_eq!(layer.limit_wait(200, "DAILY_SIMULATION_LIMIT_EXCEEDED", 3600), 0);
    assert_eq!(layer.limit_wait(503, "CONCURRENT_SIMULATION_LIMIT_EXCEEDED", 0), 0);
}

#[test]
fn throttle_reads_the_refusal_body() {
    let layer = RequestLimitMiddleware;
    let now = at(1_705_320_000, 0); // 2024-01-15 12:00:00 UTC, 07:00 in New York
    assert_eq!(layer.throttle_secs(200, DAILY, now), Some(0));
    assert_eq!(
        layer.throttle_secs(429, b"{\"detail\":\"CONCURRENT_SIMULATION_LIMIT_EXCEEDED\"}", now),
        Some(10)
    );
    // midnight starting 2024-01-16 in New York is 17 hours after 07:00 on the 15th
    assert_eq!(layer.throttle_secs(429, DAILY, now), Some(17 * 3600 + 100));
    assert_eq!(layer.throttle_secs(429, b"{\"detail\":\"SOMETHING_ELSE\"}", now), Some(0));
    assert_eq!(layer.throttle_secs(429, b"not json", now), Some(0));
    assert_eq!(layer.throttle_secs(429, b"{\"detail\": 5}", now), Some(0));
    assert_eq!(layer.throttle_secs(429, b"[\"DAILY_SIMULATION_LIMIT_EXCEEDED\"]", now), Some(0));
    assert_eq!(layer.throttle_secs(429, b"{\"reason\":\"DAILY_SIMULATION_LIMIT_EXCEEDED\"}", now), Some(0));
}

#[test]
fn throttle_waits_until_eastern_midnight_in_summer() {
    let layer = RequestLimitMiddleware;
    // 2024-07-01 03:30:00 UTC is 23:30 on June 30 in New York (EDT);
    // 24 hours later it is July 1, whose midnight is 30 minutes after now.
    let now = at(1_719_804_600, 0);
    assert_eq!(layer.throttle_secs(429, DAILY, now), Some(30 * 60 + 100));
    assert_eq!(eastern_midnight_wait(now), 30 * 60);
}

#[test]
fn midnight_wait_drops_the_fraction_of_a_second() {
    // half a second past 07:00: 16:59:59.5 to midnight, counted as 16:59:59
    let now = at(1_705_320_000, 500_000_000);
    assert_eq!(eastern_midnight_wait(now), 17 * 3600 - 1);
    assert_eq!(RequestLimitMiddleware.throttle_secs(429, DAILY, now), Some(17 * 3600 - 1 + 100));
}

#[test]
fn midnight_wait_wraps_in_the_hour_after_the_autumn_midnight() {
    // 2024-11-03 04:30:00 UTC is 00:30 EDT; 24 hours later it is 23:30 EST
    // on the same date, whose midnight lies 30 minutes in the past.
    let now = at(1_730_608_200, 0);
    assert_eq!(eastern_midnight_wait(now), u64::MAX - 1800 + 1);
    assert_eq!(RequestLimitMiddleware.throttle_secs(429, DAILY, now), Some(u64::MAX - 1800 + 1 + 100));
    // 50 seconds past that midnight the wait plus the margin passes u64::MAX
    let now = at(1_730_606_450, 0);
    assert_eq!(eastern_midnight_wait(now), u64::MAX - 50 + 1);
    assert_eq!(RequestLimitMiddleware.throttle_secs(429, DAILY, now), None);
}

#[test]
fn midnight_wait_holds_at_both_ends_of_the_clock_range() {
    let first = eastern_midnight_wait(at(MIN_UTC_SECS + SECS_PER_DAY, 0));
    let last = eastern_midnight_wait(at(MAX_UTC_SECS - SECS_PER_DAY, 999_999_999));
    assert!(first <= 2 * 86_400);
    assert!(last <= 2 * 86_400);
}
