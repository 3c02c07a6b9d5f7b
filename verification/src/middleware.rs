//! Decisions of the two request layers of the client: logging in before a
//! request when the session has expired, and waiting out the platform's
//! rate limits.
use crate::parameter::opt_text;
use crate::session::{expired_at, Instant, SessionManager, MAX_UTC_SECS, MIN_UTC_SECS};
use crate::text::str_eq;
use chrono::{Datelike, Timelike};
use vstd::prelude::*;

verus! {

/// Path of the login request, which never waits for a login itself.
pub const AUTHENTICATION_PATH: &'static str = "/authentication";

/// HTTP status of a request refused for its rate.
pub const TOO_MANY_REQUESTS: u16 = 429;

/// Key of the JSON body of a refusal that names the limit reached.
pub const DETAIL_KEY: &'static str = "detail";

/// Seconds waited past Eastern midnight when the daily simulation limit is reached.
pub const MIDNIGHT_MARGIN_SECS: u64 = 100;

/// Seconds waited when too many simulations run at once.
pub const CONCURRENT_WAIT_SECS: u64 = 10;

/// Seconds in a day.
pub const SECS_PER_DAY: i64 = 86_400;

/// The layer that opens a session before a request when the session has expired.
pub struct LoginMiddleware;

impl LoginMiddleware {
    /// Whether a session must be opened before the request for `path` is
    /// sent: for every request but the login itself, when the session has
    /// expired at `now`.
    pub fn must_login(&self, path: &str, session: &SessionManager, now: Instant) -> (r: bool)
        ensures
            r == (path@ != AUTHENTICATION_PATH@ && expired_at(session.expiry(), now)),
    {
        if str_eq(path, AUTHENTICATION_PATH) {
            false
        } else {
            session.is_expired(now)
        }
    }
}

/// The string at `key` of the JSON document `body`: `None` when the bytes
/// are not JSON, the document is not an object, or the value at `key` is
/// absent or not a string (as `serde_json` reads them).
pub uninterp spec fn json_string_at(body: Seq<u8>, key: Seq<char>) -> Option<Seq<char>>;

/// Reads `body` with `serde_json::from_slice` into a `serde_json::Value`,
/// indexes it by `key` (which gives `Null` on a non-object or a missing
/// key) and takes `Value::as_str`. A parse error gives `None`. The contract
/// claims only that the result is [`json_string_at`] of the bytes and key.
#[verifier::external_body]
fn json_string_field(body: &[u8], key: &str) -> (r: Option<String>)
    ensures
        opt_text(r) == json_string_at(body@, key@),
{
    match serde_json::from_slice::<serde_json::Value>(body) {
        Ok(value) => value[key].as_str().map(String::from),
        Err(_) => None,
    }
}

/// The detail of a JSON body: its string at [`DETAIL_KEY`], empty when
/// there is none.
pub open spec fn body_detail(body: Seq<u8>) -> Seq<char> {
    match json_string_at(body, DETAIL_KEY@) {
        Some(d) => d,
        None => Seq::empty(),
    }
}

/// The instants at which the Eastern time of the instant and of the same
/// instant a day later can be computed: a day inside the range of `chrono`
/// at either end, with fewer nanoseconds than a second.
pub open spec fn in_eastern_range(now: Instant) -> bool {
    &&& MIN_UTC_SECS + SECS_PER_DAY <= now.secs
    &&& now.secs + SECS_PER_DAY <= MAX_UTC_SECS
    &&& now.nanos < 1_000_000_000
}

/// The date, US Eastern time, of the instant `secs` seconds and `nanos`
/// nanoseconds after the Unix epoch, counted in days from the Common Era
/// (as `chrono` and `chrono-tz` compute it).
pub uninterp spec fn eastern_day(secs: i64, nanos: u32) -> i64;

/// The whole seconds past midnight, US Eastern time, of the same instant.
pub uninterp spec fn eastern_second_of_day(secs: i64, nanos: u32) -> i64;

/// Converts the instant to US Eastern time with `chrono::DateTime::from_timestamp`,
/// `with_timezone(&chrono_tz::US::Eastern)` and `naive_local`, and gives the
/// local date in days from the Common Era, the whole seconds past local
/// midnight and the nanoseconds past them. The contract claims that the
/// first two are [`eastern_day`] and [`eastern_second_of_day`] of the
/// instant, that the date fits an `i32` (the type `chrono` returns), that
/// the seconds are below a day (`nanos` below a second rules out a leap
/// second), and that the nanoseconds are the instant's own (time zone offsets
/// are whole seconds).
#[verifier::external_body]
fn eastern_civil(secs: i64, nanos: u32) -> (r: (i64, i64, u32))
    requires
        MIN_UTC_SECS + SECS_PER_DAY <= secs <= MAX_UTC_SECS,
        nanos < 1_000_000_000,
    ensures
        r.0 == eastern_day(secs, nanos),
        r.1 == eastern_second_of_day(secs, nanos),
        i32::MIN <= r.0 <= i32::MAX,
        0 <= r.1 < SECS_PER_DAY,
        r.2 == nanos,
{
    let local = chrono::DateTime::from_timestamp(secs, nanos).unwrap().with_timezone(
        &chrono_tz::US::Eastern,
    ).naive_local();
    (local.num_days_from_ce() as i64, local.num_seconds_from_midnight() as i64, local.nanosecond())
}

/// Whole seconds from the Eastern wall-clock second of `now` to the
/// midnight that starts the Eastern date of the instant a day later.
pub open spec fn midnight_distance(now: Instant) -> int {
    (eastern_day((now.secs + SECS_PER_DAY) as i64, now.nanos) - eastern_day(now.secs, now.nanos))
        * SECS_PER_DAY - eastern_second_of_day(now.secs, now.nanos)
}

/// The time from `now` to that midnight in whole seconds, the nanoseconds
/// of `now` taken off and the result truncated toward zero (as
/// `TimeDelta::num_seconds` counts).
pub open spec fn seconds_to_midnight(now: Instant) -> int {
    let d = midnight_distance(now);
    if now.nanos > 0 && d > 0 {
        d - 1
    } else {
        d
    }
}

/// That count read as an unsigned 64-bit number. It is negative in the hour
/// after midnight on the day the clocks fall back: that day lasts 25 hours,
/// so 24 hours later the Eastern date is still the same one, and the
/// midnight that starts it is already past. Such a count wraps around to
/// `2^64` less its magnitude.
pub open spec fn eastern_wait(now: Instant) -> int {
    let s = seconds_to_midnight(now);
    if s >= 0 {
        s
    } else {
        s + 0x1_0000_0000_0000_0000
    }
}

/// Seconds from `now` until the midnight, US Eastern time, that starts the
/// Eastern date 24 hours later, as an unsigned number (see [`eastern_wait`]
/// for the hour in which the count is negative).
pub fn eastern_midnight_wait(now: Instant) -> (r: u64)
    requires
        in_eastern_range(now),
    ensures
        r == eastern_wait(now),
{
    let (today, second, frac): (i64, i64, u32) = eastern_civil(now.secs, now.nanos);
    let (next_day, _, _): (i64, i64, u32) = eastern_civil(now.secs + SECS_PER_DAY, now.nanos);
    let distance: i64 = (next_day - today) * SECS_PER_DAY - second;
    let whole: i64 = if frac > 0 && distance > 0 {
        distance - 1
    } else {
        distance
    };
    if whole >= 0 {
        whole as u64
    } else {
        u64::MAX - ((-1 - whole) as u64)
    }
}

/// The detail of a refusal for the daily simulation limit.
pub open spec fn daily_limit_detail() -> Seq<char> {
    "DAILY_SIMULATION_LIMIT_EXCEEDED"@
}

/// The detail of a refusal for the concurrent simulation limit.
pub open spec fn concurrent_limit_detail() -> Seq<char> {
    "CONCURRENT_SIMULATION_LIMIT_EXCEEDED"@
}

/// Seconds to wait after an answer with `status` and `detail`: a rate
/// refusal for the daily limit waits until past Eastern midnight, one for
/// the concurrent limit waits [`CONCURRENT_WAIT_SECS`], anything else not at all.
pub open spec fn limit_wait_spec(status: u16, detail: Seq<char>, midnight_wait: int) -> int {
    if status == TOO_MANY_REQUESTS && detail == daily_limit_detail() {
        midnight_wait + MIDNIGHT_MARGIN_SECS
    } else if status == TOO_MANY_REQUESTS && detail == concurrent_limit_detail() {
        CONCURRENT_WAIT_SECS as int
    } else {
        0
    }
}

/// The layer that waits out the platform's rate limits.
pub struct RequestLimitMiddleware;

impl RequestLimitMiddleware {
    /// Seconds to wait after an answer with `status` whose body's detail is
    /// `detail`, `midnight_wait` seconds before Eastern midnight.
    pub fn limit_wait(&self, status: u16, detail: &str, midnight_wait: u64) -> (r: u64)
        requires
            status == TOO_MANY_REQUESTS && detail@ == daily_limit_detail() ==> midnight_wait
                + MIDNIGHT_MARGIN_SECS <= u64::MAX,
        ensures
            r == limit_wait_spec(status, detail@, midnight_wait as int),
    {
        if status != TOO_MANY_REQUESTS {
            0
        } else if str_eq(detail, "DAILY_SIMULATION_LIMIT_EXCEEDED") {
            midnight_wait + MIDNIGHT_MARGIN_SECS
        } else if str_eq(detail, "CONCURRENT_SIMULATION_LIMIT_EXCEEDED") {
            CONCURRENT_WAIT_SECS
        } else {
            0
        }
    }

    /// Seconds to wait after an answer with `status` and `body`, received at
    /// `now`. The body is read only for a rate refusal, the clock only for
    /// the daily limit. `None` when the wait until past midnight does not
    /// fit in a `u64`, which happens only in the last
    /// [`MIDNIGHT_MARGIN_SECS`] seconds of a negative count.
    pub fn throttle_secs(&self, status: u16, body: &[u8], now: Instant) -> (r: Option<u64>)
        requires
            status == TOO_MANY_REQUESTS ==> in_eastern_range(now),
        ensures
            status != TOO_MANY_REQUESTS ==> r == Some(0u64),
            status == TOO_MANY_REQUESTS ==> {
                let detail = body_detail(body@);
                let wait = eastern_wait(now);
                if detail == daily_limit_detail() && wait + MIDNIGHT_MARGIN_SECS > u64::MAX {
                    r is None
                } else {
                    r matches Some(w) && w == limit_wait_spec(status, detail, wait)
                }
            },
    {
        if status != TOO_MANY_REQUESTS {
            return Some(0);
        }
        let detail: String = match json_string_field(body, DETAIL_KEY) {
            Some(d) => d,
            None => String::new(),
        };
        if str_eq(detail.as_str(), "DAILY_SIMULATION_LIMIT_EXCEEDED") {
            let wait: u64 = eastern_midnight_wait(now);
            if wait > u64::MAX - MIDNIGHT_MARGIN_SECS {
                return None;
            }
            Some(self.limit_wait(status, detail.as_str(), wait))
        } else {
            Some(self.limit_wait(status, detail.as_str(), 0))
        }
    }
}

} // verus!
