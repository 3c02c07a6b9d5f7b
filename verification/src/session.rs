//! The login session of the client: when it expires, and how the answer to
//! a login request is handled.
//!
//! Instants are whole seconds since the Unix epoch, UTC, with the
//! nanoseconds past them.
use vstd::prelude::*;

verus! {

/// HTTP status of a login that needs a second factor or was refused.
pub const UNAUTHORIZED: u16 = 401;

/// HTTP status of a completed biometric confirmation.
pub const CREATED: u16 = 201;

/// Seconds before the token's own expiry at which the session is renewed.
pub const RENEWAL_MARGIN_SECS: u64 = 600;

/// Unix seconds of the latest instant `chrono` can hold (the last second of
/// year 262142).
pub const MAX_UTC_SECS: i64 = 8_210_266_876_799;

/// Unix seconds of the earliest instant `chrono` can hold (the first second
/// of year -262143).
pub const MIN_UTC_SECS: i64 = -8_334_601_228_800;

/// The email and password a login is made with.
pub struct Credentials {
    pub email: String,
    pub password: String,
}

/// An instant: whole seconds since the Unix epoch, UTC, and the nanoseconds
/// past them.
#[derive(Clone, Copy, Debug, PartialEq, Eq, Structural)]
pub struct Instant {
    pub secs: i64,
    pub nanos: u32,
}

/// `a` is not later than `b`: instants are ordered by their seconds, then
/// by their nanoseconds.
pub open spec fn not_after(a: Instant, b: Instant) -> bool {
    a.secs < b.secs || (a.secs == b.secs && a.nanos <= b.nanos)
}

/// Whether a session with the given expiry instant has expired at `now`:
/// a session that never logged in has; otherwise once `now` reaches the expiry.
pub open spec fn expired_at(expiry: Option<Instant>, now: Instant) -> bool {
    match expiry {
        None => true,
        Some(e) => not_after(e, now),
    }
}

/// The instant at which a session opened at `now` with a token valid for
/// `token_expiry_secs` seconds is to be renewed.
pub open spec fn deadline(now: Instant, token_expiry_secs: u64) -> Instant {
    Instant { secs: (now.secs + (token_expiry_secs - RENEWAL_MARGIN_SECS)) as i64, nanos: now.nanos }
}

/// The session state of the client.
pub struct SessionManager {
    expiry_time: Option<Instant>,
}

impl SessionManager {
    /// The instant at which the session expires, if a login set one.
    pub closed spec fn expiry(&self) -> Option<Instant> {
        self.expiry_time
    }

    /// A session that has not logged in.
    pub fn new() -> (r: Self)
        ensures
            r.expiry() is None,
    {
        SessionManager { expiry_time: None }
    }

    /// Records the instant at which the session expires.
    pub fn set_expiry_time(&mut self, expiry: Instant)
        ensures
            final(self).expiry() == Some(expiry),
    {
        self.expiry_time = Some(expiry);
    }

    /// Whether the session has expired at `now`.
    pub fn is_expired(&self, now: Instant) -> (r: bool)
        ensures
            r == expired_at(self.expiry(), now),
    {
        match self.expiry_time {
            None => true,
            Some(e) => e.secs < now.secs || (e.secs == now.secs && e.nanos <= now.nanos),
        }
    }
}

/// The instant at which a session opened at `now` is renewed: the token's
/// lifetime less [`RENEWAL_MARGIN_SECS`] after `now`. The token must live
/// at least that margin, and the deadline must be an instant `chrono` can
/// hold.
pub fn session_deadline(now: Instant, token_expiry_secs: u64) -> (r: Instant)
    requires
        token_expiry_secs >= RENEWAL_MARGIN_SECS,
        now.secs + (token_expiry_secs - RENEWAL_MARGIN_SECS) <= MAX_UTC_SECS,
    ensures
        r == deadline(now, token_expiry_secs),
{
    let lifetime: u64 = token_expiry_secs - RENEWAL_MARGIN_SECS;
    let secs: i128 = (now.secs as i128) + (lifetime as i128);
    Instant { secs: secs as i64, nanos: now.nanos }
}

/// What the client does after posting its credentials.
pub enum LoginOutcome {
    /// Ask the user to confirm at `url`, then post to it until it is confirmed.
    Biometrics { url: String },
    /// The credentials were refused: forget the stored ones.
    ClearCredentials,
    /// Read the token from the answer and set the expiry.
    ReadToken,
}

/// Decides on the answer to a login request: an unauthorized answer with a
/// Location header asks for biometric confirmation there; one without it
/// refuses the credentials; any other answer carries the token.
pub fn login_outcome(status: u16, location: Option<String>) -> (r: LoginOutcome)
    ensures
        status == UNAUTHORIZED && location is Some ==> (r matches LoginOutcome::Biometrics { url }
            && url@ == location->0@),
        status == UNAUTHORIZED && location is None ==> r is ClearCredentials,
        status != UNAUTHORIZED ==> r is ReadToken,
{
    if status == UNAUTHORIZED {
        match location {
            Some(url) => LoginOutcome::Biometrics { url },
            None => LoginOutcome::ClearCredentials,
        }
    } else {
        LoginOutcome::ReadToken
    }
}

/// Whether the answer to a biometric confirmation post says it is complete.
pub fn biometrics_complete(status: u16) -> (r: bool)
    ensures
        r == (status == CREATED),
{
    status == CREATED
}

/// A session that never logged in is expired at every instant.
pub proof fn lemma_new_session_expired(now: Instant)
    ensures
        expired_at(None, now),
{
}

/// Expiry is permanent until the next login: a session expired at `now`
/// is expired at every later instant.
pub proof fn lemma_expiry_persists(expiry: Option<Instant>, now: Instant, later: Instant)
    requires
        expired_at(expiry, now),
        not_after(now, later),
    ensures
        expired_at(expiry, later),
{
}

/// Right after a login at `now`, the session is live exactly when the token
/// lives longer than the renewal margin; it expires at its deadline and not
/// before.
pub proof fn lemma_login_sets_deadline(now: Instant, token_expiry_secs: u64)
    requires
        token_expiry_secs >= RENEWAL_MARGIN_SECS,
        now.secs + (token_expiry_secs - RENEWAL_MARGIN_SECS) <= MAX_UTC_SECS,
    ensures
        ({
            let d = deadline(now, token_expiry_secs);
            &&& expired_at(Some(d), now) <==> token_expiry_secs == RENEWAL_MARGIN_SECS
            &&& expired_at(Some(d), d)
            &&& forall|t: Instant| not_after(t, d) && t != d ==> !expired_at(Some(d), t)
        }),
{
}

} // verus!
