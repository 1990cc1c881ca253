//! Login sessions.

use vstd::prelude::*;

verus! {

/// The max duration a session cookie can idle between logins before
/// it expires. We use a rolling window, so any logged-in activity
/// resets the expiry timer.
pub const SESSION_LIFETIME_DAYS: i64 = 90;

/// Nanoseconds in one day.
pub const NANOS_PER_DAY: i128 = 86_400_000_000_000;

/// A record struct for user login sessions. `expires` is in nanoseconds
/// since the Unix epoch (UTC).
#[derive(Clone, Debug)]
pub struct Session {
    /// An integer ID that allows referencing the session without knowing its
    /// random ID string. Only really used for remote logouts.
    pub external_id: i64,
    /// An opaque, securely-random ID string (actually a UUIDv4). Stored as
    /// a cookie in the user's browser and used to look up the session from the db.
    pub id: String,
    pub user_id: i64,
    /// An opaque, securely-random string (actually a UUIDv4) to be included
    /// as a hidden input in "plain" HTML forms presented to this user on this
    /// session; a posted form must echo it back.
    pub csrf_token: String,
    pub expires: i128,
    pub user_agent: Option<String>,
}

/// When a session that is created or used at `now` expires: a full
/// lifetime later.
pub fn session_expiry(now: i128) -> (r: i128)
    requires
        i128::MIN + 90 * NANOS_PER_DAY <= now <= i128::MAX - 90 * NANOS_PER_DAY,
    ensures
        r == now + SESSION_LIFETIME_DAYS * NANOS_PER_DAY,
{
    now + (SESSION_LIFETIME_DAYS as i128) * NANOS_PER_DAY
}

} // verus!
