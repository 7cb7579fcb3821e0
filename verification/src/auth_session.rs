//! The authentication session: after a successful wrist authentication the
//! daemon holds the user as authenticated for `ttl_seconds`, in memory only.
//! A time-to-live of zero disables the session cache.

use vstd::prelude::*;

use crate::clock::{read_clock, ClockReading};

verus! {

/// Why a session operation failed.
#[derive(Debug, Clone, Copy, PartialEq, Eq, Structural)]
pub enum SessionError {
    /// The clock stands before the Unix epoch.
    ClockUnavailable,
    /// The expiry time `now + ttl_seconds` does not fit in 64 bits.
    ExpiryOverflow,
}

/// The abstract state of a session.
pub ghost struct SessionView {
    pub verified_at: nat,
    pub expires_at: nat,
    pub ttl_seconds: nat,
}

/// The session's state after a verification at `now`.
pub open spec fn marked_at(s: SessionView, now: nat) -> SessionView {
    SessionView { verified_at: now, expires_at: now + s.ttl_seconds, ttl_seconds: s.ttl_seconds }
}

/// Whether the session counts as verified at time `now`.
pub open spec fn verified_at_time(s: SessionView, now: nat) -> bool {
    s.verified_at > 0 && s.expires_at > now
}

/// What `is_verified` answers when the clock reads `now` (`None`: before the epoch).
pub open spec fn verification_status(s: SessionView, now: Option<u64>) -> Result<bool, SessionError> {
    match now {
        None => Err(SessionError::ClockUnavailable),
        Some(t) => Ok(verified_at_time(s, t as nat)),
    }
}

/// What `mark_verified` answers when the clock reads `now`.
pub open spec fn mark_outcome(s: SessionView, now: Option<u64>) -> Result<(), SessionError> {
    match now {
        None => Err(SessionError::ClockUnavailable),
        Some(t) => if t + s.ttl_seconds > u64::MAX {
            Err(SessionError::ExpiryOverflow)
        } else {
            Ok(())
        },
    }
}

/// The session after `mark_verified` when the clock reads `now`: marked at
/// `now` on success, unchanged otherwise.
pub open spec fn state_after_mark(s: SessionView, now: Option<u64>) -> SessionView {
    match mark_outcome(s, now) {
        Ok(_) => marked_at(s, now.unwrap() as nat),
        Err(_) => s,
    }
}

/// An authentication session: when it was last verified, until when it holds,
/// and how long each verification holds.
pub struct AuthSession {
    verified_at: u64,
    expires_at: u64,
    ttl_seconds: u64,
}

impl View for AuthSession {
    type V = SessionView;

    closed spec fn view(&self) -> SessionView {
        SessionView {
            verified_at: self.verified_at as nat,
            expires_at: self.expires_at as nat,
            ttl_seconds: self.ttl_seconds as nat,
        }
    }
}

impl AuthSession {
    /// A session that has never been verified.
    pub fn new(ttl_seconds: u64) -> (s: Self)
        ensures
            s@ == (SessionView { verified_at: 0, expires_at: 0, ttl_seconds: ttl_seconds as nat }),
    {
        AuthSession { verified_at: 0, expires_at: 0, ttl_seconds }
    }

    /// Marks the session as verified at `now`; it then holds until `now + ttl_seconds`.
    pub fn mark_verified_at(&mut self, now: u64)
        requires
            now + old(self)@.ttl_seconds <= u64::MAX,
        ensures
            final(self)@ == marked_at(old(self)@, now as nat),
    {
        self.verified_at = now;
        self.expires_at = now + self.ttl_seconds;
    }

    /// Marks the session as verified at the current time: on success the
    /// session holds until the reading plus the time-to-live; on error it is
    /// left as it was.
    pub fn mark_verified(&mut self) -> (r: Result<(), SessionError>)
        ensures
            exists|reading: ClockReading|
                r == mark_outcome(old(self)@, reading.secs()) && final(self)@ == #[trigger] state_after_mark(
                    old(self)@,
                    reading.secs(),
                ),
    {
        let reading = read_clock();
        let now = reading.seconds();
        let r = self.mark_verified_with(now);
        assert(final(self)@ == state_after_mark(old(self)@, now));
        r
    }

    /// Marks the session as verified at the clock reading `now`, as `mark_verified` does.
    pub fn mark_verified_with(&mut self, now: Option<u64>) -> (r: Result<(), SessionError>)
        ensures
            r == mark_outcome(old(self)@, now),
            final(self)@ == state_after_mark(old(self)@, now),
    {
        match now {
            None => Err(SessionError::ClockUnavailable),
            Some(now) => {
                if now > u64::MAX - self.ttl_seconds {
                    Err(SessionError::ExpiryOverflow)
                } else {
                    self.mark_verified_at(now);
                    Ok(())
                }
            },
        }
    }

    /// Whether the session is verified at time `now`: it has been verified once
    /// and its expiry lies after `now`.
    pub fn is_verified_at(&self, now: u64) -> (verified: bool)
        ensures
            verified == verified_at_time(self@, now as nat),
    {
        self.verified_at > 0 && self.expires_at > now
    }

    /// Whether the session is verified at the current time.
    pub fn is_verified(&self) -> (r: Result<bool, SessionError>)
        ensures
            exists|reading: ClockReading| r == #[trigger] verification_status(self@, reading.secs()),
    {
        let reading = read_clock();
        let now = reading.seconds();
        let r = match now {
            None => Err(SessionError::ClockUnavailable),
            Some(t) => Ok(self.is_verified_at(t)),
        };
        assert(r == verification_status(self@, now));
        r
    }
}

/// Once the clock has reached a session's expiry the session is reported
/// unverified: at any reading at or after `expires_at`, `is_verified` answers
/// `Ok(false)`.
pub proof fn law_expired_session_reported_unverified(s: SessionView, reading: ClockReading, t: u64)
    requires
        reading.secs() == Some(t),
        s.expires_at <= t,
    ensures
        verification_status(s, reading.secs()) == Ok::<bool, SessionError>(false),
{
}

/// Marking and asking again: a session marked at the reading `first` is
/// reported verified at a reading `second` taken no earlier exactly while
/// `second` lies before `first + ttl`; with a time-to-live of zero it is never
/// reported verified again.
pub proof fn law_mark_then_ask(s: SessionView, first: ClockReading, second: ClockReading, t1: u64, t2: u64)
    requires
        first.secs() == Some(t1),
        second.secs() == Some(t2),
        t1 > 0,
        t1 + s.ttl_seconds <= u64::MAX,
        t1 <= t2,
    ensures
        mark_outcome(s, first.secs()) == Ok::<(), SessionError>(()),
        verification_status(state_after_mark(s, first.secs()), second.secs()) == Ok::<bool, SessionError>(
            t2 < t1 + s.ttl_seconds,
        ),
        s.ttl_seconds == 0 ==> verification_status(state_after_mark(s, first.secs()), second.secs())
            == Ok::<bool, SessionError>(false),
{
}

/// A session marked at `t` is verified exactly at the times before `t + ttl`,
/// provided `t` is after the epoch.
pub proof fn law_session_holds_for_ttl(s: SessionView, t: nat, now: nat)
    requires
        t > 0,
    ensures
        verified_at_time(marked_at(s, t), now) <==> now < t + s.ttl_seconds,
{
}

/// With a time-to-live of zero the cache is never used: a session marked at
/// `t` is not verified at `t` or at any later time.
pub proof fn law_zero_ttl_disables_cache(s: SessionView, t: nat, now: nat)
    requires
        s.ttl_seconds == 0,
        now >= t,
    ensures
        !verified_at_time(marked_at(s, t), now),
{
}

/// A session that was never verified is verified at no time.
pub proof fn law_fresh_session_unverified(ttl_seconds: nat, now: nat)
    ensures
        !verified_at_time(SessionView { verified_at: 0, expires_at: 0, ttl_seconds }, now),
{
}

} // verus!
