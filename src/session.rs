use vstd::prelude::*;

use crate::errors::{AuthError, SessionError};
use crate::user::User;

verus! {

/// How long a session record stays valid, in seconds.
pub const SESSION_TTL_SECS: u64 = 1800;

/// The session entries that carry the authenticated user: `user` and its
/// expiry `ttl`, in seconds since the Unix epoch. Either may be absent in a
/// session that was never written or was written by other code.
#[derive(Debug)]
pub struct UserSession {
    user: Option<User>,
    ttl: Option<u64>,
}

impl UserSession {
    pub closed spec fn user_spec(&self) -> Option<User> {
        self.user
    }

    pub closed spec fn ttl_spec(&self) -> Option<u64> {
        self.ttl
    }

    /// A session that holds no entries.
    pub fn new() -> (r: UserSession)
        ensures
            r.user_spec() is None,
            r.ttl_spec() is None,
    {
        UserSession { user: None, ttl: None }
    }

    /// A session holding the given entries, as read from the session store.
    pub fn from_entries(user: Option<User>, ttl: Option<u64>) -> (r: UserSession)
        ensures
            r.user_spec() == user,
            r.ttl_spec() == ttl,
    {
        UserSession { user, ttl }
    }

    pub fn user(&self) -> (r: &Option<User>)
        ensures
            *r == self.user_spec(),
    {
        &self.user
    }

    pub fn ttl(&self) -> (r: Option<u64>)
        ensures
            r == self.ttl_spec(),
    {
        self.ttl
    }

    /// Whether a record written at `now` can carry an expiry time.
    pub open spec fn can_set_at(now: u64) -> bool {
        now + SESSION_TTL_SECS <= u64::MAX
    }

    /// Writes the user and its expiry, `now` plus the session lifetime, as one
    /// step: either both entries are written or the session is left unchanged
    /// and an error is returned.
    pub fn set_user(&mut self, user: User, now: u64) -> (r: Result<(), SessionError>)
        ensures
            UserSession::can_set_at(now) <==> r is Ok,
            r is Ok ==> final(self).user_spec() == Some(user) && final(self).ttl_spec() == Some(
                (now + SESSION_TTL_SECS) as u64,
            ),
            r is Err ==> r == Err::<(), SessionError>(SessionError::ClockOverflow) && *final(self)
                == *old(self),
    {
        if now > u64::MAX - SESSION_TTL_SECS {
            return Err(SessionError::ClockOverflow);
        }
        let ttl = now + SESSION_TTL_SECS;
        self.user = Some(user);
        self.ttl = Some(ttl);
        Ok(())
    }
}

/// What an extractor reports for `session` at time `now`: the stored user while
/// both entries are present and `now` is before the expiry, otherwise
/// `Unauthenticated`.
pub open spec fn authenticated_user_spec(session: UserSession, now: u64) -> Result<User, AuthError> {
    match (session.user_spec(), session.ttl_spec()) {
        (Some(u), Some(t)) => if now < t {
            Ok(u)
        } else {
            Err(AuthError::Unauthenticated)
        },
        _ => Err(AuthError::Unauthenticated),
    }
}

/// Reads the authenticated user from the session entries.
#[derive(Debug, Clone, Copy)]
pub struct GetUserFromSession;

impl GetUserFromSession {
    pub fn get_authenticated_user(&self, session: &UserSession, now: u64) -> (r: Result<
        User,
        AuthError,
    >)
        ensures
            r == authenticated_user_spec(*session, now),
    {
        match (&session.user, session.ttl) {
            (Some(u), Some(t)) => {
                if now < t {
                    Ok(u.duplicate())
                } else {
                    Err(AuthError::Unauthenticated)
                }
            },
            _ => Err(AuthError::Unauthenticated),
        }
    }
}

/// An authentication token backed by a session, judged at a fixed time.
#[derive(Debug)]
pub struct SessionAuthToken {
    pub session: UserSession,
    pub now: u64,
}

impl SessionAuthToken {
    pub fn new(session: UserSession, now: u64) -> (r: SessionAuthToken)
        ensures
            r.session == session,
            r.now == now,
    {
        SessionAuthToken { session, now }
    }

    pub fn get_authenticated_user(&self) -> (r: Result<User, AuthError>)
        ensures
            r == authenticated_user_spec(self.session, self.now),
    {
        GetUserFromSession.get_authenticated_user(&self.session, self.now)
    }

    pub fn is_authenticated(&self) -> (r: bool)
        ensures
            r == authenticated_user_spec(self.session, self.now) is Ok,
    {
        match self.get_authenticated_user() {
            Ok(_) => true,
            Err(_) => false,
        }
    }
}

/// What to do once the two writes of a session record to the session store
/// have been tried, the `ttl` write only after the `user` write succeeded.
#[derive(Debug, Clone, Copy, PartialEq, Eq, Structural)]
pub enum RecordWriteOutcome {
    /// Both entries are written.
    Written,
    /// Nothing was written; report the failure.
    Failed,
    /// Only `user` was written: remove it again and report the failure.
    RemoveUserAndFail,
}

impl RecordWriteOutcome {
    /// The result to report for this outcome.
    pub fn result(&self) -> (r: Result<(), SessionError>)
        ensures
            *self == RecordWriteOutcome::Written <==> r is Ok,
            r is Err ==> r == Err::<(), SessionError>(SessionError::Store),
    {
        match self {
            RecordWriteOutcome::Written => Ok(()),
            _ => Err(SessionError::Store),
        }
    }
}

/// Settles a two-step record write: success only when both entries were
/// written; a `user` entry left alone by a failed `ttl` write is removed, so a
/// half-written record is never left behind and the failure is never
/// swallowed.
pub fn settle_record_write(user_written: bool, ttl_written: bool) -> (r: RecordWriteOutcome)
    ensures
        user_written && ttl_written ==> r == RecordWriteOutcome::Written,
        user_written && !ttl_written ==> r == RecordWriteOutcome::RemoveUserAndFail,
        !user_written ==> r == RecordWriteOutcome::Failed,
{
    if !user_written {
        RecordWriteOutcome::Failed
    } else if ttl_written {
        RecordWriteOutcome::Written
    } else {
        RecordWriteOutcome::RemoveUserAndFail
    }
}

/// A user written with `set_user` at `written` is returned by the extractor at
/// any time before the record's expiry.
pub proof fn lemma_set_user_then_get(before: UserSession, after: UserSession, user: User, written: u64, now: u64)
    requires
        UserSession::can_set_at(written),
        after.user_spec() == Some(user),
        after.ttl_spec() == Some((written + SESSION_TTL_SECS) as u64),
        written <= now < written + SESSION_TTL_SECS,
    ensures
        authenticated_user_spec(after, now) == Ok::<User, AuthError>(user),
{
}

/// Once its expiry has passed, a session record is treated exactly as a
/// session without entries.
pub proof fn lemma_expired_is_absent(session: UserSession, empty: UserSession, now: u64)
    requires
        session.ttl_spec() matches Some(t) && t <= now,
        empty.user_spec() is None,
        empty.ttl_spec() is None,
    ensures
        authenticated_user_spec(session, now) == Err::<User, AuthError>(AuthError::Unauthenticated),
        authenticated_user_spec(session, now) == authenticated_user_spec(empty, now),
{
}

} // verus!
