use vstd::prelude::*;

use crate::errors::QueryUserError;
use crate::memory_store::{first_row_of_user, first_user_with_email, InMemoryUserStore};
use crate::session::{UserSession, SESSION_TTL_SECS};
use crate::user::User;

verus! {

/// The answer to a login request.
#[derive(Debug, Clone, Copy, PartialEq, Eq, Structural)]
pub enum LoginResponse {
    /// The session now carries the user.
    Accepted,
    /// Unknown user or wrong password; which of the two is not told.
    Unauthorized,
    /// The session record could not be written.
    SessionFailure,
}

impl LoginResponse {
    pub fn status(&self) -> (r: u16)
        ensures
            *self == LoginResponse::Accepted ==> r == 200,
            *self == LoginResponse::Unauthorized ==> r == 401,
            *self == LoginResponse::SessionFailure ==> r == 500,
    {
        match self {
            LoginResponse::Accepted => 200,
            LoginResponse::Unauthorized => 401,
            LoginResponse::SessionFailure => 500,
        }
    }
}

/// Whether a login succeeds: the user was found and the password is right.
pub open spec fn login_accepted(found: Result<User, QueryUserError>, password_correct: bool) -> bool {
    found is Ok && password_correct
}

/// The login decision. `found` is the outcome of looking the email up and
/// `password_correct` the outcome of checking the password against the found
/// user; it is not consulted when no user was found. On success the session
/// holds the user and an expiry `SESSION_TTL_SECS` after `now`; otherwise the
/// session is left as it was.
pub fn login(
    session: &mut UserSession,
    found: Result<User, QueryUserError>,
    password_correct: bool,
    now: u64,
) -> (r: LoginResponse)
    ensures
        !login_accepted(found, password_correct) ==> r == LoginResponse::Unauthorized && *final(session) == *old(session),
        login_accepted(found, password_correct) && !UserSession::can_set_at(now) ==> r
            == LoginResponse::SessionFailure && *final(session) == *old(session),
        login_accepted(found, password_correct) && UserSession::can_set_at(now) ==> r
            == LoginResponse::Accepted && final(session).user_spec() == Some(found->Ok_0) && final(session).ttl_spec() == Some((now + SESSION_TTL_SECS) as u64),
{
    match found {
        Ok(user) => {
            if !password_correct {
                return LoginResponse::Unauthorized;
            }
            match session.set_user(user, now) {
                Ok(()) => LoginResponse::Accepted,
                Err(_) => LoginResponse::SessionFailure,
            }
        },
        Err(_) => LoginResponse::Unauthorized,
    }
}

/// Compares a supplied password with the stored one, looking at every
/// character of equal-length inputs whatever the first difference.
pub fn passwords_match(stored: &str, supplied: &str) -> (r: bool)
    ensures
        r == (stored@ == supplied@),
{
    let n = stored.unicode_len();
    if n != supplied.unicode_len() {
        return false;
    }
    let mut same = true;
    let mut i: usize = 0;
    while i < n
        invariant
            n == stored@.len(),
            n == supplied@.len(),
            i <= n,
            same == (forall|j: int| 0 <= j < i ==> stored@[j] == supplied@[j]),
        decreases n - i,
    {
        let equal = stored.get_char(i) == supplied.get_char(i);
        same = same && equal;
        i = i + 1;
    }
    proof {
        if same {
            assert(stored@ =~= supplied@);
        }
    }
    same
}

impl InMemoryUserStore {
    /// Whether `password` is the one stored in the first credentials row of
    /// `user`.
    pub fn is_password_correct(&self, user: &User, password: &str) -> (r: bool)
        ensures
            r == (first_row_of_user(self.rows_spec(), user.id, 0) matches Some(k)
                && self.rows_spec()[k].password@ == password@),
    {
        match self.find_credentials_by_user_id(user.id) {
            Ok(c) => passwords_match(c.password.as_str(), password),
            Err(_) => false,
        }
    }
}

/// Whether `email` and `password` log in against the store's contents.
pub open spec fn store_accepts(store: InMemoryUserStore, email: Seq<char>, password: Seq<char>) -> bool {
    match first_user_with_email(store.users_spec(), email, 0) {
        Some(k) => match first_row_of_user(store.rows_spec(), store.users_spec()[k].id, 0) {
            Some(c) => store.rows_spec()[c].password@ == password,
            None => false,
        },
        None => false,
    }
}

/// Logs in against the in-memory store: looks the email up, checks the
/// password, and on success writes the session record.
pub fn login_with_store(
    store: &InMemoryUserStore,
    session: &mut UserSession,
    email: &str,
    password: &str,
    now: u64,
) -> (r: LoginResponse)
    ensures
        !store_accepts(*store, email@, password@) ==> r == LoginResponse::Unauthorized && *final(session) == *old(session),
        store_accepts(*store, email@, password@) && !UserSession::can_set_at(now) ==> r
            == LoginResponse::SessionFailure && *final(session) == *old(session),
        store_accepts(*store, email@, password@) && UserSession::can_set_at(now) ==> r
            == LoginResponse::Accepted && final(session).user_spec() == Some(
            store.users_spec()[first_user_with_email(store.users_spec(), email@, 0)->Some_0],
        ) && final(session).ttl_spec() == Some((now + SESSION_TTL_SECS) as u64),
{
    let found = store.find_by_email(email);
    let password_correct = match &found {
        Ok(u) => store.is_password_correct(u, password),
        Err(_) => false,
    };
    login(session, found, password_correct, now)
}

} // verus!
