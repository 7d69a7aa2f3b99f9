use vstd::prelude::*;

verus! {

/// Failure of the authenticated-user extractor. Expiry and absence of a session
/// are deliberately the same value.
#[derive(Debug, Clone, Copy, PartialEq, Eq, Structural)]
pub enum AuthError {
    Unauthenticated,
}

/// A lookup that found nothing, or a storage failure while reading.
#[derive(Debug, Clone, Copy, PartialEq, Eq, Structural)]
pub enum QueryUserError {
    NotFound,
    Storage,
}

/// Failure of a write to the user or credential store.
#[derive(Debug, Clone, Copy, PartialEq, Eq, Structural)]
pub enum UserUpdateError {
    /// Credentials with `user_id == 0` would belong to no user.
    MissingUserId,
    /// The user that the credentials name does not exist.
    UnknownUser,
    /// The row to update does not exist.
    NotFound,
    /// No further identifier can be assigned.
    IdsExhausted,
    /// The underlying storage refused the write.
    Storage,
}

/// Writing the session record failed; the session must not be trusted.
#[derive(Debug, Clone, Copy, PartialEq, Eq, Structural)]
pub enum SessionError {
    /// The expiry time does not fit the clock's range.
    ClockOverflow,
    /// The session store refused the write.
    Store,
}

/// Invalid process configuration.
#[derive(Debug, Clone, Copy, PartialEq, Eq, Structural)]
pub enum ConfigError {
    InvalidPort,
}

} // verus!
