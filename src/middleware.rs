use vstd::prelude::*;

use crate::errors::AuthError;
use crate::path_matcher::{lemma_first_match_decides, lemma_unmatched_path_gets_default, PathMatcher};
use crate::session::{authenticated_user_spec, GetUserFromSession, UserSession};
use crate::user::User;

verus! {

/// What the middleware does with one request.
#[derive(Debug)]
pub enum GateDecision {
    /// Hand the request to the inner pipeline, with the authenticated user
    /// attached when the path needed one.
    Forward(Option<User>),
    /// Answer 401 without calling the inner pipeline.
    Unauthorized,
}

impl GateDecision {
    /// The HTTP status of a rejected request, or `None` when the inner
    /// pipeline answers.
    pub fn rejection_status(&self) -> (r: Option<u16>)
        ensures
            self is Unauthorized ==> r == Some(401u16),
            self is Forward ==> r is None,
    {
        match self {
            GateDecision::Forward(_) => None,
            GateDecision::Unauthorized => Some(401),
        }
    }
}

/// Gates requests on the path rules and the session-backed extractor. It holds
/// only immutable configuration.
#[derive(Debug)]
pub struct AuthMiddleware {
    pub matcher: PathMatcher,
    pub extractor: GetUserFromSession,
}

/// The decision for a request to `path` carrying `session`, at time `now`.
pub open spec fn gate_spec(m: PathMatcher, path: Seq<char>, session: UserSession, now: u64) -> GateDecision {
    if !m.requires_auth_spec(path) {
        GateDecision::Forward(None)
    } else {
        match authenticated_user_spec(session, now) {
            Ok(u) => GateDecision::Forward(Some(u)),
            Err(_) => GateDecision::Unauthorized,
        }
    }
}

impl AuthMiddleware {
    /// A middleware with no rules, letting every path through.
    pub fn new() -> (r: AuthMiddleware)
        ensures
            r.matcher.rules@.len() == 0,
            !r.matcher.protect_by_default,
    {
        AuthMiddleware { matcher: PathMatcher::default(), extractor: GetUserFromSession }
    }

    pub fn with_matcher(extractor: GetUserFromSession, matcher: PathMatcher) -> (r: AuthMiddleware)
        ensures
            r.matcher == matcher,
    {
        AuthMiddleware { matcher, extractor }
    }

    /// Open paths are forwarded whatever the session holds. Protected paths
    /// are forwarded with the authenticated user, or rejected when the
    /// extractor fails.
    pub fn decide(&self, path: &str, session: &UserSession, now: u64) -> (r: GateDecision)
        ensures
            r == gate_spec(self.matcher, path@, *session, now),
    {
        if !self.matcher.requires_auth(path) {
            return GateDecision::Forward(None);
        }
        match self.extractor.get_authenticated_user(session, now) {
            Ok(u) => GateDecision::Forward(Some(u)),
            Err(AuthError::Unauthenticated) => GateDecision::Unauthorized,
        }
    }

    /// Wraps an inner pipeline.
    pub fn new_transform<S>(self, service: S) -> (r: AuthMiddlewareInner<S>)
        ensures
            r.middleware == self,
            r.service == service,
    {
        AuthMiddlewareInner { middleware: self, service }
    }
}

/// The middleware applied to an inner pipeline `S`.
pub struct AuthMiddlewareInner<S> {
    pub middleware: AuthMiddleware,
    pub service: S,
}

impl<S> AuthMiddlewareInner<S> {
    /// The inner pipeline, when the request may reach it, with the user to
    /// attach; `Err` carries the rejection.
    pub fn call(&self, path: &str, session: &UserSession, now: u64) -> (r: Result<(&S, Option<User>), GateDecision>)
        ensures
            gate_spec(self.middleware.matcher, path@, *session, now) matches GateDecision::Forward(u)
                ==> r == Ok::<(&S, Option<User>), GateDecision>((&self.service, u)),
            gate_spec(self.middleware.matcher, path@, *session, now) is Unauthorized ==> r
                == Err::<(&S, Option<User>), GateDecision>(GateDecision::Unauthorized),
    {
        match self.middleware.decide(path, session, now) {
            GateDecision::Forward(u) => Ok((&self.service, u)),
            GateDecision::Unauthorized => Err(GateDecision::Unauthorized),
        }
    }
}

/// On a path that needs authentication, a request whose session yields no user
/// never reaches the inner pipeline.
pub proof fn lemma_protected_path_without_user_is_rejected(
    m: PathMatcher,
    path: Seq<char>,
    session: UserSession,
    now: u64,
)
    requires
        m.requires_auth_spec(path),
        authenticated_user_spec(session, now) is Err,
    ensures
        gate_spec(m, path, session, now) is Unauthorized,
{
}

/// On a path that needs no authentication, every request is forwarded,
/// whatever its session holds.
pub proof fn lemma_open_path_is_forwarded(
    m: PathMatcher,
    path: Seq<char>,
    session: UserSession,
    now: u64,
)
    requires
        !m.requires_auth_spec(path),
    ensures
        gate_spec(m, path, session, now) is Forward,
{
}

/// When the first rule that matches a path requires authentication, a request
/// whose session yields no user is rejected.
pub proof fn lemma_protected_rule_rejects_without_user(
    m: PathMatcher,
    path: Seq<char>,
    k: int,
    session: UserSession,
    now: u64,
)
    requires
        0 <= k < m.rules@.len(),
        m.rules@[k].matches_spec(path),
        m.rules@[k].requires_auth,
        forall|i: int| 0 <= i < k ==> !(#[trigger] m.rules@[i]).matches_spec(path),
        authenticated_user_spec(session, now) is Err,
    ensures
        gate_spec(m, path, session, now) is Unauthorized,
{
    lemma_first_match_decides(m, path, k);
}

/// When the first rule that matches a path needs no authentication, or no rule
/// matches and the default policy lets paths through, every request is
/// forwarded, whatever its session holds.
pub proof fn lemma_open_rule_forwards(m: PathMatcher, path: Seq<char>, k: int, session: UserSession, now: u64)
    requires
        (0 <= k < m.rules@.len() && m.rules@[k].matches_spec(path) && !m.rules@[k].requires_auth
            && forall|i: int| 0 <= i < k ==> !(#[trigger] m.rules@[i]).matches_spec(path)) || (
        !m.protect_by_default && forall|i: int|
            0 <= i < m.rules@.len() ==> !(#[trigger] m.rules@[i]).matches_spec(path)),
    ensures
        gate_spec(m, path, session, now) == GateDecision::Forward(None),
{
    if 0 <= k < m.rules@.len() && m.rules@[k].matches_spec(path) && !m.rules@[k].requires_auth
        && forall|i: int| 0 <= i < k ==> !(#[trigger] m.rules@[i]).matches_spec(path) {
        lemma_first_match_decides(m, path, k);
    } else {
        lemma_unmatched_path_gets_default(m, path);
    }
}

} // verus!
