use session_auth::config::{Config, DEFAULT_PORT};
use session_auth::errors::{AuthError, ConfigError, SessionError};
use session_auth::middleware::{AuthMiddleware, GateDecision};
use session_auth::path_matcher::{PathMatcher, PathRule};
use session_auth::session::{
    settle_record_write, GetUserFromSession, RecordWriteOutcome, SessionAuthToken, UserSession, SESSION_TTL_SECS,
};
use session_auth::user::User;

fn test_user() -> User {
    User::new(7, "Test User".to_string(), "test@example.org".to_string())
}

fn protected_matcher() -> PathMatcher {
    PathMatcher::new(
        vec![
            PathRule::exact("/login", false),
            PathRule::prefix("/public", false),
            PathRule::prefix("/", true),
        ],
        false,
    )
}

#[test]
fn should_create_config_with_defaults() {
    let c = Config::from_settings(None, None).unwrap();

    assert_eq!(c.host, "127.0.0.1".to_string());
    assert_eq!(c.port, 5665);
}

#[test]
fn config_takes_given_host_and_port() {
    let c = Config::from_settings(Some("0.0.0.0".to_string()), Some("8080".to_string())).unwrap();
    assert_eq!(c.host, "0.0.0.0");
    assert_eq!(c.port, 8080);
    let plus = Config::from_settings(None, Some("+80".to_string())).unwrap();
    assert_eq!(plus.port, 80);
    assert_eq!(DEFAULT_PORT, 5665);
}

#[test]
fn config_refuses_invalid_port() {
    for bad in ["abc", "", "-1", "70000", "+", " 80"] {
        let r = Config::from_settings(None, Some(bad.to_string()));
        assert_eq!(r.unwrap_err(), ConfigError::InvalidPort);
    }
}

#[test]
fn set_user_then_get_within_ttl_returns_user() {
    let mut s = UserSession::new();
    s.set_user(test_user(), 1_000).unwrap();
    assert_eq!(s.ttl(), Some(1_000 + SESSION_TTL_SECS));
    assert_eq!(SESSION_TTL_SECS, 30 * 60);
    let u = GetUserFromSession.get_authenticated_user(&s, 1_000).unwrap();
    assert_eq!(u.id, 7);
    assert_eq!(u.name, "Test User");
    assert_eq!(u.email, "test@example.org");
    let later = GetUserFromSession.get_authenticated_user(&s, 1_000 + SESSION_TTL_SECS - 1);
    assert_eq!(later.unwrap().id, 7);
}

#[test]
fn expired_session_is_same_as_no_session() {
    let mut s = UserSession::new();
    s.set_user(test_user(), 1_000).unwrap();
    let expired = GetUserFromSession.get_authenticated_user(&s, 1_000 + SESSION_TTL_SECS);
    let empty = GetUserFromSession.get_authenticated_user(&UserSession::new(), 1_000 + SESSION_TTL_SECS);
    assert_eq!(expired.unwrap_err(), AuthError::Unauthenticated);
    assert_eq!(empty.unwrap_err(), AuthError::Unauthenticated);
}

#[test]
fn half_written_session_is_unauthenticated() {
    let only_user = UserSession::from_entries(Some(test_user()), None);
    assert!(GetUserFromSession.get_authenticated_user(&only_user, 0).is_err());
    let only_ttl = UserSession::from_entries(None, Some(u64::MAX));
    assert!(GetUserFromSession.get_authenticated_user(&only_ttl, 0).is_err());
}

#[test]
fn set_user_overflow_leaves_session_unchanged() {
    let mut s = UserSession::new();
    let r = s.set_user(test_user(), u64::MAX - SESSION_TTL_SECS + 1);
    assert_eq!(r.unwrap_err(), SessionError::ClockOverflow);
    assert!(s.user().is_none());
    assert_eq!(s.ttl(), None);
    assert!(s.set_user(test_user(), u64::MAX - SESSION_TTL_SECS).is_ok());
    assert_eq!(s.ttl(), Some(u64::MAX));
}

#[test]
fn session_token_reports_authentication() {
    let mut s = UserSession::new();
    s.set_user(test_user(), 50).unwrap();
    let valid = SessionAuthToken::new(s, 60);
    assert!(valid.is_authenticated());
    assert_eq!(valid.get_authenticated_user().unwrap().id, 7);
    let mut s2 = UserSession::new();
    s2.set_user(test_user(), 50).unwrap();
    let stale = SessionAuthToken::new(s2, 50 + SESSION_TTL_SECS);
    assert!(!stale.is_authenticated());
}

#[test]
fn matcher_first_rule_wins_and_default_applies() {
    let m = protected_matcher();
    assert!(!m.requires_auth("/login"));
    assert!(m.requires_auth("/login/extra"));
    assert!(!m.requires_auth("/public/img.png"));
    assert!(m.requires_auth("/account"));
    assert!(!m.requires_auth(""));
    let strict = PathMatcher::new(vec![PathRule::exact("/health", false)], true);
    assert!(!strict.requires_auth("/health"));
    assert!(strict.requires_auth("/other"));
    assert!(!PathMatcher::default().requires_auth("/anything"));
}

#[test]
fn rule_matching_exact_and_prefix() {
    assert!(PathRule::exact("/a", true).matches("/a"));
    assert!(!PathRule::exact("/a", true).matches("/ab"));
    assert!(!PathRule::exact("/ab", true).matches("/a"));
    assert!(PathRule::prefix("/a", true).matches("/ab"));
    assert!(!PathRule::prefix("/b", true).matches("/ab"));
    assert!(PathRule::prefix("", true).matches("/x"));
}

#[test]
fn protected_path_without_session_is_rejected() {
    let mw = AuthMiddleware::with_matcher(GetUserFromSession, protected_matcher());
    let d = mw.decide("/account", &UserSession::new(), 100);
    assert!(matches!(d, GateDecision::Unauthorized));
    assert_eq!(d.rejection_status(), Some(401));
    let mut expired = UserSession::new();
    expired.set_user(test_user(), 0).unwrap();
    let d2 = mw.decide("/account", &expired, SESSION_TTL_SECS);
    assert!(matches!(d2, GateDecision::Unauthorized));
}

#[test]
fn protected_path_with_session_forwards_user() {
    let mw = AuthMiddleware::with_matcher(GetUserFromSession, protected_matcher());
    let mut s = UserSession::new();
    s.set_user(test_user(), 0).unwrap();
    match mw.decide("/account", &s, 10) {
        GateDecision::Forward(Some(u)) => assert_eq!(u.id, 7),
        _ => panic!("expected the request to be forwarded with its user"),
    }
}

#[test]
fn open_path_forwards_regardless_of_session() {
    let mw = AuthMiddleware::with_matcher(GetUserFromSession, protected_matcher());
    let d = mw.decide("/login", &UserSession::new(), 0);
    assert!(matches!(d, GateDecision::Forward(None)));
    assert_eq!(d.rejection_status(), None);
    let open = AuthMiddleware::new();
    assert!(matches!(open.decide("/account", &UserSession::new(), 0), GateDecision::Forward(None)));
}

#[test]
fn inner_pipeline_is_reached_only_when_allowed() {
    let inner = AuthMiddleware::with_matcher(GetUserFromSession, protected_matcher()).new_transform(42u32);
    assert!(inner.call("/account", &UserSession::new(), 0).is_err());
    let (service, user) = inner.call("/login", &UserSession::new(), 0).unwrap();
    assert_eq!(*service, 42);
    assert!(user.is_none());
}

#[test]
fn half_written_record_is_undone_and_reported() {
    assert_eq!(settle_record_write(true, true), RecordWriteOutcome::Written);
    assert!(settle_record_write(true, true).result().is_ok());
    assert_eq!(settle_record_write(true, false), RecordWriteOutcome::RemoveUserAndFail);
    assert_eq!(settle_record_write(true, false).result().unwrap_err(), SessionError::Store);
    assert_eq!(settle_record_write(false, false), RecordWriteOutcome::Failed);
    assert_eq!(settle_record_write(false, true), RecordWriteOutcome::Failed);
    assert!(settle_record_write(false, false).result().is_err());
}
