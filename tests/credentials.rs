use session_auth::errors::{QueryUserError, UserUpdateError};
use session_auth::login::{login, login_with_store, passwords_match, LoginResponse};
use session_auth::memory_store::InMemoryUserStore;
use session_auth::session::UserSession;
use session_auth::store::{plan_account_save, plan_credentials_save, AccountWrite, CredentialsWrite, DbConfig, UserService};
use session_auth::user::{emails_match, Credentials, CredentialsRow, MfaConfig, User};
use std::sync::Arc;

fn seeded_store() -> (InMemoryUserStore, User) {
    let mut store = InMemoryUserStore::new();
    let user = User::new(0, "Test User".to_owned(), "test@example.org".to_owned());
    let saved = store.save_user_with_credentials(user, "test123".to_owned()).unwrap();
    (store, saved)
}

#[test]
fn should_response_ok_when_password_correct() {
    let mut session = UserSession::new();
    let found = Ok(User::new(1, "test".to_owned(), "Test".to_owned()));
    let password = "test123";
    let res = login(&mut session, found, password == "test123", 0);

    assert!((200..300).contains(&res.status()));
}

#[test]
fn should_be_able_to_save_credentials() {
    let mut user_service = InMemoryUserStore::new();
    let user = User::new(0, "test@example.org".to_owned(), "Test User".to_owned());
    let saved_user = user_service.save_user_with_credentials(user, "secretpassword".to_owned()).unwrap();

    let mut creds = user_service.find_credentials_by_user_id(saved_user.id).unwrap();
    creds.set_mfa(MfaConfig::with_secret("MFA_ID", "asecret"));
    user_service.save_credentials(creds).unwrap();

    let creds = user_service.find_credentials_by_user_id(saved_user.id).unwrap();

    assert!(creds.mfa_config.is_some());
    let mfa_config = creds.mfa_config.unwrap();
    assert_eq!(mfa_config.mfa_id, "MFA_ID");
    assert!(mfa_config.secret.is_some());
    assert_eq!(mfa_config.secret.unwrap(), "asecret");
}

#[test]
fn login_with_seeded_user_writes_session() {
    let (store, saved) = seeded_store();
    let mut session = UserSession::new();
    let res = login_with_store(&store, &mut session, "test@example.org", "test123", 10_000);
    assert_eq!(res, LoginResponse::Accepted);
    assert_eq!(res.status(), 200);
    let u = session.user().as_ref().unwrap();
    assert_eq!(u.id, saved.id);
    assert_eq!(u.name, "Test User");
    assert_eq!(u.email, "test@example.org");
    assert_eq!(session.ttl(), Some(10_000 + 1800));
}

#[test]
fn login_with_wrong_password_leaves_session_empty() {
    let (store, _) = seeded_store();
    let mut session = UserSession::new();
    let res = login_with_store(&store, &mut session, "test@example.org", "wrong", 10_000);
    assert_eq!(res, LoginResponse::Unauthorized);
    assert_eq!(res.status(), 401);
    assert!(session.user().is_none());
    assert_eq!(session.ttl(), None);
}

#[test]
fn login_with_unknown_email_is_unauthorized() {
    let (store, _) = seeded_store();
    let mut session = UserSession::new();
    let res = login_with_store(&store, &mut session, "nobody@example.org", "test123", 0);
    assert_eq!(res, LoginResponse::Unauthorized);
    assert!(session.user().is_none());
}

#[test]
fn login_fails_when_session_cannot_be_written() {
    let mut session = UserSession::new();
    let found = Ok(User::new(1, "a".to_owned(), "b".to_owned()));
    let res = login(&mut session, found, true, u64::MAX);
    assert_eq!(res, LoginResponse::SessionFailure);
    assert_eq!(res.status(), 500);
    assert!(session.user().is_none());
    let res2 = login(&mut session, Err(QueryUserError::NotFound), true, 0);
    assert_eq!(res2, LoginResponse::Unauthorized);
}

#[test]
fn password_comparison() {
    assert!(passwords_match("test123", "test123"));
    assert!(!passwords_match("test123", "test124"));
    assert!(!passwords_match("test123", "test12"));
    assert!(passwords_match("", ""));
}

#[test]
fn insert_assigns_fresh_nonzero_id_and_update_keeps_it() {
    let (mut store, saved) = seeded_store();
    let first = store.find_credentials_by_user_id(saved.id).unwrap();
    assert!(first.id != 0);
    let mut extra = Credentials::new(0, "other".to_owned(), saved.id);
    extra.set_mfa(MfaConfig::new("MFA_ID"));
    let inserted = store.save_credentials(extra).unwrap();
    assert!(inserted.id != 0);
    assert!(inserted.id != first.id);
    assert_eq!(inserted.password, "other");
    let pending = inserted.mfa_config.as_ref().unwrap();
    assert!(pending.secret.is_none());

    let mut changed = Credentials::new(inserted.id, "changed".to_owned(), saved.id);
    changed.set_mfa(MfaConfig::with_secret("M2", "s2"));
    let updated = store.save_credentials(changed).unwrap();
    assert_eq!(updated.id, inserted.id);
    assert_eq!(updated.password, "changed");
    assert_eq!(updated.mfa_config.unwrap().secret.unwrap(), "s2");
    let unchanged = store.find_credentials_by_user_id(saved.id).unwrap();
    assert_eq!(unchanged.id, first.id);
    assert_eq!(unchanged.password, "test123");
}

#[test]
fn save_without_user_fails_before_writing() {
    let (mut store, saved) = seeded_store();
    let r = store.save_credentials(Credentials::new(0, "x".to_owned(), 0));
    assert_eq!(r.unwrap_err(), UserUpdateError::MissingUserId);
    let r2 = store.save_credentials(Credentials::new(1, "x".to_owned(), 0));
    assert_eq!(r2.unwrap_err(), UserUpdateError::MissingUserId);
    let creds = store.find_credentials_by_user_id(saved.id).unwrap();
    assert_eq!(creds.password, "test123");
    assert!(plan_credentials_save(&Credentials::new(0, "x".to_owned(), 0)).is_err());
}

#[test]
fn save_errors_for_unknown_rows() {
    let (mut store, saved) = seeded_store();
    let r = store.save_credentials(Credentials::new(0, "x".to_owned(), saved.id + 100));
    assert_eq!(r.unwrap_err(), UserUpdateError::UnknownUser);
    let r2 = store.save_credentials(Credentials::new(999, "x".to_owned(), saved.id));
    assert_eq!(r2.unwrap_err(), UserUpdateError::NotFound);
    let first = store.find_credentials_by_user_id(saved.id).unwrap();
    let other = store
        .save_user_with_credentials(User::new(0, "O".to_owned(), "o@example.org".to_owned()), "p".to_owned())
        .unwrap();
    let r3 = store.save_credentials(Credentials::new(first.id, "x".to_owned(), other.id + 100));
    assert_eq!(r3.unwrap_err(), UserUpdateError::UnknownUser);
    assert_eq!(store.find_credentials_by_user_id(saved.id).unwrap().password, "test123");
}

#[test]
fn update_is_keyed_by_id_alone() {
    let (mut store, saved) = seeded_store();
    let first = store.find_credentials_by_user_id(saved.id).unwrap();
    let other = store
        .save_user_with_credentials(User::new(0, "O".to_owned(), "o@example.org".to_owned()), "p".to_owned())
        .unwrap();
    let moved = store.save_credentials(Credentials::new(first.id, "moved".to_owned(), other.id)).unwrap();
    assert_eq!(moved.id, first.id);
    assert_eq!(moved.user_id, other.id);
    assert!(store.find_credentials_by_user_id(saved.id).is_err());
    assert_eq!(store.find_credentials_by_user_id(other.id).unwrap().password, "moved");
}

#[test]
fn email_lookup_ignores_case_and_surrounding_whitespace() {
    let mut store = InMemoryUserStore::new();
    let user = User::new(0, "Test User".to_owned(), "Test@Example.org ".to_owned());
    let saved = store.save_user_with_credentials(user, "test123".to_owned()).unwrap();
    assert_eq!(store.find_by_email("test@example.org").unwrap().id, saved.id);
    assert_eq!(store.find_by_email("\tTEST@EXAMPLE.ORG").unwrap().id, saved.id);
    assert!(store.find_by_email("test@example.com").is_err());
    assert!(store.find_by_email("te st@example.org").is_err());
    let mut session = UserSession::new();
    let res = login_with_store(&store, &mut session, " TEST@example.org", "test123", 0);
    assert_eq!(res, LoginResponse::Accepted);
}

#[test]
fn email_matching_rules() {
    assert!(emails_match("a@b.org", "A@B.ORG"));
    assert!(emails_match("  a@b.org\n", "a@b.org"));
    assert!(emails_match("", "   "));
    assert!(!emails_match("a@b.org", "a@b.or"));
    assert!(!emails_match("a@b.org", "a @b.org"));
    assert!(!emails_match("ä@b.org", "Ä@b.org"));
}

#[test]
fn account_plan_creates_or_updates() {
    let create = plan_account_save(User::new(0, "N".to_owned(), "e@x.org".to_owned()), "pw".to_owned());
    match create {
        AccountWrite::Create { name, email, password } => {
            assert_eq!(name, "N");
            assert_eq!(email, "e@x.org");
            assert_eq!(password, "pw");
        }
        AccountWrite::Update { .. } => panic!("id 0 must create"),
    }
    let update = plan_account_save(User::new(4, "N".to_owned(), "e@x.org".to_owned()), "pw".to_owned());
    match update {
        AccountWrite::Update { user, password } => {
            assert_eq!(user.id, 4);
            assert_eq!(password, "pw");
        }
        AccountWrite::Create { .. } => panic!("a persisted user must be updated"),
    }
}

#[test]
fn failed_account_creation_leaves_nothing_behind() {
    let mut store = InMemoryUserStore::with_next_ids(1, i32::MAX);
    let user = User::new(0, "Test User".to_owned(), "test@example.org".to_owned());
    let r = store.save_user_with_credentials(user, "pw".to_owned());
    assert_eq!(r.unwrap_err(), UserUpdateError::IdsExhausted);
    assert_eq!(store.find_by_email("test@example.org").unwrap_err(), QueryUserError::NotFound);
    assert!(store.find_by_id(1).is_err());
    assert!(store.find_credentials_by_user_id(1).is_err());
}

#[test]
fn updating_a_user_changes_name_email_and_password() {
    let (mut store, saved) = seeded_store();
    let renamed = User::new(saved.id, "New Name".to_owned(), "new@example.org".to_owned());
    let u = store.save_user_with_credentials(renamed, "fresh".to_owned()).unwrap();
    assert_eq!(u.name, "New Name");
    assert_eq!(store.find_by_id(saved.id).unwrap().email, "new@example.org");
    assert_eq!(store.find_credentials_by_user_id(saved.id).unwrap().password, "fresh");
    let missing = User::new(saved.id + 5, "x".to_owned(), "y".to_owned());
    assert_eq!(store.save_user_with_credentials(missing, "z".to_owned()).unwrap_err(), UserUpdateError::NotFound);
}

#[test]
fn plan_maps_absent_secret_to_null_column() {
    let mut c = Credentials::new(0, "pw".to_owned(), 3);
    c.set_mfa(MfaConfig::new("MFA_ID"));
    match plan_credentials_save(&c).unwrap() {
        CredentialsWrite::Insert(row) => {
            assert_eq!(row.mfa_id.as_deref(), Some("MFA_ID"));
            assert_eq!(row.mfa_secret, None);
            assert_eq!(row.user_id, 3);
        }
        CredentialsWrite::Update(_) => panic!("id 0 must insert"),
    }
    c.id = 4;
    assert!(matches!(plan_credentials_save(&c).unwrap(), CredentialsWrite::Update(_)));
}

#[test]
fn row_without_mfa_id_has_no_mfa_config() {
    let row = CredentialsRow { id: 1, password: "p".to_owned(), mfa_id: None, mfa_secret: Some("s".to_owned()), user_id: 2 };
    assert!(row.to_credentials().mfa_config.is_none());
    let row2 = CredentialsRow { id: 1, password: "p".to_owned(), mfa_id: Some("m".to_owned()), mfa_secret: None, user_id: 2 };
    let c = row2.to_credentials();
    assert_eq!(c.mfa_config.as_ref().unwrap().mfa_id, "m");
    assert!(c.mfa_config.unwrap().secret.is_none());
}

#[test]
fn user_service_holds_database_config() {
    let svc = UserService::new(Arc::new(DbConfig::new("auth.sqlite3")));
    assert_eq!(svc.db_config.get_database(), "auth.sqlite3");
}
