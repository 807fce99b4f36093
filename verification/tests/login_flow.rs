use camion::login::{Data, DeniedReasons, Error, Failure, Lookup};
use camion::role::Role;
use camion::security::password_salt_and_hash;
use camion::store::UserStore;
use camion::token::claims_from_token;

const NOW: u64 = 1_700_000_000;

fn key() -> Vec<u8> {
    b"a-test-signing-key".to_vec()
}

fn store_with(username: &str, email: &str, password: &str) -> UserStore {
    let mut store = UserStore::new();
    let hash = password_salt_and_hash(&password.to_string()).unwrap();
    store
        .insert_returning_id(
            &username.to_string(),
            &email.to_string(),
            &hash,
            Role::NoRole,
        )
        .unwrap();
    store
}

fn attempt(login: &str, password: &str) -> Data {
    Data {
        login: login.to_string(),
        password: password.to_string(),
    }
}

#[test]
fn success_with_same_username_and_password() {
    let store = store_with("Anicet", "", "secret_password");
    let token = attempt("Anicet", "secret_password")
        .login(&store, &key(), NOW)
        .unwrap();
    assert!(!token.is_empty());
    let (id, role) = claims_from_token(&token, &key(), NOW).unwrap();
    assert_eq!(id, 1);
    assert_eq!(role, Role::NoRole);
}

#[test]
fn success_with_same_email_and_password() {
    let store = store_with("", "test@test.fr", "secret_password");
    let token = attempt("test@test.fr", "secret_password")
        .login(&store, &key(), NOW)
        .unwrap();
    assert!(!token.is_empty());
    let (id, _) = claims_from_token(&token, &key(), NOW).unwrap();
    assert_eq!(id, 1);
}

#[test]
fn tells_when_username_unknown() {
    let store = UserStore::new();
    let outcome = attempt("superUnknownUsername", "").login(&store, &key(), NOW);
    assert_eq!(
        outcome.unwrap_err(),
        Error::Denied(DeniedReasons::UnknownLogin)
    );
}

#[test]
fn tells_when_username_known_and_password_wrong() {
    let store = store_with("Anicet", "", "superPassword");
    let outcome = attempt("Anicet", "superWrongPassword").login(&store, &key(), NOW);
    assert_eq!(
        outcome.unwrap_err(),
        Error::Denied(DeniedReasons::InvalidPassword)
    );
}

#[test]
fn is_ambiguous_when_email_unknown_or_email_known_and_password_wrong() {
    let store = store_with("", "test@test.fr", "superPassword");

    let wrong_password = attempt("test@test.fr", "superWrongPassword").login(&store, &key(), NOW);
    assert_eq!(
        wrong_password.unwrap_err(),
        Error::Denied(DeniedReasons::InvalidCredentials)
    );

    let unknown_email = attempt("wrong@test.fr", "superPassword").login(&store, &key(), NOW);
    assert_eq!(
        unknown_email.unwrap_err(),
        Error::Denied(DeniedReasons::InvalidCredentials)
    );
}

#[test]
fn login_reports_database_failure() {
    let outcome = attempt("Anicet", "whatever").login_with_lookup(Lookup::Failed, &key(), NOW);
    assert_eq!(outcome.unwrap_err(), Error::Failure(Failure::Database));
}

#[test]
fn login_token_expires_after_ttl() {
    let store = store_with("Anicet", "", "secret_password");
    let token = attempt("Anicet", "secret_password")
        .login(&store, &key(), NOW)
        .unwrap();
    // The login token lives 120 seconds.
    assert!(claims_from_token(&token, &key(), NOW + 119).is_ok());
    assert!(claims_from_token(&token, &key(), NOW + 120).is_err());
}
