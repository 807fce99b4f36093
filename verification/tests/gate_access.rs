use camion::gate::{
    auth_user, auth_user_optional, disallow_anonymous_and_role, enforce_id, enforce_role,
    AuthorizationHeader, Error,
};
use camion::role::Role;
use camion::token::{from_claims, Claims};

const NOW: u64 = 1_700_000_000;

fn key() -> Vec<u8> {
    b"a-test-signing-key".to_vec()
}

fn header_for(id: i32, role: Role) -> AuthorizationHeader {
    let token = from_claims(Claims { id, role }, 120, &key(), NOW).unwrap();
    AuthorizationHeader::Value(token)
}

#[test]
fn role_gate_requires_exact_role() {
    // An Author token must not pass an Admin gate; an Admin token must.
    let author = header_for(2, Role::Author);
    assert_eq!(
        enforce_role(&author, Role::Admin, &key(), NOW).unwrap_err(),
        Error::RoleNotAllowed
    );
    let admin = header_for(1, Role::Admin);
    assert!(enforce_role(&admin, Role::Admin, &key(), NOW).is_ok());
}

#[test]
fn identity_gate_requires_exact_id() {
    let header = header_for(5, Role::NoRole);
    assert!(enforce_id(&header, 5, &key(), NOW).is_ok());
    assert_eq!(
        enforce_id(&header, 6, &key(), NOW).unwrap_err(),
        Error::UserNotAllowed
    );
}

#[test]
fn gate_rejects_missing_header() {
    assert_eq!(
        auth_user(&AuthorizationHeader::Missing, &key(), NOW).unwrap_err(),
        Error::NoAuthorizationHeader
    );
    assert_eq!(
        enforce_role(&AuthorizationHeader::Missing, Role::Admin, &key(), NOW).unwrap_err(),
        Error::NoAuthorizationHeader
    );
}

#[test]
fn gate_rejects_unreadable_header() {
    assert_eq!(
        auth_user(&AuthorizationHeader::Unreadable, &key(), NOW).unwrap_err(),
        Error::AuthorizationParsing
    );
}

#[test]
fn gate_rejects_garbage_token() {
    let header = AuthorizationHeader::Value("no.real.token".to_string());
    assert_eq!(
        auth_user(&header, &key(), NOW).unwrap_err(),
        Error::InvalidToken
    );
}

#[test]
fn gate_rejects_expired_token() {
    let header = header_for(1, Role::Admin);
    assert_eq!(
        auth_user(&header, &key(), NOW + 120).unwrap_err(),
        Error::InvalidToken
    );
}

#[test]
fn optional_auth_allows_anonymous() {
    // The optional-auth convention: a missing header means anonymous,
    // while a present but invalid one still fails.
    let anonymous = auth_user_optional(&AuthorizationHeader::Missing, &key(), NOW).unwrap();
    assert!(anonymous.is_none());
    let named = auth_user_optional(&header_for(4, Role::Author), &key(), NOW).unwrap();
    assert_eq!(named.unwrap().id, 4);
    let garbage = AuthorizationHeader::Value("garbage".to_string());
    assert!(auth_user_optional(&garbage, &key(), NOW).is_err());
}

#[test]
fn disallow_anonymous_and_role_rules() {
    // Admins and authors pass a gate that disallows the bare role; users
    // without a role and anonymous requests do not.
    let admin = header_for(1, Role::Admin);
    assert!(disallow_anonymous_and_role(&admin, Role::NoRole, &key(), NOW).is_ok());
    let author = header_for(2, Role::Author);
    assert!(disallow_anonymous_and_role(&author, Role::NoRole, &key(), NOW).is_ok());
    let none = header_for(3, Role::NoRole);
    assert_eq!(
        disallow_anonymous_and_role(&none, Role::NoRole, &key(), NOW).unwrap_err(),
        Error::RoleNotAllowed
    );
    assert_eq!(
        disallow_anonymous_and_role(&AuthorizationHeader::Missing, Role::NoRole, &key(), NOW)
            .unwrap_err(),
        Error::NoAuthorizationHeader
    );
}
