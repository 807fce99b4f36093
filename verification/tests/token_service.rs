use camion::role::Role;
use camion::token::{
    auth_jwt_from_id, claims_from_token, from_claims, from_id, to_claims, token_from_claims,
    Claims,
};

fn key() -> Vec<u8> {
    b"a-test-signing-key".to_vec()
}

#[test]
fn token_roundtrip_all_roles() {
    let now: u64 = 1_700_000_000;
    for role in [Role::Admin, Role::Author, Role::NoRole] {
        let token = from_claims(Claims { id: 7, role }, 120, &key(), now).unwrap();
        let claims = to_claims(&token, &key(), now).unwrap();
        assert_eq!(claims.id, 7);
        assert_eq!(claims.role, role);
    }
}

#[test]
fn token_ttl_window() {
    // A token issued with a 120-second ttl verifies before expiration
    // and fails from the expiration instant on.
    let now: u64 = 1_700_000_000;
    let token = from_claims(Claims { id: 3, role: Role::Author }, 120, &key(), now).unwrap();
    assert!(to_claims(&token, &key(), now).is_ok());
    assert!(to_claims(&token, &key(), now + 119).is_ok());
    assert!(to_claims(&token, &key(), now + 120).is_err());
    assert!(to_claims(&token, &key(), now + 121).is_err());
}

#[test]
fn token_rejects_wrong_key() {
    let now: u64 = 1_700_000_000;
    let token = from_claims(Claims { id: 3, role: Role::Admin }, 120, &key(), now).unwrap();
    let other = b"another-signing-key".to_vec();
    assert!(to_claims(&token, &other, now).is_err());
}

#[test]
fn token_rejects_tampering() {
    let now: u64 = 1_700_000_000;
    let token = from_claims(Claims { id: 3, role: Role::Admin }, 120, &key(), now).unwrap();
    let mut tampered = token.clone();
    tampered.push('x');
    assert!(to_claims(&tampered, &key(), now).is_err());
    assert!(to_claims(&"definitely.not.atoken".to_string(), &key(), now).is_err());
    assert!(to_claims(&"".to_string(), &key(), now).is_err());
}

#[test]
fn token_rejects_wrong_algorithm() {
    // A token signed with another MAC algorithm under the same key is
    // refused.
    let now: u64 = 1_700_000_000;
    let header = jsonwebtoken::Header::new(jsonwebtoken::Algorithm::HS256);
    let enc_key = jsonwebtoken::EncodingKey::from_secret(&key());
    let mut claims = serde_json::Map::new();
    claims.insert("id".to_string(), serde_json::Value::from(3));
    claims.insert("role".to_string(), serde_json::Value::from("Admin"));
    claims.insert("exp".to_string(), serde_json::Value::from(now + 120));
    let token = jsonwebtoken::encode(&header, &claims, &enc_key).unwrap();
    assert!(to_claims(&token, &key(), now).is_err());
}

#[test]
fn token_rejects_unknown_role_name() {
    let now: u64 = 1_700_000_000;
    let header = jsonwebtoken::Header::new(jsonwebtoken::Algorithm::HS512);
    let enc_key = jsonwebtoken::EncodingKey::from_secret(&key());
    let mut claims = serde_json::Map::new();
    claims.insert("id".to_string(), serde_json::Value::from(3));
    claims.insert("role".to_string(), serde_json::Value::from("Root"));
    claims.insert("exp".to_string(), serde_json::Value::from(now + 120));
    let token = jsonwebtoken::encode(&header, &claims, &enc_key).unwrap();
    assert!(to_claims(&token, &key(), now).is_err());
}

#[test]
fn token_pair_helpers_agree() {
    let now: u64 = 1_700_000_000;
    let token = token_from_claims(11, Role::Author, 120, &key(), now).unwrap();
    let (id, role) = claims_from_token(&token, &key(), now).unwrap();
    assert_eq!(id, 11);
    assert_eq!(role, Role::Author);
}

#[test]
fn id_token_issues() {
    let now: u64 = 1_700_000_000;
    let t1 = from_id(5, 60, &key(), now).unwrap();
    let t2 = auth_jwt_from_id(5, 60, &key(), now).unwrap();
    // The id-only payload has no random part: the encodings agree.
    assert_eq!(t1, t2);
    assert!(!t1.is_empty());
    // An id-only token is not a valid identity token: it carries no role.
    assert!(to_claims(&t1, &key(), now).is_err());
}
