//! The token service: issuing and verifying signed, time-limited identity
//! tokens.
//!
//! A token carries `{id, role, exp}` claims, HMAC-SHA-512 signed with a
//! process-wide secret key. The key and the clock are passed in
//! explicitly: the expiration is always computed here, never supplied by
//! a client, and the expiry comparison against the clock is part of the
//! verified logic.

use vstd::prelude::*;
use crate::role::Role;
use crate::role::spec_role_name;
use crate::role::spec_role_of_name;

verus! {

broadcast use vstd::string::group_string_axioms;

/// The identity signed into a token: user id and role.
#[derive(Clone, Copy, PartialEq, Eq, Structural, Debug)]
pub struct Claims {
    pub id: i32,
    pub role: Role,
}

/// What jsonwebtoken's `decode` under HS512 recovers from a token string
/// and a secret key, with expiry left to the caller: the `id`, `role`
/// and `exp` claims of the payload, if the token is three base64url
/// parts whose header names HS512, whose HMAC-SHA-512 signature over the
/// key matches, and whose payload carries an integer `id`, a string
/// `role` and an unsigned integer `exp`; nothing otherwise. Every other
/// claim the payload may carry is ignored. The outcome depends on the
/// token and the key alone.
pub uninterp spec fn token_claims_of(token: Seq<char>, key: Seq<u8>) -> Option<
    (i64, Seq<char>, u64),
>;

/// What jsonwebtoken's `encode` produces for an id-only payload
/// `{id, exp}` under HS512 with the given key: a function of the
/// arguments alone, since the signature and the payload encoding are
/// deterministic.
pub uninterp spec fn id_token_of(id: i64, exp: u64, key: Seq<u8>) -> Seq<char>;

/// Relies on jsonwebtoken's `encode`: it signs the payload
/// `{id, role, exp}` with HMAC-SHA-512 under the key, and `decode` under
/// the same key recovers exactly those claims. For a secret key the
/// signer accepts any key length and serializing this payload cannot
/// fail, so the call always succeeds.
#[verifier::external_body]
pub fn jwt_create(id: i64, role: &String, exp: u64, key: &Vec<u8>) -> (r: Result<String, ()>)
    ensures
        r is Ok,
        r is Ok ==> token_claims_of(r.unwrap()@, key@) == Some((id, role@, exp)),
{
    let header = jsonwebtoken::Header::new(jsonwebtoken::Algorithm::HS512);
    let enc_key = jsonwebtoken::EncodingKey::from_secret(key.as_slice());
    let mut claims = serde_json::Map::new();
    claims.insert("id".to_string(), serde_json::Value::from(id));
    claims.insert("role".to_string(), serde_json::Value::from(role.as_str()));
    claims.insert("exp".to_string(), serde_json::Value::from(exp));
    jsonwebtoken::encode(&header, &claims, &enc_key).map_err(|_| ())
}

/// Relies on jsonwebtoken's `encode`, as `jwt_create`, for the id-only
/// payload `{id, exp}`; it too always succeeds.
#[verifier::external_body]
pub fn jwt_create_id(id: i64, exp: u64, key: &Vec<u8>) -> (r: Result<String, ()>)
    ensures
        r is Ok,
        r is Ok ==> r.unwrap()@ == id_token_of(id, exp, key@),
{
    let header = jsonwebtoken::Header::new(jsonwebtoken::Algorithm::HS512);
    let enc_key = jsonwebtoken::EncodingKey::from_secret(key.as_slice());
    let mut claims = serde_json::Map::new();
    claims.insert("id".to_string(), serde_json::Value::from(id));
    claims.insert("exp".to_string(), serde_json::Value::from(exp));
    jsonwebtoken::encode(&header, &claims, &enc_key).map_err(|_| ())
}

/// Relies on jsonwebtoken's `decode` with HS512 as the only accepted
/// algorithm: a wrong-algorithm, malformed or wrongly signed token is
/// rejected. Expiry is deliberately not checked here; the verified
/// callers compare `exp` against the clock themselves.
#[verifier::external_body]
pub fn jwt_decode(token: &String, key: &Vec<u8>) -> (r: Result<(i64, String, u64), ()>)
    ensures
        r is Ok <==> token_claims_of(token@, key@) is Some,
        r is Ok ==> r.unwrap().0 == token_claims_of(token@, key@).unwrap().0 && r.unwrap().1@
            == token_claims_of(token@, key@).unwrap().1 && r.unwrap().2 == token_claims_of(
            token@,
            key@,
        ).unwrap().2,
{
    let dec_key = jsonwebtoken::DecodingKey::from_secret(key.as_slice());
    let mut validation = jsonwebtoken::Validation::new(jsonwebtoken::Algorithm::HS512);
    validation.validate_exp = false;
    validation.validate_aud = false;
    let data = match jsonwebtoken::decode::<serde_json::Value>(token, &dec_key, &validation) {
        Ok(data) => data.claims,
        Err(_) => return Err(()),
    };
    let id = data.get("id").and_then(serde_json::Value::as_i64);
    let role = data.get("role").and_then(serde_json::Value::as_str);
    let exp = data.get("exp").and_then(serde_json::Value::as_u64);
    match (id, role, exp) {
        (Some(id), Some(role), Some(exp)) => Ok((id, role.to_string(), exp)),
        _ => Err(()),
    }
}

/// Relies on `std::time::SystemTime::now`: the clock reading, converted
/// to whole seconds since the epoch, with a pre-epoch clock reading as
/// zero. Nothing is assumed of the value; callers state what holds for
/// every reading.
#[verifier::external_body]
pub fn now_seconds() -> u64 {
    match std::time::SystemTime::now().duration_since(std::time::UNIX_EPOCH) {
        Ok(since_epoch) => since_epoch.as_secs(),
        Err(_) => 0,
    }
}

/// The claims a token yields at instant `now`: the signed payload, if
/// the signature verifies, the id fits, the role name is known and the
/// expiration has not passed; nothing otherwise. All failure causes
/// collapse into one rejection.
pub open spec fn spec_token_claims(token: Seq<char>, key: Seq<u8>, now: u64) -> Option<Claims> {
    match token_claims_of(token, key) {
        Some((id, role_name, exp)) => {
            if now < exp && i32::MIN <= id <= i32::MAX && spec_role_of_name(role_name) is Some {
                Some(Claims { id: id as i32, role: spec_role_of_name(role_name).unwrap() })
            } else {
                None
            }
        },
        None => None,
    }
}

/// Issues a token for the claims, expiring `expiration_sec` seconds
/// after `now`. It succeeds exactly when that expiration instant is
/// representable, and the token then verifies back to exactly these
/// claims until the instant; the one failure is never attributed to the
/// claims.
pub fn from_claims(claims: Claims, expiration_sec: u64, key: &Vec<u8>, now: u64) -> (r: Result<
    String,
    (),
>)
    ensures
        r is Ok <==> now + expiration_sec <= u64::MAX,
        r is Ok ==> token_claims_of(r.unwrap()@, key@) == Some(
            (claims.id as i64, spec_role_name(claims.role), (now + expiration_sec) as u64),
        ),
{
    let exp = match now.checked_add(expiration_sec) {
        Some(e) => e,
        None => {
            return Err(());
        },
    };
    jwt_create(claims.id as i64, &claims.role.name(), exp, key)
}

/// Verifies a token at instant `now` and returns its claims. Wrong
/// signature, wrong algorithm, malformed payload and elapsed expiration
/// all collapse into the same error, so a caller learns nothing about
/// which check failed.
pub fn to_claims(token: &String, key: &Vec<u8>, now: u64) -> (r: Result<Claims, ()>)
    ensures
        r is Ok ==> spec_token_claims(token@, key@, now) == Some(r.unwrap()),
        r is Err ==> spec_token_claims(token@, key@, now) is None,
{
    let decoded = match jwt_decode(token, key) {
        Ok(d) => d,
        Err(_) => {
            return Err(());
        },
    };
    let (id, role_name, exp) = decoded;
    if !(now < exp) {
        return Err(());
    }
    if id < i32::MIN as i64 || id > i32::MAX as i64 {
        return Err(());
    }
    match Role::from_name(&role_name) {
        Some(role) => Ok(Claims { id: id as i32, role }),
        None => Err(()),
    }
}

/// Issues a token for an id and role pair; `from_claims` on the pair.
pub fn token_from_claims(id: i32, role: Role, expiration_sec: u64, key: &Vec<u8>, now: u64) -> (r:
    Result<String, ()>)
    ensures
        r is Ok <==> now + expiration_sec <= u64::MAX,
        r is Ok ==> token_claims_of(r.unwrap()@, key@) == Some(
            (id as i64, spec_role_name(role), (now + expiration_sec) as u64),
        ),
{
    from_claims(Claims { id, role }, expiration_sec, key, now)
}

/// Verifies a token at instant `now` and returns its id and role pair.
pub fn claims_from_token(token: &String, key: &Vec<u8>, now: u64) -> (r: Result<(i32, Role), ()>)
    ensures
        r is Ok ==> spec_token_claims(token@, key@, now) == Some(
            Claims { id: r.unwrap().0, role: r.unwrap().1 },
        ),
        r is Err ==> spec_token_claims(token@, key@, now) is None,
{
    match to_claims(token, key, now) {
        Ok(claims) => Ok((claims.id, claims.role)),
        Err(e) => Err(e),
    }
}

/// Issues an id-only token expiring `expiration_sec` seconds after
/// `now`.
pub fn from_id(id: i32, expiration_sec: u64, key: &Vec<u8>, now: u64) -> (r: Result<String, ()>)
    ensures
        r is Ok <==> now + expiration_sec <= u64::MAX,
        r is Ok ==> r.unwrap()@ == id_token_of(id as i64, (now + expiration_sec) as u64, key@),
{
    let exp = match now.checked_add(expiration_sec) {
        Some(e) => e,
        None => {
            return Err(());
        },
    };
    jwt_create_id(id as i64, exp, key)
}

/// Issues an id-only authentication token; `from_id` under the name the
/// account layer uses.
pub fn auth_jwt_from_id(id: i32, expiration_sec: u64, key: &Vec<u8>, now: u64) -> (r: Result<
    String,
    (),
>)
    ensures
        r is Ok <==> now + expiration_sec <= u64::MAX,
        r is Ok ==> r.unwrap()@ == id_token_of(id as i64, (now + expiration_sec) as u64, key@),
{
    from_id(id, expiration_sec, key, now)
}

/// A token whose payload carries claims `c` and expiration `exp` under a
/// key verifies under that key to exactly `c` at every instant before
/// `exp`, and fails at every instant from `exp` on.
pub proof fn lemma_verify_window(token: Seq<char>, key: Seq<u8>, c: Claims, exp: u64, now: u64)
    requires
        token_claims_of(token, key) == Some((c.id as i64, spec_role_name(c.role), exp)),
    ensures
        now < exp ==> spec_token_claims(token, key, now) == Some(c),
        now >= exp ==> spec_token_claims(token, key, now) is None,
{
    crate::role::lemma_role_name_roundtrip(c.role);
}

} // verus!
