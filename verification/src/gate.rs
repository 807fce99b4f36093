//! The authorization gate: extracting and verifying the bearer token an
//! inbound request carries, and enforcing identity-match or role-match
//! policies for protected operations.

use vstd::prelude::*;
use crate::role::Role;
use crate::token;
use crate::token::Claims;
use crate::token::spec_token_claims;

verus! {

/// Why an inbound request was not authorized.
#[derive(Clone, Copy, PartialEq, Eq, Structural, Debug)]
pub enum Error {
    NoAuthorizationHeader,
    AuthorizationParsing,
    InvalidToken,
    UserNotAllowed,
    RoleNotAllowed,
}

/// An inbound request's authorization header, as the HTTP layer hands it
/// over: absent, present but not readable as text, or the raw token
/// string (no scheme prefix is used).
pub enum AuthorizationHeader {
    Missing,
    Unreadable,
    Value(String),
}

/// What authenticating a request yields at instant `now`: the verified
/// token's claims, or the error naming what was missing or invalid.
pub open spec fn spec_auth_user(header: AuthorizationHeader, key: Seq<u8>, now: u64) -> Result<
    Claims,
    Error,
> {
    match header {
        AuthorizationHeader::Missing => Err(Error::NoAuthorizationHeader),
        AuthorizationHeader::Unreadable => Err(Error::AuthorizationParsing),
        AuthorizationHeader::Value(t) => match spec_token_claims(t@, key, now) {
            Some(c) => Ok(c),
            None => Err(Error::InvalidToken),
        },
    }
}

/// What role enforcement yields: the authentication error if any, then
/// `RoleNotAllowed` unless the token carries exactly the required role.
pub open spec fn spec_enforce_role(
    header: AuthorizationHeader,
    role: Role,
    key: Seq<u8>,
    now: u64,
) -> Result<(), Error> {
    match spec_auth_user(header, key, now) {
        Ok(c) => if c.role == role {
            Ok(())
        } else {
            Err(Error::RoleNotAllowed)
        },
        Err(e) => Err(e),
    }
}

/// What identity enforcement yields: the authentication error if any,
/// then `UserNotAllowed` unless the token carries exactly the required
/// user id.
pub open spec fn spec_enforce_id(
    header: AuthorizationHeader,
    id: i32,
    key: Seq<u8>,
    now: u64,
) -> Result<(), Error> {
    match spec_auth_user(header, key, now) {
        Ok(c) => if c.id == id {
            Ok(())
        } else {
            Err(Error::UserNotAllowed)
        },
        Err(e) => Err(e),
    }
}

/// Authenticates a request: mandatory-auth convention, where a missing
/// header is already a failure.
pub fn auth_user(header: &AuthorizationHeader, key: &Vec<u8>, now: u64) -> (r: Result<
    Claims,
    Error,
>)
    ensures
        r == spec_auth_user(*header, key@, now),
{
    match header {
        AuthorizationHeader::Missing => Err(Error::NoAuthorizationHeader),
        AuthorizationHeader::Unreadable => Err(Error::AuthorizationParsing),
        AuthorizationHeader::Value(t) => match token::to_claims(t, key, now) {
            Ok(c) => Ok(c),
            Err(_) => Err(Error::InvalidToken),
        },
    }
}

/// Authenticates a request under the optional-auth convention: a missing
/// header means "proceed anonymously" rather than a failure, while a
/// present but unreadable or invalid one still fails.
pub fn auth_user_optional(header: &AuthorizationHeader, key: &Vec<u8>, now: u64) -> (r: Result<
    Option<Claims>,
    Error,
>)
    ensures
        match spec_auth_user(*header, key@, now) {
            Ok(c) => r == Ok::<Option<Claims>, Error>(Some(c)),
            Err(Error::NoAuthorizationHeader) => r == Ok::<Option<Claims>, Error>(
                Option::<Claims>::None,
            ),
            Err(e) => r == Err::<Option<Claims>, Error>(e),
        },
{
    match auth_user(header, key, now) {
        Ok(c) => Ok(Some(c)),
        Err(Error::NoAuthorizationHeader) => Ok(Option::None),
        Err(e) => Err(e),
    }
}

/// Requires the request's token to carry exactly the given role.
pub fn enforce_role(header: &AuthorizationHeader, role: Role, key: &Vec<u8>, now: u64) -> (r:
    Result<(), Error>)
    ensures
        r == spec_enforce_role(*header, role, key@, now),
{
    match auth_user(header, key, now) {
        Ok(c) => {
            if c.role == role {
                Ok(())
            } else {
                Err(Error::RoleNotAllowed)
            }
        },
        Err(e) => Err(e),
    }
}

/// Requires the request's token to carry exactly the given user id.
pub fn enforce_id(header: &AuthorizationHeader, id: i32, key: &Vec<u8>, now: u64) -> (r: Result<
    (),
    Error,
>)
    ensures
        r == spec_enforce_id(*header, id, key@, now),
{
    match auth_user(header, key, now) {
        Ok(c) => {
            if c.id == id {
                Ok(())
            } else {
                Err(Error::UserNotAllowed)
            }
        },
        Err(e) => Err(e),
    }
}

/// Requires a verified token whose role is *not* the given one: the
/// convention for endpoints open to every signed-in user above a
/// disallowed role, with anonymous requests refused outright.
pub fn disallow_anonymous_and_role(
    header: &AuthorizationHeader,
    disallowed: Role,
    key: &Vec<u8>,
    now: u64,
) -> (r: Result<Claims, Error>)
    ensures
        match spec_auth_user(*header, key@, now) {
            Ok(c) => r == if c.role != disallowed {
                Ok::<Claims, Error>(c)
            } else {
                Err::<Claims, Error>(Error::RoleNotAllowed)
            },
            Err(e) => r == Err::<Claims, Error>(e),
        },
{
    match auth_user(header, key, now) {
        Ok(c) => {
            if !(c.role == disallowed) {
                Ok(c)
            } else {
                Err(Error::RoleNotAllowed)
            }
        },
        Err(e) => Err(e),
    }
}

/// For a valid, unexpired token, role enforcement turns on the carried
/// role alone: it succeeds exactly when the token carries the required
/// role, and otherwise fails with `RoleNotAllowed`.
pub proof fn lemma_enforce_role_decides_by_role(
    t: String,
    key: Seq<u8>,
    c: Claims,
    exp: u64,
    now: u64,
    required: Role,
)
    requires
        token::token_claims_of(t@, key) == Some(
            (c.id as i64, crate::role::spec_role_name(c.role), exp),
        ),
        now < exp,
    ensures
        spec_enforce_role(AuthorizationHeader::Value(t), required, key, now) == (if c.role
            == required {
            Ok::<(), Error>(())
        } else {
            Err::<(), Error>(Error::RoleNotAllowed)
        }),
{
    token::lemma_verify_window(t@, key, c, exp, now);
}

} // verus!
