//! The login resolver: classify the login string, look the user up,
//! verify the password and issue a short-lived token.
//!
//! The denial taxonomy is deliberately asymmetric: usernames leak
//! existence (`UnknownLogin` vs `InvalidPassword`), emails never do
//! (`InvalidCredentials` covers both an unknown email and a wrong
//! password, and the unknown-email path burns comparable CPU time on a
//! fake verification so response timing does not tell them apart).

use vstd::prelude::*;
use crate::email::is_email_like;
use crate::email::string_is_email;
use crate::security;
use crate::security::is_hash_of;
use crate::store::UserField;
use crate::store::UserStore;
use crate::store::spec_find_by;
use crate::token;
use crate::token::Claims;
use crate::token::token_claims_of;
use crate::role::spec_role_name;
use crate::users::User;
use crate::users::UserV;

verus! {

/// How long a login token lives, in seconds.
pub const LOGIN_TOKEN_TTL_SECS: u64 = 120;

/// A login request: the login string (a username or an email,
/// distinguished by format) and the plaintext password (transient).
pub struct Data {
    pub login: String,
    pub password: String,
}

/// Why a login did not produce a token: denied on the credentials, or an
/// operational failure.
#[derive(Clone, Copy, PartialEq, Eq, Structural, Debug)]
pub enum Error {
    Denied(DeniedReasons),
    Failure(Failure),
}

/// The denial taxonomy. `UnknownLogin`: the username does not exist.
/// `InvalidPassword`: the username exists but the password is wrong.
/// `InvalidCredentials`: the email is unknown or its password is wrong —
/// deliberately not distinguishable.
#[derive(Clone, Copy, PartialEq, Eq, Structural, Debug)]
pub enum DeniedReasons {
    UnknownLogin,
    InvalidPassword,
    InvalidCredentials,
}

/// The operational failures a login can run into; never attributed to
/// the client's input.
#[derive(Clone, Copy, PartialEq, Eq, Structural, Debug)]
pub enum Failure {
    Database,
    TokenCreation,
}

/// A storage lookup outcome, as a storage collaborator reports it: a
/// row, no row, or a storage fault.
pub enum Lookup {
    Found(User),
    NotFound,
    Failed,
}

/// The user a login string resolves to: by email when it is
/// email-shaped, by username otherwise.
pub open spec fn spec_login_user(users: Seq<UserV>, login: Seq<char>) -> Option<UserV> {
    if is_email_like(login) {
        spec_find_by(users, UserField::Email, login)
    } else {
        spec_find_by(users, UserField::Username, login)
    }
}

/// The denial a login request is owed, or `None` when the credentials
/// check out and a token is owed. Wrong password on a username-shaped
/// login reveals that the username existed; everything that goes wrong
/// around an email-shaped login collapses into `InvalidCredentials`.
pub open spec fn spec_login_denial(
    user: Option<UserV>,
    login: Seq<char>,
    password: Seq<char>,
) -> Option<Error> {
    match user {
        Some(u) => {
            if is_hash_of(u.password, password) {
                None
            } else if is_email_like(login) {
                Some(Error::Denied(DeniedReasons::InvalidCredentials))
            } else {
                Some(Error::Denied(DeniedReasons::InvalidPassword))
            }
        },
        None => {
            if is_email_like(login) {
                Some(Error::Denied(DeniedReasons::InvalidCredentials))
            } else {
                Some(Error::Denied(DeniedReasons::UnknownLogin))
            }
        },
    }
}

/// What a successful login's token must decode to: the resolved user's
/// id and role, expiring `LOGIN_TOKEN_TTL_SECS` after `now`.
pub open spec fn spec_login_token_claims(u: UserV, key: Seq<u8>, now: u64) -> Option<
    (i64, Seq<char>, u64),
> {
    Some((u.id as i64, spec_role_name(u.role), (now + LOGIN_TOKEN_TTL_SECS) as u64))
}

impl Data {
    /// Resolves a login against an already-obtained lookup outcome. On
    /// correct credentials a token is owed whenever its expiration
    /// instant is representable. A failed lookup is reported as a
    /// database failure; an unknown email burns a fake password
    /// verification before the denial so its timing resembles the
    /// wrong-password path.
    pub fn login_with_lookup(&self, lookup: Lookup, key: &Vec<u8>, now: u64) -> (r: Result<
        String,
        Error,
    >)
        ensures
            match lookup {
                Lookup::Found(ref u) => match spec_login_denial(
                    Some(u@),
                    self.login@,
                    self.password@,
                ) {
                    Some(e) => r == Err::<String, Error>(e),
                    None => (r is Ok <==> now + LOGIN_TOKEN_TTL_SECS <= u64::MAX) && (r is Ok
                        ==> token_claims_of(r.unwrap()@, key@) == spec_login_token_claims(
                        u@,
                        key@,
                        now,
                    )) && (r is Err ==> r == Err::<String, Error>(
                        Error::Failure(Failure::TokenCreation),
                    )),
                },
                Lookup::NotFound => r == Err::<String, Error>(
                    spec_login_denial(None, self.login@, self.password@).unwrap(),
                ),
                Lookup::Failed => r == Err::<String, Error>(Error::Failure(Failure::Database)),
            },
    {
        let login_is_email = string_is_email(&self.login);
        match lookup {
            Lookup::Found(user) => {
                if security::password_verify(&self.password, &user.password) {
                    match token::from_claims(
                        Claims { id: user.id, role: user.role },
                        LOGIN_TOKEN_TTL_SECS,
                        key,
                        now,
                    ) {
                        Ok(token) => Ok(token),
                        Err(_) => Err(Error::Failure(Failure::TokenCreation)),
                    }
                } else if login_is_email {
                    Err(Error::Denied(DeniedReasons::InvalidCredentials))
                } else {
                    Err(Error::Denied(DeniedReasons::InvalidPassword))
                }
            },
            Lookup::NotFound => {
                if login_is_email {
                    // Resist email-enumeration timing attacks: burn the
                    // time a genuine verification would have taken.
                    security::fake_password_verify();
                    Err(Error::Denied(DeniedReasons::InvalidCredentials))
                } else {
                    Err(Error::Denied(DeniedReasons::UnknownLogin))
                }
            },
            Lookup::Failed => Err(Error::Failure(Failure::Database)),
        }
    }

    /// Resolves a login against the store: classify the login string,
    /// look the user up by email or username accordingly, verify the
    /// password and issue a token for the user's id and role.
    pub fn login(&self, store: &UserStore, key: &Vec<u8>, now: u64) -> (r: Result<String, Error>)
        ensures
            match spec_login_denial(
                spec_login_user(store@, self.login@),
                self.login@,
                self.password@,
            ) {
                Some(e) => r == Err::<String, Error>(e),
                None => (r is Ok <==> now + LOGIN_TOKEN_TTL_SECS <= u64::MAX) && (r is Ok
                    ==> token_claims_of(r.unwrap()@, key@) == spec_login_token_claims(
                    spec_login_user(store@, self.login@).unwrap(),
                    key@,
                    now,
                )) && (r is Err ==> r == Err::<String, Error>(
                    Error::Failure(Failure::TokenCreation),
                )),
            },
    {
        let login_is_email = string_is_email(&self.login);
        let maybe_user = if login_is_email {
            store.find_by_email(&self.login)
        } else {
            store.find_by_username(&self.login)
        };
        let lookup = match maybe_user {
            Some(user) => Lookup::Found(user),
            None => Lookup::NotFound,
        };
        self.login_with_lookup(lookup, key, now)
    }
}

/// For an email-shaped login, the denial for an unknown email and the
/// denial for a known email with a wrong password are the same value:
/// the response does not reveal whether the email is registered.
pub proof fn lemma_email_denials_indistinguishable(
    user: Option<UserV>,
    login: Seq<char>,
    password: Seq<char>,
)
    requires
        is_email_like(login),
        match user {
            Some(u) => !is_hash_of(u.password, password),
            None => true,
        },
    ensures
        spec_login_denial(user, login, password) == Some(
            Error::Denied(DeniedReasons::InvalidCredentials),
        ),
{
}

/// A known username with a wrong password is denied as
/// `InvalidPassword`: the response reveals that the username exists.
pub proof fn lemma_known_username_wrong_password(u: UserV, login: Seq<char>, password: Seq<char>)
    requires
        !is_email_like(login),
        !is_hash_of(u.password, password),
    ensures
        spec_login_denial(Some(u), login, password) == Some(
            Error::Denied(DeniedReasons::InvalidPassword),
        ),
{
}

/// An unknown username is denied as `UnknownLogin`, which differs from
/// every email-shaped denial: username existence is allowed to leak.
pub proof fn lemma_unknown_username_distinguishable(login: Seq<char>, password: Seq<char>)
    requires
        !is_email_like(login),
    ensures
        spec_login_denial(None, login, password) == Some(
            Error::Denied(DeniedReasons::UnknownLogin),
        ),
        spec_login_denial(None, login, password) != Some(
            Error::Denied(DeniedReasons::InvalidCredentials),
        ),
{
}

} // verus!
