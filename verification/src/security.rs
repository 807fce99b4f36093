//! The credential hasher: salted, memory-hard password hashing and
//! verification, plus the timing-equalization helper used by the login
//! resolver when no user record exists.

use vstd::prelude::*;
use argon2::PasswordHasher;
use argon2::PasswordVerifier;

verus! {

broadcast use vstd::string::group_string_axioms;

/// Whether argon2 password verification accepts `hash` as a salted hash of
/// `password`. This is what `Argon2::verify_password` computes from the
/// two strings alone: the salt and parameters are carried inside the PHC
/// hash string, so the outcome is a function of its arguments.
pub uninterp spec fn is_hash_of(hash: Seq<char>, password: Seq<char>) -> bool;

/// Whether a string parses as a PHC hash string: what
/// `PasswordHash::new` decides, a function of the string alone.
pub uninterp spec fn is_phc_hash(hash: Seq<char>) -> bool;

/// Relies on argon2's `PasswordHasher::hash_password`: it draws a fresh
/// random salt and produces a PHC hash string that `verify_password`
/// accepts for the same password.
#[verifier::external_body]
pub fn password_salt_and_hash(password: &String) -> (r: Result<String, ()>)
    ensures
        r is Ok ==> is_hash_of(r.unwrap()@, password@),
{
    argon2::Argon2::default()
        .hash_password(password.as_bytes())
        .map(|hash| hash.to_string())
        .map_err(|_| ())
}

/// Relies on argon2's `PasswordVerifier::verify_password`: it recomputes
/// the hash under the salt and parameters carried in the PHC string and
/// compares. A string that does not parse as a PHC hash verifies as
/// `false`, never as an error.
#[verifier::external_body]
pub fn password_verify(password: &String, hash: &String) -> (r: bool)
    ensures
        r == is_hash_of(hash@, password@),
        !is_phc_hash(hash@) ==> r == false,
{
    match argon2::PasswordHash::new(hash.as_str()) {
        Ok(parsed_hash) => argon2::Argon2::default()
            .verify_password(password.as_bytes(), &parsed_hash)
            .is_ok(),
        _ => false,
    }
}

/// Verifies a fixed password against a fixed hash and discards the
/// outcome. The login resolver calls this when an email lookup found no
/// user, so that the response takes about as long as a genuine password
/// verification would; otherwise response timing would reveal whether an
/// email address is registered.
pub fn fake_password_verify() {
    let password = String::from_str("iadAIDAG~~~ZI##123611#{{__");
    let hash = String::from_str(
        "$argon2id$v=19$m=4096,t=3,p=1$KaoNKL8Ce5qieyRqDMbaXg$O2z+Xx2GUZOMmf2zFtyt7nu9xGm8nvfKSKS7bxTN9wg",
    );
    let _ = password_verify(&password, &hash);
}

} // verus!
