//! Username validation for registration.

use vstd::prelude::*;
use crate::email::is_email_like;
use crate::email::string_is_email;
use crate::store::UserField;
use crate::store::UserStore;
use crate::store::spec_is_unique;
use crate::text::byte_len;

verus! {

/// One reason a submitted username is rejected.
#[derive(Clone, Copy, PartialEq, Eq, Structural, Debug)]
pub enum Issues {
    CouldNotBeProcessed,
    /// An email-shaped username is refused: logins are classified by the
    /// same email-format test, so allowing it would make the login
    /// process ambiguous.
    EmailLike,
    TooShort,
    TooLong,
    NotUnique,
}

/// The exact list of issues a username accumulates, given the uniqueness
/// oracle's outcome. Lengths are counted in UTF-8 bytes, and the length
/// checks short-circuit the uniqueness check: for a too-short or
/// too-long username the outcome is ignored, so a caller need not have
/// consulted the oracle then.
pub open spec fn spec_username_issues(username: Seq<char>, uniqueness: Result<bool, ()>) -> Seq<
    Issues,
> {
    (if is_email_like(username) {
        seq![Issues::EmailLike]
    } else {
        Seq::empty()
    }) + (if byte_len(username) < 3 {
        seq![Issues::TooShort]
    } else if byte_len(username) > 32 {
        seq![Issues::TooLong]
    } else {
        match uniqueness {
            Ok(true) => Seq::empty(),
            Ok(false) => seq![Issues::NotUnique],
            Err(_) => seq![Issues::CouldNotBeProcessed],
        }
    })
}

/// Validates a username against an already-obtained uniqueness-oracle
/// outcome. Returns `None` exactly when there is no issue.
pub fn find_issues_given(username: &String, uniqueness: Result<bool, ()>) -> (r: Option<
    Vec<Issues>,
>)
    ensures
        match r {
            Some(v) => v@ == spec_username_issues(username@, uniqueness) && v@.len() > 0,
            None => spec_username_issues(username@, uniqueness).len() == 0,
        },
{
    let mut issues: Vec<Issues> = Vec::new();
    if string_is_email(username) {
        issues.push(Issues::EmailLike);
    }
    let n = username.as_str().as_bytes().len();
    if n < 3 {
        issues.push(Issues::TooShort);
    } else if n > 32 {
        issues.push(Issues::TooLong);
    } else {
        match uniqueness {
            Ok(true) => (),
            Ok(false) => issues.push(Issues::NotUnique),
            Err(_) => issues.push(Issues::CouldNotBeProcessed),
        }
    }
    assert(issues@ =~= spec_username_issues(username@, uniqueness));
    if issues.len() > 0 {
        Some(issues)
    } else {
        None
    }
}

/// Validates a username against the store, consulting the uniqueness
/// oracle only when the length checks pass.
pub fn find_issues(username: &String, store: &UserStore) -> (r: Option<Vec<Issues>>)
    ensures
        match r {
            Some(v) => v@ == spec_username_issues(
                username@,
                Ok(spec_is_unique(store@, UserField::Username, username@)),
            ) && v@.len() > 0,
            None => spec_username_issues(
                username@,
                Ok(spec_is_unique(store@, UserField::Username, username@)),
            ).len() == 0,
        },
{
    let n = username.as_str().as_bytes().len();
    if 3 <= n && n <= 32 {
        let unique = store.is_unique(UserField::Username, username);
        find_issues_given(username, Ok(unique))
    } else {
        // The oracle outcome is ignored for out-of-range lengths, so any
        // value stands in for the unconsulted oracle.
        let r = find_issues_given(username, Ok(true));
        assert(spec_username_issues(username@, Ok(true)) =~= spec_username_issues(
            username@,
            Ok(spec_is_unique(store@, UserField::Username, username@)),
        ));
        r
    }
}

} // verus!
