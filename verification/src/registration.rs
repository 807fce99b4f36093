//! The registration service: validate the submitted data, then hash the
//! password and insert the account.

use vstd::prelude::*;
use crate::email;
use crate::email::is_email_like;
use crate::password;
use crate::role::Role;
use crate::security::is_hash_of;
use crate::store::UserField;
use crate::store::UserStore;
use crate::store::spec_is_unique;
use crate::username;
use crate::users::UserV;

verus! {

/// A registration request: the submitted username, email and plaintext
/// password. The password is transient; it never outlives hashing.
pub struct Data {
    pub username: String,
    pub email: String,
    pub password: String,
}

/// Why a registration was not performed: the submitted data is at fault
/// (reported in full detail, field by field), or an operational failure
/// occurred (reported without internal detail).
#[derive(Debug)]
pub enum Error {
    Data(DataIssues),
    Failure(Failures),
}

/// The operational failures registration can run into. Neither is ever
/// attributed to the client's input.
#[derive(Clone, Copy, PartialEq, Eq, Structural, Debug)]
pub enum Failures {
    PasswordHashing,
    DatabaseInsertion,
}

/// The issue report for a rejected registration: each field is `None`
/// exactly when it is clean, and the three are computed independently.
#[derive(Debug)]
pub struct DataIssues {
    pub username: Option<Vec<username::Issues>>,
    pub email: Option<Vec<email::Issues>>,
    pub password: Option<Vec<password::Weakness>>,
}

/// The issue lists a request accumulates against the given
/// uniqueness-oracle outcomes, one per field.
pub open spec fn spec_issues_of(
    data: &Data,
    username_unique: Result<bool, ()>,
    email_unique: Result<bool, ()>,
) -> (Seq<username::Issues>, Seq<email::Issues>, Seq<password::Weakness>) {
    (
        username::spec_username_issues(data.username@, username_unique),
        email::spec_email_issues(data.email@, email_unique),
        password::spec_weaknesses(data.password@),
    )
}

/// Whether an issue report matches the given issue lists: each field
/// present exactly when its list is nonempty.
pub open spec fn spec_issues_match(
    report: &DataIssues,
    issues: (Seq<username::Issues>, Seq<email::Issues>, Seq<password::Weakness>),
) -> bool {
    &&& match report.username {
        Some(ref v) => v@ == issues.0 && issues.0.len() > 0,
        None => issues.0.len() == 0,
    }
    &&& match report.email {
        Some(ref v) => v@ == issues.1 && issues.1.len() > 0,
        None => issues.1.len() == 0,
    }
    &&& match report.password {
        Some(ref v) => v@ == issues.2 && issues.2.len() > 0,
        None => issues.2.len() == 0,
    }
}

/// Whether all three issue lists are empty.
pub open spec fn spec_issue_free(
    issues: (Seq<username::Issues>, Seq<email::Issues>, Seq<password::Weakness>),
) -> bool {
    issues.0.len() == 0 && issues.1.len() == 0 && issues.2.len() == 0
}

impl Data {
    /// Validates all three fields against already-obtained oracle
    /// outcomes. The three checks are independent: none short-circuits
    /// the others, and the caller decides only once all have run.
    /// Returns `None` exactly when every field is clean.
    pub fn find_issues_given(
        &self,
        username_unique: Result<bool, ()>,
        email_unique: Result<bool, ()>,
    ) -> (r: Option<DataIssues>)
        ensures
            match r {
                Some(report) => spec_issues_match(
                    &report,
                    spec_issues_of(self, username_unique, email_unique),
                ) && !spec_issue_free(spec_issues_of(self, username_unique, email_unique)),
                None => spec_issue_free(spec_issues_of(self, username_unique, email_unique)),
            },
    {
        let username_issues = username::find_issues_given(&self.username, username_unique);
        let email_issues = email::find_issues_given(&self.email, email_unique);
        let password_issues = password::find_weaknesses(&self.password);
        match (username_issues, email_issues, password_issues) {
            (None, None, None) => None,
            (username, email, password) => Some(DataIssues { username, email, password }),
        }
    }

    /// Validates all three fields against the store.
    pub fn find_issues(&self, store: &UserStore) -> (r: Option<DataIssues>)
        ensures
            match r {
                Some(report) => spec_issues_match(&report, self.spec_store_issues(store))
                    && !spec_issue_free(self.spec_store_issues(store)),
                None => spec_issue_free(self.spec_store_issues(store)),
            },
    {
        let username_issues = username::find_issues(&self.username, store);
        let email_issues = email::find_issues(&self.email, store);
        let password_issues = password::find_weaknesses(&self.password);
        match (username_issues, email_issues, password_issues) {
            (None, None, None) => None,
            (username, email, password) => Some(DataIssues { username, email, password }),
        }
    }

    /// The issue lists this request accumulates against a store.
    pub open spec fn spec_store_issues(&self, store: &UserStore) -> (
        Seq<username::Issues>,
        Seq<email::Issues>,
        Seq<password::Weakness>,
    ) {
        spec_issues_of(
            self,
            Ok(spec_is_unique(store@, UserField::Username, self.username@)),
            Ok(spec_is_unique(store@, UserField::Email, self.email@)),
        )
    }

    /// Hashes the submitted password with the credential hasher.
    pub fn hash_password(&self) -> (r: Result<String, ()>)
        ensures
            r is Ok ==> is_hash_of(r.unwrap()@, self.password@),
    {
        password::hash(&self.password)
    }

    /// Registers the account: validate, then hash and insert with the
    /// default role. A request with issues is rejected in full detail
    /// and nothing is stored. A clean request is stored unless hashing
    /// fails or the identifier space is exhausted; those operational
    /// failures carry no detail and leave the store unchanged.
    pub fn register(&self, store: &mut UserStore) -> (r: Result<i32, Error>)
        requires
            old(store).wf(),
        ensures
            final(store).wf(),
            match r {
                Ok(id) => spec_issue_free(self.spec_store_issues(&*old(store))) && id == old(
                    store,
                ).spec_next_id() && final(store)@.len() == old(store)@.len() + 1 && final(store)@
                    == old(store)@.push(final(store)@.last()) && (final(store)@.last() == (UserV {
                    id: id as int,
                    username: self.username@,
                    role: Role::NoRole,
                    email: self.email@,
                    password: final(store)@.last().password,
                })) && is_hash_of(final(store)@.last().password, self.password@),
                Err(Error::Data(ref report)) => spec_issues_match(
                    report,
                    self.spec_store_issues(&*old(store)),
                ) && !spec_issue_free(self.spec_store_issues(&*old(store))) && final(store)@ == old(
                    store,
                )@,
                Err(Error::Failure(Failures::PasswordHashing)) => spec_issue_free(
                    self.spec_store_issues(&*old(store)),
                ) && final(store)@ == old(store)@,
                Err(Error::Failure(Failures::DatabaseInsertion)) => spec_issue_free(
                    self.spec_store_issues(&*old(store)),
                ) && final(store)@ == old(store)@ && old(store).spec_next_id() == i32::MAX,
            },
    {
        if let Some(issues) = self.find_issues(store) {
            return Err(Error::Data(issues));
        }
        let hashed_password = match self.hash_password() {
            Ok(h) => h,
            Err(_) => {
                return Err(Error::Failure(Failures::PasswordHashing));
            },
        };
        match store.insert_returning_id(
            &self.username,
            &self.email,
            &hashed_password,
            Role::NoRole,
        ) {
            Ok(id) => Ok(id),
            Err(_) => {
                proof {
                    // A clean report means the uniqueness branch of each
                    // field check chose the empty list, so both fields
                    // are free and only identifier exhaustion remains.
                    assert(spec_is_unique(old(store)@, UserField::Username, self.username@));
                    assert(spec_is_unique(old(store)@, UserField::Email, self.email@));
                    old(store).lemma_next_id_bound();
                }
                Err(Error::Failure(Failures::DatabaseInsertion))
            },
        }
    }
}

/// Registering with an email that some stored account already carries
/// reports exactly the email issue `NotUnique`, whatever the username
/// and password issues are: the three field reports are independent.
pub proof fn lemma_taken_email_reported(data: &Data, store: &UserStore)
    requires
        is_email_like(data.email@),
        !spec_is_unique(store@, UserField::Email, data.email@),
    ensures
        data.spec_store_issues(store).1 == seq![email::Issues::NotUnique],
        !spec_issue_free(data.spec_store_issues(store)),
{
}

} // verus!
