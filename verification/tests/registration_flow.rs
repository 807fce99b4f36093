use camion::registration::{Data, Error};
use camion::role::Role;
use camion::security::{password_salt_and_hash, password_verify};
use camion::store::UserStore;

fn request(username: &str, email: &str, password: &str) -> Data {
    Data {
        username: username.to_string(),
        email: email.to_string(),
        password: password.to_string(),
    }
}

#[test]
fn registers_using_same_username_email_and_hashed_salted_password() {
    let mut store = UserStore::new();
    let password = "superPass2021'-";
    let id = request("Anicet", "test@gmail.com", password)
        .register(&mut store)
        .unwrap();
    assert_eq!(id, 1);

    let stored = store.find_by_username(&"Anicet".to_string()).unwrap();
    assert_eq!(stored.email, "test@gmail.com");
    assert_eq!(stored.role, Role::NoRole);
    // The stored password is a salted hash: not the plaintext, and not
    // equal to a freshly computed hash of the same plaintext either.
    assert_ne!(stored.password, password);
    assert_ne!(
        stored.password,
        password_salt_and_hash(&password.to_string()).unwrap()
    );
    // But it verifies against the plaintext.
    assert!(password_verify(&password.to_string(), &stored.password));
}

#[test]
fn email_reject_not_unique() {
    let mut store = UserStore::new();
    let hash = password_salt_and_hash(&"test".to_string()).unwrap();
    store
        .insert_returning_id(
            &"test".to_string(),
            &"anicet@gmail.com".to_string(),
            &hash,
            Role::NoRole,
        )
        .unwrap();

    // A second registration with the same email reports NotUnique on the
    // email, independent of the username and password issues.
    let outcome = request("x", "anicet@gmail.com", "").register(&mut store);
    match outcome {
        Err(Error::Data(report)) => {
            let email_issues = report.email.unwrap();
            assert!(email_issues
                .iter()
                .any(|i| *i == camion::email::Issues::NotUnique));
            // The username and password reports are computed
            // independently and are present here too.
            assert!(report.username.is_some());
            assert!(report.password.is_some());
        }
        _ => panic!("expected a data rejection"),
    }
    assert_eq!(store.len(), 1);
}

#[test]
fn register_rejects_bad_data_without_insert() {
    let mut store = UserStore::new();
    let outcome = request("An", "not-an-email", "weak").register(&mut store);
    match outcome {
        Err(Error::Data(report)) => {
            let username_issues = report.username.unwrap();
            assert!(username_issues
                .iter()
                .any(|i| *i == camion::username::Issues::TooShort));
            let email_issues = report.email.unwrap();
            assert!(email_issues
                .iter()
                .any(|i| *i == camion::email::Issues::Malformed));
            let password_issues = report.password.unwrap();
            assert!(password_issues
                .iter()
                .any(|i| *i == camion::password::Weakness::NotLongEnough));
        }
        _ => panic!("expected a data rejection"),
    }
    assert_eq!(store.len(), 0);
}

#[test]
fn register_assigns_sequential_ids() {
    let mut store = UserStore::new();
    let a = request("UserOne", "one@mail.com", "superPass2021'-")
        .register(&mut store)
        .unwrap();
    let b = request("UserTwo", "two@mail.com", "superPass2021'-")
        .register(&mut store)
        .unwrap();
    assert_eq!(a, 1);
    assert_eq!(b, 2);
    assert_eq!(store.len(), 2);
}

#[test]
fn find_issues_given_uses_oracle_outcomes() {
    let data = request("Anicet", "test@gmail.com", "superPass2021'-");
    assert!(data.find_issues_given(Ok(true), Ok(true)).is_none());
    let report = data.find_issues_given(Ok(false), Err(())).unwrap();
    let username_issues = report.username.unwrap();
    assert!(username_issues
        .iter()
        .any(|i| *i == camion::username::Issues::NotUnique));
    let email_issues = report.email.unwrap();
    assert!(email_issues
        .iter()
        .any(|i| *i == camion::email::Issues::CouldNotBeProcessed));
    assert!(report.password.is_none());
}
