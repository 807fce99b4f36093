use camion::security::{fake_password_verify, password_salt_and_hash, password_verify};

#[test]
fn hash_is_salted_and_verifies() {
    let password = "superPass2021'-".to_string();
    let h1 = password_salt_and_hash(&password).unwrap();
    let h2 = password_salt_and_hash(&password).unwrap();
    // Fresh random salts: two hashes of the same password differ.
    assert_ne!(h1, h2);
    // Both still verify against the password.
    assert!(password_verify(&password, &h1));
    assert!(password_verify(&password, &h2));
}

#[test]
fn verify_rejects_wrong_password() {
    let hash = password_salt_and_hash(&"superPassword".to_string()).unwrap();
    assert!(!password_verify(&"superWrongPassword".to_string(), &hash));
}

#[test]
fn malformed_hash_verifies_false() {
    // A string that is no PHC hash verifies as false, never as an error.
    assert!(!password_verify(&"secret".to_string(), &"not-a-hash".to_string()));
    assert!(!password_verify(&"secret".to_string(), &"".to_string()));
}

#[test]
fn fake_verify_runs() {
    // The timing-equalization call completes and returns nothing.
    fake_password_verify();
}
