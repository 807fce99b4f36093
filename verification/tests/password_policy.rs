use camion::password::{find_weaknesses, Weakness};

fn has(v: &[Weakness], w: Weakness) -> bool {
    v.iter().any(|x| *x == w)
}

#[test]
fn password_find_no_issues_valid() {
    let issues = find_weaknesses(&"strongPassword10#[".to_string());
    assert!(issues.is_none());
}

#[test]
fn password_reject_only_lowercase_alphabetic() {
    let issues = find_weaknesses(&"blabasecret".to_string()).unwrap();
    assert!(has(&issues, Weakness::NoNumeric));
    assert!(has(&issues, Weakness::NoSpecialChars));
    assert!(has(&issues, Weakness::NoUpperCase));
}

#[test]
fn password_reject_only_uppercase_alphabetic() {
    let issues = find_weaknesses(&"BLABLASECRET".to_string()).unwrap();
    assert!(has(&issues, Weakness::NoNumeric));
    assert!(has(&issues, Weakness::NoSpecialChars));
    assert!(has(&issues, Weakness::NoLowerCase));
}

#[test]
fn password_reject_only_numeric_or_short() {
    let issues = find_weaknesses(&"1917".to_string()).unwrap();
    assert!(has(&issues, Weakness::NoAlphabetic));
    assert!(has(&issues, Weakness::NoSpecialChars));
    assert!(has(&issues, Weakness::NoLowerCase));
    assert!(has(&issues, Weakness::NoUpperCase));
    assert!(has(&issues, Weakness::NotLongEnough));
}

#[test]
fn password_reject_only_special_chars() {
    let issues = find_weaknesses(&"~#~~{{{~]]{&&#".to_string()).unwrap();
    assert!(has(&issues, Weakness::NoAlphabetic));
    assert!(has(&issues, Weakness::NoLowerCase));
    assert!(has(&issues, Weakness::NoUpperCase));
    assert!(has(&issues, Weakness::NoNumeric));
}

#[test]
fn register_test_password_rules() {
    assert!(find_weaknesses(&"strongPassword10#[".to_string()).is_none());

    let issues = find_weaknesses(&"blabasecret".to_string()).unwrap();
    assert!(has(&issues, Weakness::NoNumeric));
    assert!(has(&issues, Weakness::NoSpecialChars));
    assert!(has(&issues, Weakness::NoUpperCase));

    let issues = find_weaknesses(&"BLABLASECRET".to_string()).unwrap();
    assert!(has(&issues, Weakness::NoNumeric));
    assert!(has(&issues, Weakness::NoSpecialChars));
    assert!(has(&issues, Weakness::NoLowerCase));

    let issues = find_weaknesses(&"1917".to_string()).unwrap();
    assert!(has(&issues, Weakness::NoAlphabetic));
    assert!(has(&issues, Weakness::NoSpecialChars));
    assert!(has(&issues, Weakness::NoLowerCase));
    assert!(has(&issues, Weakness::NoUpperCase));
    assert!(has(&issues, Weakness::NotLongEnough));

    let issues = find_weaknesses(&"~#~~{{{~]]{&&#".to_string()).unwrap();
    assert!(has(&issues, Weakness::NoAlphabetic));
    assert!(has(&issues, Weakness::NoLowerCase));
    assert!(has(&issues, Weakness::NoUpperCase));
    assert!(has(&issues, Weakness::NoNumeric));
}

#[test]
fn password_length_boundary() {
    // Seven characters carry NotLongEnough, eight do not.
    let short = find_weaknesses(&"aB3#aB3".to_string()).unwrap();
    assert!(has(&short, Weakness::NotLongEnough));
    assert!(find_weaknesses(&"aB3#aB3#".to_string()).is_none());
}

#[test]
fn password_issue_order_is_fixed() {
    // The report lists weaknesses in a fixed order.
    let issues = find_weaknesses(&"blabasecret".to_string()).unwrap();
    assert_eq!(
        issues,
        vec![Weakness::NoNumeric, Weakness::NoSpecialChars, Weakness::NoUpperCase]
    );
    let issues = find_weaknesses(&"".to_string()).unwrap();
    assert_eq!(
        issues,
        vec![
            Weakness::NotLongEnough,
            Weakness::NoNumeric,
            Weakness::NoAlphabetic,
            Weakness::NoSpecialChars,
            Weakness::NoUpperCase,
            Weakness::NoLowerCase,
        ]
    );
}

#[test]
fn password_length_counts_bytes() {
    // Seven two-byte characters are fourteen bytes: long enough.
    let issues = find_weaknesses(&"äöüäöüä".to_string()).unwrap();
    assert!(!has(&issues, Weakness::NotLongEnough));
}

#[test]
fn password_classes_are_unicode() {
    // A password of non-ASCII lowercase letters still counts as
    // lowercase, alphabetic and alphanumeric.
    let issues = find_weaknesses(&"éèéèéèéè".to_string()).unwrap();
    assert_eq!(
        issues,
        vec![Weakness::NoNumeric, Weakness::NoSpecialChars, Weakness::NoUpperCase]
    );
    // And non-ASCII uppercase letters as uppercase.
    let issues = find_weaknesses(&"ÄÖÜÄÖÜÄÖ".to_string()).unwrap();
    assert_eq!(
        issues,
        vec![Weakness::NoNumeric, Weakness::NoSpecialChars, Weakness::NoLowerCase]
    );
}
