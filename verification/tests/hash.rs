use judge_engine::common::hash::hash_password;
use judge_engine::common::hash::hash_password_with_salt;
use judge_engine::common::hash::verify_password;
use judge_engine::common::hash::HashError;

#[test]
fn a_hashed_password_verifies_itself_and_nothing_else() {
    let hashed = hash_password("correct horse").expect("a hash");
    assert!(hashed.starts_with("$argon2id$"));
    assert!(hashed != "correct horse");
    assert!(verify_password(&hashed, "correct horse"));
    assert!(!verify_password(&hashed, "correct horse "));
    assert!(!verify_password(&hashed, ""));
}

#[test]
fn every_hash_has_a_salt_of_its_own() {
    let first = hash_password("secret").expect("a hash");
    let second = hash_password("secret").expect("a hash");
    assert!(first != second);
    assert!(verify_password(&first, "secret"));
    assert!(verify_password(&second, "secret"));
}

#[test]
fn a_hash_depends_on_password_and_salt_alone() {
    let salt = "c29tZXNhbHRzb21lc2FsdA";
    let first = hash_password_with_salt("secret", salt).expect("a hash");
    let second = hash_password_with_salt("secret", salt).expect("a hash");
    assert_eq!(first, second);
    assert!(first.contains(salt));
    assert!(verify_password(&first, "secret"));
    let other = hash_password_with_salt("secret", "b3RoZXJzYWx0b3RoZXJzYWx0").expect("a hash");
    assert!(other != first);
    let third = hash_password_with_salt("Secret", salt).expect("a hash");
    assert!(third != first);
}

#[test]
fn a_salt_that_is_none_is_refused() {
    assert_eq!(hash_password_with_salt("secret", "not a salt!"), Err(HashError::AlgorithmInvalid));
    assert_eq!(hash_password_with_salt("secret", ""), Err(HashError::AlgorithmInvalid));
    assert_eq!(HashError::AlgorithmInvalid.message(), "algorithm identifier invalid");
}

#[test]
fn a_text_that_is_no_hash_verifies_nothing() {
    assert!(!verify_password("", ""));
    assert!(!verify_password("secret", "secret"));
    assert!(!verify_password("$argon2id$v=19$m=19456,t=2,p=1$", "secret"));
}
