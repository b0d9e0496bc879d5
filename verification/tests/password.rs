use tagblaze::utils::password::{digest_matches, hash_password, verify_password};

#[test]
fn digest_verifies_against_its_plaintext() {
    let digest = hash_password("pw123").unwrap();
    assert!(verify_password("pw123", &digest));
}

#[test]
fn digest_is_not_the_plaintext() {
    let digest = hash_password("pw123").unwrap();
    assert_ne!(digest, "pw123");
    assert_eq!(digest.len(), 60);
    assert!(digest.starts_with("$2b$12$"));
}

#[test]
fn two_digests_of_one_plaintext_differ() {
    let first = hash_password("correct horse").unwrap();
    let second = hash_password("correct horse").unwrap();
    assert_ne!(first, second);
}

#[test]
fn second_digest_verifies_too() {
    let _first = hash_password("battery staple").unwrap();
    let second = hash_password("battery staple").unwrap();
    assert!(verify_password("battery staple", &second));
}

#[test]
fn other_plaintext_does_not_verify() {
    let digest = hash_password("pw123").unwrap();
    assert!(!verify_password("pw124", &digest));
}

#[test]
fn empty_plaintext_is_hashed_like_any_other() {
    let digest = hash_password("").unwrap();
    assert!(verify_password("", &digest));
}

#[test]
fn malformed_digest_matches_nothing() {
    assert!(!verify_password("pw123", "not-a-digest"));
    assert!(!verify_password("pw123", ""));
    assert!(!verify_password("pw123", "$2b$12$short"));
    assert!(!verify_password("", ""));
}

#[test]
fn digest_of_another_cost_verifies() {
    let made = bcrypt::hash_with_salt("hunter2", 4, [7u8; 16]).unwrap().to_string();
    assert!(verify_password("hunter2", &made));
    assert!(!verify_password("hunter3", &made));
}

#[test]
fn only_a_verification_that_ran_and_agreed_is_a_match() {
    assert!(digest_matches(Ok(true)));
    assert!(!digest_matches(Ok(false)));
    assert!(!digest_matches(Err(bcrypt::BcryptError::InvalidSaltLen(3))));
    assert!(!digest_matches(bcrypt::verify("pw123", "not-a-digest")));
}
