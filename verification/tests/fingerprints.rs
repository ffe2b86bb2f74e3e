//! Behaviour of the content fingerprint: the lowercase hexadecimal SHA-256
//! of the raw payload, computed through the real hash implementation.

use ipranges::digest::calculate_sha;

#[test]
fn sha_of_empty_payload() {
    assert_eq!(
        calculate_sha(""),
        "e3b0c44298fc1c149afbf4c8996fb92427ae41e4649b934ca495991b7852b855"
    );
}

#[test]
fn sha_of_known_payload() {
    assert_eq!(
        calculate_sha("hello"),
        "2cf24dba5fb0a30e26e83b2ac5b9e29e1b161e5c1fa7425e73043362938b9824"
    );
    // different payloads give different fingerprints
    assert_ne!(calculate_sha("hello"), calculate_sha("hello "));
}
