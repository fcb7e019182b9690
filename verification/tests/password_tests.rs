use authcore::error::HashError;
use authcore::password::{hash, hash_with_salt, verify, SALT_LEN};

#[test]
fn hash_then_verify_accepts_the_same_password() {
    let encoded = hash(b"pw123").expect("hashing succeeds");
    assert!(verify(b"pw123", &encoded));
}

#[test]
fn verify_rejects_another_password() {
    let encoded = hash(b"pw123").expect("hashing succeeds");
    assert!(!verify(b"pw124", &encoded));
    assert!(!verify(b"", &encoded));
}

#[test]
fn hash_twice_gives_two_encodings_that_both_verify() {
    let first = hash(b"same password").expect("hashing succeeds");
    let second = hash(b"same password").expect("hashing succeeds");
    assert_ne!(first, second);
    assert!(verify(b"same password", &first));
    assert!(verify(b"same password", &second));
}

#[test]
fn encoded_hash_describes_itself() {
    let encoded = hash(b"pw123").expect("hashing succeeds");
    assert!(encoded.starts_with("$argon2id$v=19$m=19456,t=2,p=1$"));
    assert_ne!(encoded.as_bytes(), b"pw123");
}

#[test]
fn hash_with_salt_is_a_function_of_password_and_salt() {
    let salt = [7u8; SALT_LEN];
    let first = hash_with_salt(b"pw123", &salt).expect("hashing succeeds");
    let second = hash_with_salt(b"pw123", &salt).expect("hashing succeeds");
    assert_eq!(first, second);
    assert!(first.starts_with("$argon2id$v=19$m=19456,t=2,p=1$BwcHBwcHBwcHBwcHBwcHBw$"));
    assert!(verify(b"pw123", &first));
    let other = hash_with_salt(b"pw123", &[8u8; SALT_LEN]).expect("hashing succeeds");
    assert_ne!(first, other);
}

#[test]
fn hash_with_known_vector_verifies() {
    let salt = [1u8; SALT_LEN];
    let encoded = hash_with_salt(b"password", &salt).expect("hashing succeeds");
    assert_ne!(encoded, "password");
    assert!(verify(b"password", &encoded));
    assert!(!verify(b"Password", &encoded));
}

#[test]
fn hash_with_unusable_salt_fails() {
    assert_eq!(hash_with_salt(b"pw123", &[1u8; 2]), Err(HashError::HashingFailure));
    assert_eq!(hash_with_salt(b"pw123", &[1u8; 100]), Err(HashError::HashingFailure));
}

#[test]
fn hash_accepts_any_password_shape() {
    let empty = hash(b"").expect("hashing succeeds");
    assert!(verify(b"", &empty));
    let binary = [0u8, 255, 128, 10, 13, 0];
    let encoded = hash(&binary).expect("hashing succeeds");
    assert!(verify(&binary, &encoded));
    let long = vec![b'x'; 4096];
    let encoded = hash(&long).expect("hashing succeeds");
    assert!(verify(&long, &encoded));
}

#[test]
fn verify_is_false_for_malformed_hash() {
    assert!(!verify(b"pw123", ""));
    assert!(!verify(b"pw123", "not a hash"));
    assert!(!verify(b"pw123", "pw123"));
    assert!(!verify(b"pw123", "$argon2id$v=19$m=19456,t=2,p=1$"));
}

#[test]
fn verify_is_false_for_unknown_algorithm() {
    assert!(!verify(
        b"pw123",
        "$scrypt$ln=16,r=8,p=1$aM15713r3Xsvxbi31lqr1Q$nFNh2CVHVjNldFVKDHDlm4CbdRSCdEBsjjJxD+iCs5E"
    ));
}
