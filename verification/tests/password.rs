use user_registration::password::PasswordEncrypter;
use user_registration::password::PasswordError;

#[test]
fn test_password_hash() {
    let password = "password123";
    let password_encrypter = PasswordEncrypter::new();
    let hashed_password = password_encrypter.hash(password).unwrap();
    assert_ne!(hashed_password.hash, password);
    assert_ne!(hashed_password.salt, password);
}

#[test]
fn test_password_verify() {
    let password = "password123";
    let password_encrypter = PasswordEncrypter::new();
    let hashed_password = password_encrypter.hash(password).unwrap();
    let is_valid = password_encrypter
        .verify(password, &hashed_password.hash, &hashed_password.salt)
        .unwrap();
    assert!(is_valid);
}

#[test]
fn hash_twice_gives_fresh_salt_and_digest() {
    let encrypter = PasswordEncrypter::new();
    let first = encrypter.hash("same password").unwrap();
    let second = encrypter.hash("same password").unwrap();
    assert_ne!(first.salt, second.salt);
    assert_ne!(first.hash, second.hash);
}

#[test]
fn verify_rejects_wrong_password() {
    let encrypter = PasswordEncrypter::new();
    let hashed = encrypter.hash("right horse").unwrap();
    let is_valid = encrypter
        .verify("wrong battery", &hashed.hash, &hashed.salt)
        .unwrap();
    assert!(!is_valid);
}

#[test]
fn verify_reports_malformed_digest() {
    let encrypter = PasswordEncrypter::new();
    let hashed = encrypter.hash("a password").unwrap();
    let malformed = encrypter.verify("a password", "not a phc string", &hashed.salt);
    assert_eq!(malformed, Err(PasswordError::Malformed));
    let bad_salt = encrypter.verify("a password", &hashed.hash, "!!");
    assert_eq!(bad_salt, Err(PasswordError::Malformed));
}

#[test]
fn new_encrypter_is_empty() {
    let encrypter = PasswordEncrypter::new();
    assert_eq!(encrypter.hash, String::new());
    assert_eq!(encrypter.salt, String::new());
}
