use argon2::password_hash::{PasswordHash, PasswordVerifier};
use argon2::Argon2;
use kidney_stones::app::{hash_account_password, hash_password_with_salt, PasswordError};

#[test]
fn hash_with_fixed_salt() {
    let h = hash_password_with_salt("haha", "c2FsdHNhbHRzYWx0").unwrap();
    assert!(h.starts_with("$argon2id$v=19$m=19456,t=2,p=1$c2FsdHNhbHRzYWx0$"));
    assert_ne!(h, "haha");
    let parsed = PasswordHash::new(&h).unwrap();
    assert!(Argon2::default().verify_password(b"haha", &parsed).is_ok());
    assert!(Argon2::default().verify_password(b"hoho", &parsed).is_err());
}

#[test]
fn same_salt_same_hash() {
    let a = hash_password_with_salt("haha", "c2FsdHNhbHRzYWx0").unwrap();
    let b = hash_password_with_salt("haha", "c2FsdHNhbHRzYWx0").unwrap();
    assert_eq!(a, b);
}

#[test]
fn salt_too_short_is_refused() {
    assert_eq!(hash_password_with_salt("haha", "abc"), Err(PasswordError::HashFailed));
}

#[test]
fn new_account_hash_verifies() {
    let h = hash_account_password("haha").unwrap();
    assert!(h.starts_with("$argon2id$"));
    let parsed = PasswordHash::new(&h).unwrap();
    assert!(Argon2::default().verify_password(b"haha", &parsed).is_ok());
}

#[test]
fn fresh_salts_differ() {
    let a = hash_account_password("haha").unwrap();
    let b = hash_account_password("haha").unwrap();
    assert_ne!(a, b);
}

#[test]
fn fresh_salt_has_generated_shape() {
    let h = hash_account_password("haha").unwrap();
    let salt = h.split('$').nth(4).unwrap();
    assert_eq!(salt.len(), 22);
    assert!(salt.chars().all(|c| c.is_ascii_alphanumeric() || c == '+' || c == '/'));
    assert!(matches!(salt.chars().last().unwrap(), 'A' | 'Q' | 'g' | 'w'));
}

#[test]
fn salt_of_generated_shape_is_accepted() {
    assert!(hash_password_with_salt("", "AAAAAAAAAAAAAAAAAAAAAw").is_ok());
}
