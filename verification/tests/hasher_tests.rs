use nivaro_backend::error::AuthError;
use nivaro_backend::hasher::{accept_hash, hash, surface, verify};

// bcrypt at cost 4 of "Passw0rd!".
const LOW_COST_HASH: &str = "$2b$04$abcdefghijklmnopqrstuuchGdllX0O2ZthG6oyaPSbmBrCIbnHlu";

#[test]
fn hash_is_not_the_plaintext_and_verifies() {
    let h = hash("Passw0rd!").unwrap();
    assert_ne!(h, "Passw0rd!");
    assert_eq!(h.len(), 60);
    assert!(h.starts_with("$2b$12$"));
    assert_eq!(verify("Passw0rd!", &h), Ok(true));
}

#[test]
fn two_hashes_of_one_password_differ() {
    let a = hash("Passw0rd!").unwrap();
    let b = hash("Passw0rd!").unwrap();
    assert_ne!(a, b);
}

#[test]
fn verify_accepts_the_password_the_hash_was_made_from() {
    assert_eq!(verify("Passw0rd!", LOW_COST_HASH), Ok(true));
}

#[test]
fn verify_rejects_another_password() {
    assert_eq!(verify("passw0rd!", LOW_COST_HASH), Ok(false));
    assert_eq!(verify("", LOW_COST_HASH), Ok(false));
}

#[test]
fn verify_surfaces_a_malformed_hash_as_internal_error() {
    assert_eq!(verify("Passw0rd!", "not a hash"), Err(AuthError::Internal));
    assert_eq!(verify("Passw0rd!", ""), Err(AuthError::Internal));
    assert_eq!(verify("Passw0rd!", "Passw0rd!"), Err(AuthError::Internal));
}

#[test]
fn accept_hash_refuses_a_hash_equal_to_the_plaintext() {
    assert_eq!(accept_hash("abc", Some("abc".to_string())), Err(AuthError::Internal));
    assert_eq!(accept_hash("abc", None), Err(AuthError::Internal));
    assert_eq!(accept_hash("abc", Some("xyz".to_string())), Ok("xyz".to_string()));
}

#[test]
fn hash_function_failure_surfaces_as_internal_error() {
    assert_eq!(surface(Some(true)), Ok(true));
    assert_eq!(surface(Some(false)), Ok(false));
    assert_eq!(surface(None), Err(AuthError::Internal));
}
