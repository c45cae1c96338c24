//! The password hasher: bcrypt at its default work factor.
//!
//! The digest itself is computed by the `bcrypt` crate and is not verified
//! here. What the library proves is built on two statements about that
//! crate, both spelled out at the two private functions that call it.

use crate::error::AuthError;
use vstd::prelude::*;

verus! {

/// `bcrypt::BcryptError`, made known so that the two functions below can
/// hand it on. Nothing is claimed of its values; they are mapped to
/// `Internal` without being looked at.
#[verifier::external_type_specification]
#[verifier::external_body]
pub struct ExBcryptError(bcrypt::BcryptError);

/// The answer of `bcrypt::verify` for a password and a stored hash:
/// `Some(true)` where the hash was made from the password, `Some(false)`
/// where it was made from another one, `None` where the hash is malformed.
/// It depends on the two texts alone.
pub uninterp spec fn bcrypt_verdict(password: Seq<char>, hash: Seq<char>) -> Option<bool>;

/// `bcrypt::hash` at `bcrypt::DEFAULT_COST`, with a salt drawn from the
/// operating system. The salt makes the result differ from call to call, so
/// only this is claimed of it: `bcrypt::verify` accepts the hash for the
/// password it was made from (it reads cost and salt back out of the hash
/// and recomputes the same digest). Failure of the random source is the
/// `Err` case.
#[verifier::external_body]
fn bcrypt_hash(password: &str) -> (r: Result<String, bcrypt::BcryptError>)
    ensures
        r matches Ok(h) ==> bcrypt_verdict(password@, h@) == Some(true),
{
    bcrypt::hash(password, bcrypt::DEFAULT_COST)
}

/// `bcrypt::verify`: the comparison runs in constant time inside the crate.
/// The result is the one named by [`bcrypt_verdict`]; a malformed hash is
/// the `Err` case.
#[verifier::external_body]
fn bcrypt_verify(password: &str, hash: &str) -> (r: Result<bool, bcrypt::BcryptError>)
    ensures
        bcrypt_verdict(password@, hash@) == match r {
            Ok(b) => Some(b),
            Err(_) => None::<bool>,
        },
{
    bcrypt::verify(password, hash)
}

/// What the hash function's answer means: its verdict, or `Internal` where
/// it fails. A failure is never read as a mismatch or a match.
pub open spec fn spec_surface(outcome: Option<bool>) -> Result<bool, AuthError> {
    match outcome {
        Some(b) => Ok(b),
        None => Err(AuthError::Internal),
    }
}

/// What [`verify`] returns.
pub open spec fn spec_verify(plaintext: Seq<char>, hash: Seq<char>) -> Result<bool, AuthError> {
    spec_surface(bcrypt_verdict(plaintext, hash))
}

/// Turns the hash function's answer into the hasher's: a failure surfaces
/// as `Internal`.
pub fn surface(outcome: Option<bool>) -> (r: Result<bool, AuthError>)
    ensures
        r == spec_surface(outcome),
{
    match outcome {
        Some(b) => Ok(b),
        None => Err(AuthError::Internal),
    }
}

/// Decides whether a freshly produced hash may be stored: it must exist and
/// must differ from the plaintext, else the failure is `Internal`.
pub fn accept_hash(plaintext: &str, produced: Option<String>) -> (r: Result<String, AuthError>)
    ensures
        match produced {
            Some(h) => if h@ == plaintext@ {
                r == Err::<String, AuthError>(AuthError::Internal)
            } else {
                r == Ok::<String, AuthError>(h)
            },
            None => r == Err::<String, AuthError>(AuthError::Internal),
        },
{
    match produced {
        Some(h) => {
            if crate::text::same_text(h.as_str(), plaintext) {
                Err(AuthError::Internal)
            } else {
                Ok(h)
            }
        },
        None => Err(AuthError::Internal),
    }
}

/// Hashes a password for storage. The hash that comes back is never the
/// plaintext, and [`verify`] accepts it for that plaintext. `Internal`
/// where the hash function fails.
pub fn hash(plaintext: &str) -> (r: Result<String, AuthError>)
    ensures
        match r {
            Ok(h) => h@ != plaintext@ && spec_verify(plaintext@, h@) == Ok::<bool, AuthError>(
                true,
            ),
            Err(e) => e == AuthError::Internal,
        },
{
    let produced = match bcrypt_hash(plaintext) {
        Ok(h) => Some(h),
        Err(_) => None,
    };
    accept_hash(plaintext, produced)
}

/// Checks a password against a stored hash.
pub fn verify(plaintext: &str, hash: &str) -> (r: Result<bool, AuthError>)
    ensures
        r == spec_verify(plaintext@, hash@),
{
    let outcome = match bcrypt_verify(plaintext, hash) {
        Ok(b) => Some(b),
        Err(_) => None,
    };
    surface(outcome)
}

} // verus!
