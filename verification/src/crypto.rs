//! Password hashing with Argon2 (the `argon2` and `password-hash` crates).
use vstd::prelude::*;
use vstd::string::*;
use crate::error::AppError;
use argon2::Argon2;
use password_hash::phc::PasswordHash;
use password_hash::{PasswordHasher, PasswordVerifier};

verus! {

/// `hash` is a PHC string that `password-hash` can parse.
pub uninterp spec fn spec_phc_parses(hash: Seq<char>) -> bool;

/// Argon2 accepts `password` against the parsed PHC string `hash`.
pub uninterp spec fn spec_password_matches(password: Seq<char>, hash: Seq<char>) -> bool;

/// What checking `password` against `hash` gives: nothing where `hash` does not
/// parse, else whether Argon2 accepts the password.
pub open spec fn spec_check(password: Seq<char>, hash: Seq<char>) -> Option<bool> {
    if spec_phc_parses(hash) {
        Some(spec_password_matches(password, hash))
    } else {
        None
    }
}

/// Calls `password_hash::phc::PasswordHash::new(hash)` and, where it parses,
/// `Argon2::default().verify_password`. Claimed: `None` exactly where the text does
/// not parse; otherwise whether Argon2 accepts the password, a function of the two texts.
#[verifier::external_body]
fn argon2_check(password: &str, hash: &str) -> (r: Option<bool>)
    ensures
        r is None <==> !spec_phc_parses(hash@),
        r matches Some(ok) ==> ok == spec_password_matches(password@, hash@),
{
    match PasswordHash::new(hash) {
        Ok(parsed) => Some(Argon2::default().verify_password(password.as_bytes(), &parsed).is_ok()),
        Err(_) => None,
    }
}

/// Calls `Argon2::default().hash_password`, which draws a random salt, and writes the
/// hash as a PHC string (the failure as its text). Claimed, as the crate's
/// documentation shows: a hash parses and verifies against the password it was made
/// from. Which hash comes out depends on the random salt.
#[verifier::external_body]
fn argon2_hash(password: &str) -> (r: Result<String, String>)
    ensures
        r matches Ok(h) ==> spec_phc_parses(h@) && spec_password_matches(password@, h@),
{
    let hashed: Result<PasswordHash, password_hash::Error> = Argon2::default().hash_password(password.as_bytes());
    match hashed {
        Ok(h) => Ok(h.to_string()),
        Err(e) => Err(e.to_string()),
    }
}

/// A salted Argon2 hash of `password`, as a PHC string; a failure of the hasher is
/// an internal error.
pub fn hash_password(password: &str) -> (r: Result<String, AppError>)
    ensures
        r matches Ok(h) ==> spec_check(password@, h@) == Some(true),
        r matches Err(e) ==> e matches AppError::Internal(m) && exists|d: Seq<char>| m@ == "Failed to hash password: "@ + d,
{
    match argon2_hash(password) {
        Ok(h) => Ok(h),
        Err(detail) => {
            let m = String::from_str("Failed to hash password: ").concat(detail.as_str());
            assert(m@ == "Failed to hash password: "@ + detail@);
            Err(AppError::Internal(m))
        },
    }
}

/// Whether `password` matches the stored `hash`; a stored hash that does not parse
/// makes the request unauthorized.
pub fn verify_password(password: &str, hash: &str) -> (r: Result<bool, AppError>)
    ensures
        match spec_check(password@, hash@) {
            Some(ok) => r == Ok::<bool, AppError>(ok),
            None => r matches Err(e) && e is Unauthorized,
        },
{
    match argon2_check(password, hash) {
        Some(ok) => Ok(ok),
        None => Err(AppError::Unauthorized),
    }
}

/// A password always verifies against a hash made from it.
pub proof fn law_password_verifies_against_its_hash(password: Seq<char>, hash: Seq<char>)
    requires
        spec_check(password, hash) == Some(true),
    ensures
        spec_phc_parses(hash),
        spec_password_matches(password, hash),
{
}

} // verus!
