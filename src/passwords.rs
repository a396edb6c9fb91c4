//! Password hashing with Argon2: a fresh random salt per hash, and
//! verification of a password against a stored hash.
use vstd::prelude::*;
use argon2::password_hash::{PasswordHasher, PasswordVerifier, SaltString};

verus! {

#[verifier::external_type_specification]
#[verifier::external_body]
pub struct ExPasswordHashError(argon2::password_hash::Error);

/// Whether Argon2 accepts `password` against the stored `hash`.
pub uninterp spec fn argon2_accepts(password: Seq<char>, hash: Seq<char>) -> bool;

/// Why hashing or verification failed, with the hasher's own words.
pub struct HashingError {
    pub message: String,
}

/// Relies on `SaltString::generate` over the operating system's random source
/// and `Argon2::hash_password`: the PHC string of the password's hash, which
/// records algorithm, version, parameters and salt, so that verifying the
/// same password against it recomputes the same output.
#[verifier::external_body]
fn argon2_hash(password: &str) -> (r: Result<String, argon2::password_hash::Error>)
    ensures
        r matches Ok(h) ==> argon2_accepts(password@, h@),
{
    let salt = SaltString::generate(&mut rand_core::OsRng);
    argon2::Argon2::default().hash_password(password.as_bytes(), &salt).map(|h| h.to_string())
}

/// Relies on `PasswordHash::new` and `Argon2::verify_password`: `Ok` exactly
/// when the stored hash parses and the password matches it. A PHC string
/// begins with `$`, so no other text is accepted.
#[verifier::external_body]
fn argon2_verify(password: &str, hash: &str) -> (r: Result<(), argon2::password_hash::Error>)
    ensures
        r is Ok <==> argon2_accepts(password@, hash@),
        !(hash@.len() > 0 && hash@[0] == '$') ==> r is Err,
{
    let parsed = argon2::PasswordHash::new(hash)?;
    argon2::Argon2::default().verify_password(password.as_bytes(), &parsed)
}

/// Relies on the `Display` of the hasher's error: its message.
#[verifier::external_body]
fn hash_error_message(e: &argon2::password_hash::Error) -> (r: String) {
    e.to_string()
}

/// A salted hash of `password`, to be stored in place of it: the password
/// verifies against it.
pub fn hash_password(password: &str) -> (r: Result<String, HashingError>)
    ensures
        r matches Ok(h) ==> argon2_accepts(password@, h@),
{
    match argon2_hash(password) {
        Ok(h) => Ok(h),
        Err(e) => Err(HashingError { message: hash_error_message(&e) }),
    }
}

/// `Ok` exactly when `password` matches the stored hash; never for a text
/// that does not begin with `$`.
pub fn verify_password(password: &str, password_hash: &str) -> (r: Result<(), HashingError>)
    ensures
        r is Ok <==> argon2_accepts(password@, password_hash@),
        !(password_hash@.len() > 0 && password_hash@[0] == '$') ==> r is Err,
{
    match argon2_verify(password, password_hash) {
        Ok(()) => Ok(()),
        Err(e) => Err(HashingError { message: hash_error_message(&e) }),
    }
}

} // verus!
