//! Password hashing and verification.
//!
//! The input checks (never empty, never over the length cap) are the
//! engine's own and verified; the hashing itself is argon2's, reached
//! through two trusted wrappers whose results are named functions of
//! the password and the stored PHC string.

use vstd::prelude::*;

use argon2::Argon2;
use argon2::PasswordHasher;
use argon2::PasswordVerifier;
use argon2::password_hash::PasswordHash;

use crate::errors::ErrorMessage;

verus! {

/// The longest password the engine accepts.
pub const MAX_PASSWORD_LENGTH: usize = 64;

/// The password's encoding fits under the length cap: the condition
/// under which the cap check lets it through.
pub open spec fn within_password_cap(p: Seq<char>) -> bool {
    vstd::utf8::encode_utf8(p).len() <= MAX_PASSWORD_LENGTH
}

/// The stored string parses as a PHC password hash.
pub uninterp spec fn phc_hash_ok(hash: Seq<char>) -> bool;

/// Argon2 verification of this password against this PHC hash
/// succeeds: a function of the two strings alone.
pub uninterp spec fn password_matches(password: Seq<char>, hash: Seq<char>) -> bool;

/// Relies on argon2's `PasswordHasher::hash_password`: it hashes the
/// password with a fresh random salt into a PHC string that parses,
/// and that the matching verifier accepts for the same password.
#[verifier::external_body]
fn argon2_hash(password: &str) -> (r: Result<String, ()>)
    ensures
        r matches Ok(h) ==> phc_hash_ok(h@) && password_matches(password@, h@),
{
    match Argon2::default().hash_password(password.as_bytes()) {
        Ok(h) => Ok(h.to_string()),
        Err(_) => Err(()),
    }
}

/// Relies on `PasswordHash::new`: whether the stored string parses as
/// a PHC hash, a function of the string alone.
#[verifier::external_body]
fn phc_parse_ok(hash: &str) -> (r: bool)
    ensures
        r == phc_hash_ok(hash@),
{
    PasswordHash::new(hash).is_ok()
}

/// Relies on argon2's `PasswordVerifier::verify_password` on a parsed
/// PHC hash: it succeeds exactly when the password matches the hash.
#[verifier::external_body]
fn argon2_verify(password: &str, hash: &str) -> (r: bool)
    requires
        phc_hash_ok(hash@),
    ensures
        r == password_matches(password@, hash@),
{
    PasswordVerifier::<str>::verify_password(&Argon2::default(), password.as_bytes(), hash).is_ok()
}

/// Hashes a password for storage. An empty password and one over the
/// length cap are rejected outright; a hashing failure inside argon2
/// (it can only come from the machinery, not the password) surfaces
/// as its own error.
pub fn hash_password(password: &str) -> (r: Result<String, ErrorMessage>)
    ensures
        password@.len() == 0 <==> r == Err::<String, ErrorMessage>(ErrorMessage::EmptyPassword),
        password@.len() != 0 && password.len() > MAX_PASSWORD_LENGTH <==> r == Err::<
            String,
            ErrorMessage,
        >(ErrorMessage::ExceededMaxPasswordLength(MAX_PASSWORD_LENGTH)),
        r matches Ok(h) ==> phc_hash_ok(h@) && password_matches(password@, h@),
        r is Err ==> r == Err::<String, ErrorMessage>(ErrorMessage::EmptyPassword) || r == Err::<
            String,
            ErrorMessage,
        >(ErrorMessage::ExceededMaxPasswordLength(MAX_PASSWORD_LENGTH)) || r == Err::<
            String,
            ErrorMessage,
        >(ErrorMessage::HashingError),
{
    if password.is_empty() {
        return Err(ErrorMessage::EmptyPassword);
    }
    if password.len() > MAX_PASSWORD_LENGTH {
        return Err(ErrorMessage::ExceededMaxPasswordLength(MAX_PASSWORD_LENGTH));
    }
    match argon2_hash(password) {
        Ok(h) => Ok(h),
        Err(_) => Err(ErrorMessage::HashingError),
    }
}

/// Verifies a password against a stored PHC hash. The same input
/// checks as hashing apply; a stored string that does not parse as a
/// PHC hash is reported as such; otherwise the answer is exactly
/// whether the password matches.
pub fn verify_password(password: &str, hashed_password: &str) -> (r: Result<bool, ErrorMessage>)
    ensures
        password@.len() == 0 <==> r == Err::<bool, ErrorMessage>(ErrorMessage::EmptyPassword),
        password@.len() != 0 && password.len() > MAX_PASSWORD_LENGTH <==> r == Err::<
            bool,
            ErrorMessage,
        >(ErrorMessage::ExceededMaxPasswordLength(MAX_PASSWORD_LENGTH)),
        password@.len() != 0 && password.len() <= MAX_PASSWORD_LENGTH && !phc_hash_ok(
            hashed_password@,
        ) ==> r == Err::<bool, ErrorMessage>(ErrorMessage::InvalidHashFormat),
        password@.len() != 0 && password.len() <= MAX_PASSWORD_LENGTH && phc_hash_ok(
            hashed_password@,
        ) ==> r == Ok::<bool, ErrorMessage>(password_matches(password@, hashed_password@)),
        r matches Ok(b) ==> phc_hash_ok(hashed_password@) && b == password_matches(
            password@,
            hashed_password@,
        ),
{
    if password.is_empty() {
        return Err(ErrorMessage::EmptyPassword);
    }
    if password.len() > MAX_PASSWORD_LENGTH {
        return Err(ErrorMessage::ExceededMaxPasswordLength(MAX_PASSWORD_LENGTH));
    }
    if !phc_parse_ok(hashed_password) {
        return Err(ErrorMessage::InvalidHashFormat);
    }
    Ok(argon2_verify(password, hashed_password))
}

} // verus!
