//! The outside capabilities that the credential logic calls: password
//! hashing, identifiers, the clock and case folding.
use vstd::prelude::*;
use argon2::password_hash::rand_core::OsRng;
use argon2::password_hash::SaltString;
use argon2::{Argon2, PasswordHash, PasswordHasher, PasswordVerifier};
use crate::error::AuthError;

verus! {

#[verifier::external_type_specification]
#[verifier::external_body]
pub struct ExPasswordHashError(argon2::password_hash::Error);

/// What argon2 answers for a password and a stored PHC hash string: `None`
/// when the string does not parse as a password hash, else whether the
/// password matches it.
pub uninterp spec fn password_verifies(password: Seq<char>, hash: Seq<char>) -> Option<bool>;

/// What `str::to_lowercase` returns.
pub uninterp spec fn lower_of(s: Seq<char>) -> Seq<char>;

/// What `uuid::Uuid::parse_str` reads from a string, as a 128-bit value.
pub uninterp spec fn uuid_parse(s: Seq<char>) -> Option<u128>;

/// Relies on argon2's `PasswordHasher::hash_password` with the default
/// parameters and a salt drawn from the operating system: the PHC string of
/// the salted hash.  It fails only for a password longer than `u32::MAX`
/// bytes, and verifying the password against the string recomputes the same
/// hash from the salt and parameters the string holds.
#[verifier::external_body]
pub(crate) fn hash_password(password: &str) -> (r: Result<String, argon2::password_hash::Error>)
    ensures
        password@.len() < 0x4000_0000 ==> r is Ok,
        r matches Ok(h) ==> password_verifies(password@, h@) == Some(true),
{
    let salt = SaltString::generate(&mut OsRng);
    let hash = Argon2::default().hash_password(password.as_bytes(), &salt)?;
    Ok(hash.to_string())
}

/// Relies on `PasswordHash::new`, which parses the PHC string, and on
/// argon2's `PasswordVerifier::verify_password`, which recomputes the hash
/// with the salt and parameters held in that string; the answer depends on
/// the two strings alone.
#[verifier::external_body]
pub(crate) fn verify_password(password: &str, hash: &str) -> (r: Result<bool, argon2::password_hash::Error>)
    ensures
        match r {
            Ok(b) => password_verifies(password@, hash@) == Some(b),
            Err(_) => password_verifies(password@, hash@) is None,
        },
{
    let parsed = PasswordHash::new(hash)?;
    Ok(Argon2::default().verify_password(password.as_bytes(), &parsed).is_ok())
}

/// Relies on `uuid::Uuid::new_v4`: a random identifier.
#[verifier::external_body]
pub(crate) fn new_uuid() -> (r: u128) {
    uuid::Uuid::new_v4().as_u128()
}

/// Relies on `uuid::Uuid::parse_str`, whose answer depends on the string alone.
#[verifier::external_body]
pub(crate) fn parse_uuid(s: &str) -> (r: Option<u128>)
    ensures
        r == uuid_parse(s@),
{
    match uuid::Uuid::parse_str(s) {
        Ok(u) => Some(u.as_u128()),
        Err(_) => None,
    }
}

/// Relies on `chrono::Utc::now`: the current time in microseconds since the
/// Unix epoch.
#[verifier::external_body]
pub(crate) fn now_micros() -> (r: i64) {
    chrono::Utc::now().timestamp_micros()
}

/// Relies on `str::to_lowercase`: the result depends on the characters alone.
#[verifier::external_body]
pub(crate) fn lowercase(s: &str) -> (r: String)
    ensures
        r@ == lower_of(s@),
{
    s.to_lowercase()
}

impl From<argon2::password_hash::Error> for AuthError {
    fn from(_e: argon2::password_hash::Error) -> (r: AuthError)
        ensures
            r == AuthError::Hash,
    {
        AuthError::Hash
    }
}

impl vstd::std_specs::convert::FromSpecImpl<argon2::password_hash::Error> for AuthError {
    open spec fn obeys_from_spec() -> bool {
        true
    }

    open spec fn from_spec(e: argon2::password_hash::Error) -> AuthError {
        AuthError::Hash
    }
}

} // verus!
