//! Password verifiers: bcrypt with a per-hash random salt.
use vstd::prelude::*;

verus! {

#[verifier::external_type_specification]
#[verifier::external_body]
pub struct ExBcryptError(bcrypt::BcryptError);

/// Whether bcrypt accepts `password` against the verifier `hash`.
pub uninterp spec fn bcrypt_accepts(password: Seq<char>, hash: Seq<char>) -> bool;

/// Relies on `bcrypt::verify`: the answer depends on the two strings alone.
/// An error (a malformed verifier) is read as a mismatch.
#[verifier::external_body]
fn bcrypt_verify(password: &str, hash: &str) -> (r: bool)
    ensures
        r == bcrypt_accepts(password@, hash@),
{
    bcrypt::verify(password, hash).unwrap_or(false)
}

/// Relies on `bcrypt::hash` at `bcrypt::DEFAULT_COST`: the salt is random, so
/// only what holds of every outcome is stated. `bcrypt::verify` re-derives
/// the digest from the salt and cost written in the verifier, so it accepts
/// the same password against it.
#[verifier::external_body]
fn bcrypt_hash(password: &str) -> (r: Result<String, bcrypt::BcryptError>)
    ensures
        r matches Ok(h) ==> bcrypt_accepts(password@, h@),
{
    bcrypt::hash(password, bcrypt::DEFAULT_COST)
}

/// A fresh verifier for `password`; an error only where the system's random
/// source fails.
pub fn hash_password(password: String) -> (r: Result<String, bcrypt::BcryptError>)
    ensures
        r matches Ok(h) ==> bcrypt_accepts(password@, h@),
{
    bcrypt_hash(password.as_str())
}

/// Whether `password` matches the verifier `hash`; a malformed verifier never
/// matches.
pub fn check_password_hash(password: String, hash: String) -> (r: bool)
    ensures
        r == bcrypt_accepts(password@, hash@),
{
    bcrypt_verify(password.as_str(), hash.as_str())
}

} // verus!
