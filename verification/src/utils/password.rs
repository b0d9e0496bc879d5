use crate::error::{or_internal_error, ApiError};
use vstd::prelude::*;

verus! {

/// The error type of the bcrypt crate.
#[verifier::external_type_specification]
#[verifier::external_body]
pub struct ExBcryptError(bcrypt::BcryptError);

/// What `bcrypt::verify` returns for a plaintext and a digest: `Some(b)`
/// where it answers `Ok(b)`, `None` where it reports an error, as it does
/// for a digest that is not a well-formed bcrypt string.
pub uninterp spec fn bcrypt_verified(plaintext: Seq<char>, digest: Seq<char>) -> Option<bool>;

/// Whether `digest` is a digest of `plaintext`. A malformed digest matches
/// nothing.
pub open spec fn password_matches(plaintext: Seq<char>, digest: Seq<char>) -> bool {
    bcrypt_verified(plaintext, digest) == Some(true)
}

/// Calls `bcrypt::hash` with the crate's default cost. The salt is drawn
/// from the operating system, so two calls give different digests and the
/// digest itself has no name here. The contract claims what the crate
/// promises of every digest it hands out: `bcrypt::verify` accepts it for
/// the same plaintext. The call fails only where the system has no
/// randomness to give.
#[verifier::external_body]
fn bcrypt_hash(plaintext: &str) -> (r: Result<String, bcrypt::BcryptError>)
    ensures
        r is Ok ==> bcrypt_verified(plaintext@, r->Ok_0@) == Some(true),
{
    bcrypt::hash(plaintext, bcrypt::DEFAULT_COST)
}

/// Calls `bcrypt::verify`. The answer depends on the two strings alone and
/// is named `bcrypt_verified`.
#[verifier::external_body]
fn bcrypt_verify(plaintext: &str, digest: &str) -> (r: Result<bool, bcrypt::BcryptError>)
    ensures
        match r {
            Ok(b) => bcrypt_verified(plaintext@, digest@) == Some(b),
            Err(_) => bcrypt_verified(plaintext@, digest@) is None,
        },
{
    bcrypt::verify(plaintext, digest)
}

/// Hashes a password with a slow, salted, adaptive function. Every digest
/// that comes back verifies against the plaintext it was made from; a weak
/// or empty plaintext is hashed like any other. The only error is
/// `InternalError`.
pub fn hash_password(plaintext: &str) -> (r: Result<String, ApiError>)
    ensures
        r is Ok ==> password_matches(plaintext@, r->Ok_0@),
        r is Err ==> r->Err_0 == ApiError::InternalError,
{
    or_internal_error(bcrypt_hash(plaintext))
}

/// Reads the answer of a verification: a match only where the
/// verification ran and said so. A verification that reported an error,
/// as it does on a malformed digest, is no match.
pub fn digest_matches(outcome: Result<bool, bcrypt::BcryptError>) -> (r: bool)
    ensures
        r == (outcome is Ok && outcome->Ok_0),
{
    match outcome {
        Ok(matches) => matches,
        Err(_) => false,
    }
}

/// Checks a password against a digest. A digest that is malformed is
/// treated as not matching.
pub fn verify_password(plaintext: &str, digest: &str) -> (r: bool)
    ensures
        r == password_matches(plaintext@, digest@),
{
    digest_matches(bcrypt_verify(plaintext, digest))
}

} // verus!
