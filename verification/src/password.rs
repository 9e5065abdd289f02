//! Credential manager: one-way password hashing and verification, built on
//! bcrypt. The relation between a password and a digest is abstract here —
//! `bcrypt_accepts` names exactly what `bcrypt::verify` computes — so every
//! caller's contract speaks of that one relation.

use vstd::prelude::*;
use crate::errors::AuthError;

verus! {

/// Whether bcrypt's verification accepts `password` against `digest`.
/// This is the (deterministic) outcome of recomputing the bcrypt hash with
/// the salt and cost embedded in `digest` and comparing; a digest that does
/// not parse is accepted by nothing.
pub uninterp spec fn bcrypt_accepts(password: Seq<char>, digest: Seq<char>) -> bool;

/// Relies on `bcrypt::hash` with `bcrypt::DEFAULT_COST`: on success the
/// returned digest embeds the fresh salt, so re-verifying the same password
/// against it succeeds (`bcrypt::verify` recomputes with that salt).
/// The salt is random, so nothing else is promised about the digest.
#[verifier::external_body]
fn bcrypt_hash(password: &str) -> (r: Option<String>)
    ensures
        r is Some ==> bcrypt_accepts(password@, r->0@),
{
    bcrypt::hash(password, bcrypt::DEFAULT_COST).ok()
}

/// Relies on `bcrypt::verify`: deterministic in its two arguments. A
/// malformed digest makes it return an error, which is reported as a
/// non-match rather than distinguished, so no information leaks.
#[verifier::external_body]
fn bcrypt_check(password: &str, digest: &str) -> (r: bool)
    ensures
        r == bcrypt_accepts(password@, digest@),
{
    bcrypt::verify(password, digest).unwrap_or(false)
}

/// Hash a password for storage. Fails only on an internal fault of the
/// hashing backend, never because of the password's content.
pub fn hash_password(password: &str) -> (r: Result<String, AuthError>)
    ensures
        r matches Ok(d) ==> bcrypt_accepts(password@, d@),
        r matches Err(e) ==> e == AuthError::Internal,
{
    match bcrypt_hash(password) {
        Option::Some(d) => Ok(d),
        Option::None => Err(AuthError::Internal),
    }
}

/// Constant-effort check of a password against a stored digest. Malformed
/// digests are plain non-matches, never errors.
pub fn verify_password(password: &str, digest: &str) -> (r: bool)
    ensures
        r == bcrypt_accepts(password@, digest@),
{
    bcrypt_check(password, digest)
}

/// Password round trip: whenever `hash_password(p)` produced a digest,
/// `verify_password(p, digest)` can only return true.
pub proof fn lemma_password_round_trip(password: &str, digest: String, stored: &str, accepted: bool)
    requires
        call_ensures(hash_password, (password,), Ok::<String, AuthError>(digest)),
        stored@ == digest@,
        call_ensures(verify_password, (password, stored), accepted),
    ensures
        accepted,
{
}

} // verus!
