//! Opaque-artifact helpers: high-entropy random tokens, short numeric
//! verification codes, and a hex-encoded digest for storing tokens in
//! unreadable form. Randomness and the digest come from outside crates
//! behind trusted wrappers; composition is verified.

use vstd::prelude::*;
use crate::text::{all_digits, dec_val};

verus! {

/// The SHA-256 digest of a string's bytes. A function of its argument
/// alone; its definition lives in the sha2 crate.
pub uninterp spec fn sha256_of(s: Seq<char>) -> Seq<u8>;

/// The lowercase hex encoding of a byte string.
pub uninterp spec fn hex_of(b: Seq<u8>) -> Seq<char>;

/// Relies on `sha2::Sha256`: a 32-byte digest of exactly the input, the
/// same on every run and machine.
#[verifier::external_body]
fn sha256_digest(s: &str) -> (r: Vec<u8>)
    ensures
        r@ == sha256_of(s@),
        r@.len() == 32,
{
    let mut hasher = <sha2::Sha256 as sha2::Digest>::new();
    sha2::Digest::update(&mut hasher, s.as_bytes());
    sha2::Digest::finalize(hasher).to_vec()
}

/// Relies on `hex::encode`: two lowercase hex digits per input byte.
#[verifier::external_body]
fn hex_encode(b: &Vec<u8>) -> (r: String)
    ensures
        r@ == hex_of(b@),
        r@.len() == 2 * b@.len(),
{
    hex::encode(b.as_slice())
}

/// Relies on `rand::random`: 32 bytes from the thread-local generator.
/// Nothing can be promised about random bytes beyond their count.
#[verifier::external_body]
fn random_bytes32() -> (r: Vec<u8>)
    ensures
        r@.len() == 32,
{
    let b: [u8; 32] = rand::random();
    b.to_vec()
}

/// Relies on `rand::random_range` over `100000..999999` plus the decimal
/// formatting of the drawn integer: six decimal digits, uniformly random,
/// so only their shape is stated.
#[verifier::external_body]
pub fn random_code() -> (r: String)
    ensures
        r@.len() == 6,
        all_digits(r@),
        100000 <= dec_val(r@) < 999999,
{
    rand::random_range(100000u32..999999u32).to_string()
}

/// Relies on `rand::distr::SampleString` with the `Alphanumeric`
/// distribution: 32 characters drawn from a-z, A-Z and 0-9.
#[verifier::external_body]
pub fn random_token() -> (r: String)
    ensures
        r@.len() == 32,
{
    rand::distr::SampleString::sample_string(&rand::distr::Alphanumeric, &mut rand::rng(), 32)
}

/// A fresh opaque token: 32 random bytes, hex-printed to 64 characters.
/// Which bytes were drawn is not statable; that the result is the hex image
/// of some 32 bytes is.
pub fn create_random_token() -> (r: String)
    ensures
        r@.len() == 64,
        exists|b: Seq<u8>| b.len() == 32 && r@ == #[trigger] hex_of(b),
{
    let bytes = random_bytes32();
    let r = hex_encode(&bytes);
    proof {
        assert(bytes@.len() == 32 && r@ == hex_of(bytes@));
    }
    r
}

/// The storable digest of a token: its SHA-256 digest, hex-printed.
pub fn hash_token(token: &str) -> (r: String)
    ensures
        r@ == hex_of(sha256_of(token@)),
        r@.len() == 64,
{
    let digest = sha256_digest(token);
    hex_encode(&digest)
}

} // verus!
