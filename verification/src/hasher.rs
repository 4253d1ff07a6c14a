//! One-way hashing of secrets.
//!
//! A secret is hashed with SHA-256 and the digest is written as padded
//! standard Base64. There is no salt and no randomness: equal secrets always
//! give equal hashes, which is what lets a presented secret be checked by
//! hashing it and comparing.

use base64ct::{Base64, Encoding};
use sha2::{Digest, Sha256};
use vstd::prelude::*;

verus! {

/// The SHA-256 digest of `data`, as the `sha2` crate computes it.
pub uninterp spec fn sha256_digest(data: Seq<u8>) -> Seq<u8>;

/// The padded standard Base64 text of `data`, as the `base64ct` crate writes it.
pub uninterp spec fn base64_text(data: Seq<u8>) -> Seq<char>;

/// The stored form of a secret: the Base64 text of its SHA-256 digest.
pub open spec fn secret_hash(secret: Seq<u8>) -> Seq<char> {
    base64_text(sha256_digest(secret))
}

/// Calls `sha2::Sha256::digest`. Trusted: the result is the SHA-256 digest of
/// `data`, a function of `data` alone, and is 32 bytes long.
#[verifier::external_body]
fn sha256(data: &[u8]) -> (digest: Vec<u8>)
    ensures
        digest@ == sha256_digest(data@),
        digest@.len() == 32,
{
    Sha256::digest(data).to_vec()
}

/// Calls `base64ct::Base64::encode_string`. Trusted: the result is the padded
/// standard Base64 text of `data`, a function of `data` alone. The outside
/// function panics on inputs longer than `usize::MAX / 4`, which are excluded.
#[verifier::external_body]
fn base64_encode(data: &[u8]) -> (text: String)
    requires
        data@.len() <= usize::MAX / 4,
    ensures
        text@ == base64_text(data@),
{
    Base64::encode_string(data)
}

/// Hashes a secret for storage or for comparison with a stored hash.
///
/// Every byte string is a valid secret, the empty one included.
pub fn hash_secret(secret: &[u8]) -> (hash: String)
    ensures
        hash@ == secret_hash(secret@),
{
    let digest = sha256(secret);
    base64_encode(digest.as_slice())
}

/// Hashing is deterministic: equal secrets have equal hashes.
pub proof fn lemma_hash_deterministic(first: Seq<u8>, second: Seq<u8>)
    requires
        first == second,
    ensures
        secret_hash(first) == secret_hash(second),
{
}

} // verus!
