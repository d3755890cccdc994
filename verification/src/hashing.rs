//! Content hashing: the hex digest of SHA3-256 over a string's UTF-8 bytes.
//!
//! The algorithm is a choice made here: SHA3-256 in lowercase hex is the
//! digest this project's chain-hash tests compute, and no other part of the
//! project fixes one.
use sha3::Digest;
use vstd::prelude::*;

verus! {

/// Name for the lowercase hex SHA3-256 digest of a string's UTF-8 encoding,
/// as `sha3::Sha3_256` followed by `hex::encode` computes it.
pub uninterp spec fn content_hash(s: Seq<char>) -> Seq<char>;

/// Hex SHA3-256 digest of `content`.
///
/// Trusted: calls `sha3::Sha3_256` (new, update, finalize) and
/// `hex::encode`.  Claims that the result is the named digest of the
/// content, and that it has 64 characters (32 digest bytes, two hex
/// digits each); nothing is claimed about which characters they are.
#[verifier::external_body]
pub fn compute_content_hash(content: &str) -> (r: String)
    ensures
        r@ == content_hash(content@),
        r@.len() == 64,
{
    let mut hasher = sha3::Sha3_256::new();
    hasher.update(content.as_bytes());
    hex::encode(hasher.finalize())
}

} // verus!
