//! SHA-256 digests, rendered as lowercase hexadecimal.
use sha2::Digest;
use vstd::prelude::*;

use crate::text::{lemma_lower_hex_len, lower_hex, to_lower_hex};

verus! {

/// The SHA-256 digest of `data`.
pub uninterp spec fn sha256_of(data: Seq<u8>) -> Seq<u8>;

/// Calls `sha2::Sha256::digest` on `data`. Trusted: the result is the digest
/// named `sha256_of(data)`, and it is 32 bytes long (the output size of
/// `Sha256` in the `sha2` source). Nothing is claimed of the digest values.
#[verifier::external_body]
pub(crate) fn sha256_digest(data: &[u8]) -> (digest: Vec<u8>)
    ensures
        digest@ == sha256_of(data@),
        digest@.len() == 32,
{
    sha2::Sha256::digest(data).to_vec()
}

/// The SHA-256 digest of `data` in lowercase hexadecimal (64 characters).
pub fn sha256_hex(data: &[u8]) -> (hex: String)
    ensures
        hex@ == lower_hex(sha256_of(data@)),
        hex@.len() == 64,
{
    let digest = sha256_digest(data);
    proof {
        lemma_lower_hex_len(digest@);
    }
    to_lower_hex(digest.as_slice())
}

} // verus!
