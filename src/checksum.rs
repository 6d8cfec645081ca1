//! The SHA-256 checksum of downloaded content, as lowercase hex.

use vstd::prelude::*;
use sha2::Digest;

verus! {

/// What the sha2 crate's SHA-256 gives for `content`, written as lowercase
/// hex by the digest's `LowerHex` formatting.
pub uninterp spec fn sha256_hex_of(content: Seq<u8>) -> Seq<char>;

/// Relies on `sha2::Sha256` (`Digest::new`, `update`, `finalize`) and the
/// `LowerHex` formatting of its 32-byte output: two hex digits per byte.
#[verifier::external_body]
fn sha256_hex(content: &[u8]) -> (r: String)
    ensures
        r@ == sha256_hex_of(content@),
        r@.len() == 64,
{
    let mut hasher = sha2::Sha256::new();
    hasher.update(content);
    format!("{:x}", hasher.finalize())
}

/// The SHA-256 checksum of `content`, 64 lowercase hex digits.
pub fn checksum_of(content: &[u8]) -> (r: String)
    ensures
        r@ == sha256_hex_of(content@),
        r@.len() == 64,
{
    sha256_hex(content)
}

} // verus!
