//! Checksums of migrations.
use sha2::Digest;
use vstd::prelude::*;
use vstd::utf8::encode_utf8;

verus! {

/// The SHA-256 digest of `message`, as the `sha2` crate computes it.
pub uninterp spec fn sha256_digest(message: Seq<u8>) -> Seq<u8>;

/// SHA-256 counts a message's bits in 64 bits.
pub open spec fn hashable(text: Seq<char>) -> bool {
    encode_utf8(text).len() * 8 <= u64::MAX
}

/// The checksum that is recorded for a migration: the digest of its text.
pub open spec fn checksum_of(text: Seq<char>) -> Seq<u8> {
    sha256_digest(encode_utf8(text))
}

/// Calls `sha2::Sha256::digest`.  Trusted: the call returns the digest that
/// [`sha256_digest`] names, a function of the message alone, 32 bytes long; it
/// does not panic on a message whose length in bits fits in 64 bits.
#[verifier::external_body]
fn sha256(message: &[u8]) -> (digest: Vec<u8>)
    requires
        message@.len() * 8 <= u64::MAX,
    ensures
        digest@ == sha256_digest(message@),
        digest@.len() == 32,
{
    sha2::Sha256::digest(message).to_vec()
}

/// The checksum of `text`.
pub fn checksum(text: &str) -> (sum: Vec<u8>)
    requires
        hashable(text@),
    ensures
        sum@ == checksum_of(text@),
        sum@.len() == 32,
{
    sha256(text.as_bytes())
}

} // verus!
