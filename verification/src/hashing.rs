//! The cryptographic hash functions the contracts commit with.
use vstd::prelude::*;
use blake2::Digest;

verus! {

/// The SHA-256 digest of a byte string.
pub uninterp spec fn sha256_digest(data: Seq<u8>) -> Seq<u8>;

/// The BLAKE2b digest with a 32-byte output of a byte string.
pub uninterp spec fn blake2b_256_digest(data: Seq<u8>) -> Seq<u8>;

/// SHA-256 of `data`, through `sha2::Sha256::digest`. Trusted: its result
/// is the named digest of the bytes; nothing is claimed of the digest itself.
#[verifier::external_body]
pub(crate) fn sha256(data: &[u8]) -> (r: [u8; 32])
    ensures
        r@ == sha256_digest(data@),
{
    sha2::Sha256::digest(data).into()
}

/// BLAKE2b-256 of `data`, through `blake2::Blake2b<U32>::digest`. Trusted:
/// its result is the named digest of the bytes; nothing is claimed of the
/// digest itself.
#[verifier::external_body]
pub(crate) fn blake2b_256(data: &[u8]) -> (r: [u8; 32])
    ensures
        r@ == blake2b_256_digest(data@),
{
    blake2::Blake2b::<blake2::digest::consts::U32>::digest(data).into()
}

} // verus!
