//! The double-SHA-256 hashing collaborator.
//!
//! The digest itself is computed by the `sha2` crate; this module gives its
//! result a name at the specification level and builds the double hash on
//! top of it in verified code.

use vstd::prelude::*;

verus! {

/// The all-zero 32-byte identifier.
pub open spec fn zero_hash() -> Seq<u8> {
    Seq::new(32, |i: int| 0u8)
}

pub uninterp spec fn sha256_of(data: Seq<u8>) -> Seq<u8>;

/// The double SHA-256 digest of `data`.
pub open spec fn sha256d_of(data: Seq<u8>) -> Seq<u8> {
    sha256_of(sha256_of(data))
}

/// Relies on `sha2::Sha256::digest`: the 32-byte SHA-256 digest, a pure
/// function of the input bytes alone.
#[verifier::external_body]
pub(crate) fn sha256(data: &[u8]) -> (r: [u8; 32])
    ensures
        r@ == sha256_of(data@),
{
    let digest = <sha2::Sha256 as sha2::Digest>::digest(data);
    digest.into()
}

/// The double SHA-256 digest used for transaction and block identifiers.
pub(crate) fn sha256d(data: &[u8]) -> (r: [u8; 32])
    ensures
        r@ == sha256d_of(data@),
{
    let first = sha256(data);
    sha256(first.as_slice())
}

} // verus!
