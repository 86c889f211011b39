//! The hash functions the library builds on, each one call into its crate.
//! Their outputs are named by uninterpreted specification functions: a digest
//! is a function of the input bytes alone.

use crate::encoding_v1::append_bytes;
use sha2::{Digest, Sha256, Sha512};
use sha3::{Sha3_256, Sha3_512};
use vstd::prelude::*;

verus! {

/// SHA-256 of a byte string.
pub uninterp spec fn sha256_spec(message: Seq<u8>) -> Seq<u8>;

/// SHA-512 of a byte string.
pub uninterp spec fn sha512_spec(message: Seq<u8>) -> Seq<u8>;

/// SHA3-256 of a byte string.
pub uninterp spec fn sha3_256_spec(message: Seq<u8>) -> Seq<u8>;

/// SHA3-512 of a byte string.
pub uninterp spec fn sha3_512_spec(message: Seq<u8>) -> Seq<u8>;

/// Calls `<sha2::Sha256 as Digest>::digest`. Trusted: the 32-byte digest is
/// `sha256_spec` of the input.
#[verifier::external_body]
pub(crate) fn sha256_bytes(bytes: &[u8]) -> (hash: [u8; 32])
    ensures
        hash@ == sha256_spec(bytes@),
{
    let digest = Sha256::digest(bytes);
    let mut hash = [0u8; 32];
    hash.copy_from_slice(&digest);
    hash
}

/// Calls `<sha2::Sha512 as Digest>::digest`. Trusted: the 64-byte digest is
/// `sha512_spec` of the input.
#[verifier::external_body]
pub(crate) fn sha512_bytes(bytes: &[u8]) -> (hash: [u8; 64])
    ensures
        hash@ == sha512_spec(bytes@),
{
    let digest = Sha512::digest(bytes);
    let mut hash = [0u8; 64];
    hash.copy_from_slice(&digest);
    hash
}

/// Calls `<sha3::Sha3_256 as Digest>::digest`. Trusted: the 32-byte digest is
/// `sha3_256_spec` of the input.
#[verifier::external_body]
pub(crate) fn sha3_256_bytes(bytes: &[u8]) -> (hash: [u8; 32])
    ensures
        hash@ == sha3_256_spec(bytes@),
{
    let digest = Sha3_256::digest(bytes);
    let mut hash = [0u8; 32];
    hash.copy_from_slice(&digest);
    hash
}

/// Calls `<sha3::Sha3_512 as Digest>::digest`. Trusted: the 64-byte digest is
/// `sha3_512_spec` of the input.
#[verifier::external_body]
pub(crate) fn sha3_512_bytes(bytes: &[u8]) -> (hash: [u8; 64])
    ensures
        hash@ == sha3_512_spec(bytes@),
{
    let digest = Sha3_512::digest(bytes);
    let mut hash = [0u8; 64];
    hash.copy_from_slice(&digest);
    hash
}

/// The length of the 32-byte digests the library uses.
pub const HASH_LEN_V1: usize = 32;

/// `SHA-256(domain || payload)`.
pub open spec fn sha256_domain_separated_spec(domain: Seq<u8>, payload: Seq<u8>) -> Seq<u8> {
    sha256_spec(domain + payload)
}

/// SHA-256 of the domain separator followed by the payload.
pub(crate) fn sha256_domain_separated(domain_separator: &[u8], payload: &[u8]) -> (hash: [u8; 32])
    ensures
        hash@ == sha256_domain_separated_spec(domain_separator@, payload@),
{
    let mut preimage: Vec<u8> = Vec::new();
    append_bytes(&mut preimage, domain_separator);
    append_bytes(&mut preimage, payload);
    sha256_bytes(preimage.as_slice())
}


/// Domain separation puts the separator first and the payload after it.
pub proof fn lemma_sha256_domain_separated_order(domain: Seq<u8>, payload: Seq<u8>)
    ensures
        sha256_domain_separated_spec(domain, payload) == sha256_spec(domain + payload),
{
}

} // verus!
