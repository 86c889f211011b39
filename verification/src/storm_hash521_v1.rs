//! The 521-bit hash `H_521(m) = SHA3-512(m) mod (2^521 - 1)`, with the
//! SHA3-512 output read as a big-endian integer.

use crate::digest_v1::{sha3_512_bytes, sha3_512_spec};
use crate::field_521_v1::FieldElement521V1;
use crate::limbs_521_v1::{be_value, p521};
use vstd::prelude::*;

verus! {

pub const AURA_HASH521_V1_OUTPUT_BITS: usize = 521;

pub const AURA_HASH521_V1_OUTPUT_BYTES: usize = 66;

/// `H_521(m)`: the SHA3-512 digest of `m`, big-endian, reduced modulo
/// `2^521 - 1`.
pub open spec fn hash521_spec(message: Seq<u8>) -> nat {
    be_value(sha3_512_spec(message)) % p521()
}

/// The canonical 521-bit identity hash of `msg`.
pub fn aura_hash521_v1(msg: &[u8]) -> (hash: FieldElement521V1)
    ensures
        hash.value() == hash521_spec(msg@),
        hash.value() == be_value(sha3_512_spec(msg@)) % p521(),
{
    let digest = sha3_512_bytes(msg);
    FieldElement521V1::reduce_bytes_mod(&digest)
}

/// `H_521(m)` is the SHA3-512 digest of `m` itself, taken once, read as a
/// big-endian integer and reduced modulo `2^521 - 1`; it is below the modulus.
pub proof fn lemma_hash521_is_reduced_sha3_512(message: Seq<u8>)
    ensures
        hash521_spec(message) == be_value(sha3_512_spec(message)) % p521(),
        hash521_spec(message) < p521(),
{
    crate::limbs_521_v1::lemma_limb_weight_values();
}

} // verus!
