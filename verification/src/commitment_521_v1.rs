//! A deterministic 521-bit commitment: the domain separator and body are
//! framed by their lengths, expanded by two domain-separated SHA-512 calls
//! into 128 bytes, and reduced into the field of integers modulo `2^521 - 1`.

use crate::digest_v1::{sha512_bytes, sha512_spec};
use crate::encoding_v1::{append_bytes, copy_range_into, u64_le, u64_to_le_bytes};
use crate::field_521_v1::{fe_decode_error, fe_encoding_spec, lemma_fe_encoding, FieldElement521V1, FieldElementErrorV1};
use crate::limbs_521_v1::{be_value, p521};
use vstd::prelude::*;

verus! {

pub const DETERMINISTIC_COMMITMENT_521_BYTE_LEN_V1: usize = 66;

/// `"AURA_DETERMINISTIC_COMMITMENT_521_V1"`.
pub const AURA_DETERMINISTIC_COMMITMENT_521_CONTEXT_DOMAIN_SEPARATOR_V1: [u8; 36] = [0x41, 0x55, 0x52, 0x41, 0x5f, 0x44, 0x45, 0x54, 0x45, 0x52, 0x4d, 0x49, 0x4e, 0x49, 0x53, 0x54, 0x49, 0x43, 0x5f, 0x43, 0x4f, 0x4d, 0x4d, 0x49, 0x54, 0x4d, 0x45, 0x4e, 0x54, 0x5f, 0x35, 0x32, 0x31, 0x5f, 0x56, 0x31];

/// `"AURA_DETERMINISTIC_COMMITMENT_521_EXPAND_X_V1"`.
pub const AURA_DETERMINISTIC_COMMITMENT_521_EXPAND_X_V1: [u8; 45] = [0x41, 0x55, 0x52, 0x41, 0x5f, 0x44, 0x45, 0x54, 0x45, 0x52, 0x4d, 0x49, 0x4e, 0x49, 0x53, 0x54, 0x49, 0x43, 0x5f, 0x43, 0x4f, 0x4d, 0x4d, 0x49, 0x54, 0x4d, 0x45, 0x4e, 0x54, 0x5f, 0x35, 0x32, 0x31, 0x5f, 0x45, 0x58, 0x50, 0x41, 0x4e, 0x44, 0x5f, 0x58, 0x5f, 0x56, 0x31];

/// `"AURA_DETERMINISTIC_COMMITMENT_521_EXPAND_Y_V1"`.
pub const AURA_DETERMINISTIC_COMMITMENT_521_EXPAND_Y_V1: [u8; 45] = [0x41, 0x55, 0x52, 0x41, 0x5f, 0x44, 0x45, 0x54, 0x45, 0x52, 0x4d, 0x49, 0x4e, 0x49, 0x53, 0x54, 0x49, 0x43, 0x5f, 0x43, 0x4f, 0x4d, 0x4d, 0x49, 0x54, 0x4d, 0x45, 0x4e, 0x54, 0x5f, 0x35, 0x32, 0x31, 0x5f, 0x45, 0x58, 0x50, 0x41, 0x4e, 0x44, 0x5f, 0x59, 0x5f, 0x56, 0x31];

/// A commitment: one field element.
#[derive(Clone, Copy, Debug, PartialEq, Eq)]
pub struct DeterministicCommitment521V1 {
    element: FieldElement521V1,
}

/// Why 66 bytes are not a commitment.
#[derive(Clone, Copy, Debug, PartialEq, Eq, Structural)]
pub enum DeterministicCommitment521ErrorV1 {
    InvalidCanonicalBytes(FieldElementErrorV1),
}

impl View for DeterministicCommitment521V1 {
    type V = Seq<u8>;

    /// The canonical encoding of the element.
    closed spec fn view(&self) -> Seq<u8> {
        self.element@
    }
}

/// Parsing the bytes of a commitment gives the commitment back: the bytes of
/// a commitment whose value is reduced decode without error, and `from_bytes`
/// returns a commitment with the same bytes.
pub proof fn lemma_commitment_bytes_round_trip(commitment: DeterministicCommitment521V1)
    requires
        be_value(commitment@) < p521(),
    ensures
        fe_decode_error(commitment@) is None,
{
    crate::field_521_v1::lemma_fe_reduced_is_canonical(commitment.element);
    crate::field_521_v1::lemma_fe_bytes_round_trip(commitment.element);
}

/// Two commitments with the same bytes are the same commitment.
pub proof fn lemma_commitment_view_injective(a: DeterministicCommitment521V1, b: DeterministicCommitment521V1)
    requires
        a@ == b@,
    ensures
        a == b,
{
    crate::field_521_v1::lemma_fe_view_injective(a.element, b.element);
}

/// A string framed by its length: eight little-endian bytes, then the string.
pub open spec fn length_framed(bytes: Seq<u8>) -> Seq<u8> {
    u64_le(bytes.len() as u64) + bytes
}

/// The commitment input: the context separator, then the framed domain
/// separator and the framed body.
pub open spec fn commitment_input_spec(domain_separator: Seq<u8>, body: Seq<u8>) -> Seq<u8> {
    AURA_DETERMINISTIC_COMMITMENT_521_CONTEXT_DOMAIN_SEPARATOR_V1@ + length_framed(domain_separator)
        + length_framed(body)
}

/// SHA-512 of the framed domain separator and the framed body.
pub open spec fn sha512_domain_separated_spec(domain_separator: Seq<u8>, body: Seq<u8>) -> Seq<u8> {
    sha512_spec(length_framed(domain_separator) + length_framed(body))
}

/// The 128-byte expansion of a commitment input.
pub open spec fn expand_commitment_spec(input: Seq<u8>) -> Seq<u8> {
    sha512_domain_separated_spec(AURA_DETERMINISTIC_COMMITMENT_521_EXPAND_X_V1@, input)
        + sha512_domain_separated_spec(AURA_DETERMINISTIC_COMMITMENT_521_EXPAND_Y_V1@, input)
}

/// The value a commitment to `body` under `domain_separator` holds.
pub open spec fn commitment_value_spec(domain_separator: Seq<u8>, body: Seq<u8>) -> nat {
    be_value(expand_commitment_spec(commitment_input_spec(domain_separator, body))) % p521()
}

/// Where each part of a commitment preimage stands: the 36-byte context
/// separator `"AURA_DETERMINISTIC_COMMITMENT_521_V1"`, the domain separator's
/// length as eight little-endian bytes, the domain separator, the body's
/// length, then the body.
pub proof fn lemma_commitment_preimage_layout(domain_separator: Seq<u8>, body: Seq<u8>)
    requires
        domain_separator.len() <= u64::MAX,
        body.len() <= u64::MAX,
    ensures
        ({
            let input = commitment_input_spec(domain_separator, body);
            let d = domain_separator.len() as int;
            &&& input.len() == 52 + d + body.len()
            &&& input.subrange(0, 36) == seq![0x41u8, 0x55, 0x52, 0x41, 0x5f, 0x44, 0x45, 0x54, 0x45, 0x52, 0x4d, 0x49, 0x4e, 0x49, 0x53, 0x54, 0x49, 0x43, 0x5f, 0x43, 0x4f, 0x4d, 0x4d, 0x49, 0x54, 0x4d, 0x45, 0x4e, 0x54, 0x5f, 0x35, 0x32, 0x31, 0x5f, 0x56, 0x31]
            &&& input.subrange(36, 44) == u64_le(domain_separator.len() as u64)
            &&& input.subrange(44, 44 + d) == domain_separator
            &&& input.subrange(44 + d, 52 + d) == u64_le(body.len() as u64)
            &&& input.subrange(52 + d, input.len() as int) == body
        }),
{
    let input = commitment_input_spec(domain_separator, body);
    let d = domain_separator.len() as int;
    crate::encoding_v1::lemma_le_bytes_len(domain_separator.len() as nat, 8);
    crate::encoding_v1::lemma_le_bytes_len(body.len() as nat, 8);
    assert(AURA_DETERMINISTIC_COMMITMENT_521_CONTEXT_DOMAIN_SEPARATOR_V1@ =~= seq![0x41u8, 0x55, 0x52, 0x41, 0x5f, 0x44, 0x45, 0x54, 0x45, 0x52, 0x4d, 0x49, 0x4e, 0x49, 0x53, 0x54, 0x49, 0x43, 0x5f, 0x43, 0x4f, 0x4d, 0x4d, 0x49, 0x54, 0x4d, 0x45, 0x4e, 0x54, 0x5f, 0x35, 0x32, 0x31, 0x5f, 0x56, 0x31]);
    assert(input.subrange(0, 36) =~= seq![0x41u8, 0x55, 0x52, 0x41, 0x5f, 0x44, 0x45, 0x54, 0x45, 0x52, 0x4d, 0x49, 0x4e, 0x49, 0x53, 0x54, 0x49, 0x43, 0x5f, 0x43, 0x4f, 0x4d, 0x4d, 0x49, 0x54, 0x4d, 0x45, 0x4e, 0x54, 0x5f, 0x35, 0x32, 0x31, 0x5f, 0x56, 0x31]);
    assert(input.subrange(36, 44) =~= u64_le(domain_separator.len() as u64));
    assert(input.subrange(44, 44 + d) =~= domain_separator);
    assert(input.subrange(44 + d, 52 + d) =~= u64_le(body.len() as u64));
    assert(input.subrange(52 + d, input.len() as int) =~= body);
}

/// A commitment's value is the 128 bytes of two SHA-512 digests, the one
/// tagged `"..._EXPAND_X_V1"` first, read big-endian and reduced modulo
/// `2^521 - 1`. Each digest covers the tag framed by its length and then the
/// preimage framed by its length.
pub proof fn lemma_commitment_value_is_reduced_expansion(domain_separator: Seq<u8>, body: Seq<u8>)
    ensures
        ({
            let input = commitment_input_spec(domain_separator, body);
            let framed = u64_le(input.len() as u64) + input;
            commitment_value_spec(domain_separator, body) == be_value(
                sha512_spec(u64_le(45) + seq![0x41u8, 0x55, 0x52, 0x41, 0x5f, 0x44, 0x45, 0x54, 0x45, 0x52, 0x4d, 0x49, 0x4e, 0x49, 0x53, 0x54, 0x49, 0x43, 0x5f, 0x43, 0x4f, 0x4d, 0x4d, 0x49, 0x54, 0x4d, 0x45, 0x4e, 0x54, 0x5f, 0x35, 0x32, 0x31, 0x5f, 0x45, 0x58, 0x50, 0x41, 0x4e, 0x44, 0x5f, 0x58, 0x5f, 0x56, 0x31] + framed) + sha512_spec(
                    u64_le(45) + seq![0x41u8, 0x55, 0x52, 0x41, 0x5f, 0x44, 0x45, 0x54, 0x45, 0x52, 0x4d, 0x49, 0x4e, 0x49, 0x53, 0x54, 0x49, 0x43, 0x5f, 0x43, 0x4f, 0x4d, 0x4d, 0x49, 0x54, 0x4d, 0x45, 0x4e, 0x54, 0x5f, 0x35, 0x32, 0x31, 0x5f, 0x45, 0x58, 0x50, 0x41, 0x4e, 0x44, 0x5f, 0x59, 0x5f, 0x56, 0x31] + framed,
                ),
            ) % p521()
        }),
{
    let input = commitment_input_spec(domain_separator, body);
    let framed = u64_le(input.len() as u64) + input;
    assert(AURA_DETERMINISTIC_COMMITMENT_521_EXPAND_X_V1@ =~= seq![0x41u8, 0x55, 0x52, 0x41, 0x5f, 0x44, 0x45, 0x54, 0x45, 0x52, 0x4d, 0x49, 0x4e, 0x49, 0x53, 0x54, 0x49, 0x43, 0x5f, 0x43, 0x4f, 0x4d, 0x4d, 0x49, 0x54, 0x4d, 0x45, 0x4e, 0x54, 0x5f, 0x35, 0x32, 0x31, 0x5f, 0x45, 0x58, 0x50, 0x41, 0x4e, 0x44, 0x5f, 0x58, 0x5f, 0x56, 0x31]);
    assert(AURA_DETERMINISTIC_COMMITMENT_521_EXPAND_Y_V1@ =~= seq![0x41u8, 0x55, 0x52, 0x41, 0x5f, 0x44, 0x45, 0x54, 0x45, 0x52, 0x4d, 0x49, 0x4e, 0x49, 0x53, 0x54, 0x49, 0x43, 0x5f, 0x43, 0x4f, 0x4d, 0x4d, 0x49, 0x54, 0x4d, 0x45, 0x4e, 0x54, 0x5f, 0x35, 0x32, 0x31, 0x5f, 0x45, 0x58, 0x50, 0x41, 0x4e, 0x44, 0x5f, 0x59, 0x5f, 0x56, 0x31]);
    assert(length_framed(AURA_DETERMINISTIC_COMMITMENT_521_EXPAND_X_V1@) + length_framed(input)
        =~= u64_le(45) + seq![0x41u8, 0x55, 0x52, 0x41, 0x5f, 0x44, 0x45, 0x54, 0x45, 0x52, 0x4d, 0x49, 0x4e, 0x49, 0x53, 0x54, 0x49, 0x43, 0x5f, 0x43, 0x4f, 0x4d, 0x4d, 0x49, 0x54, 0x4d, 0x45, 0x4e, 0x54, 0x5f, 0x35, 0x32, 0x31, 0x5f, 0x45, 0x58, 0x50, 0x41, 0x4e, 0x44, 0x5f, 0x58, 0x5f, 0x56, 0x31] + framed);
    assert(length_framed(AURA_DETERMINISTIC_COMMITMENT_521_EXPAND_Y_V1@) + length_framed(input)
        =~= u64_le(45) + seq![0x41u8, 0x55, 0x52, 0x41, 0x5f, 0x44, 0x45, 0x54, 0x45, 0x52, 0x4d, 0x49, 0x4e, 0x49, 0x53, 0x54, 0x49, 0x43, 0x5f, 0x43, 0x4f, 0x4d, 0x4d, 0x49, 0x54, 0x4d, 0x45, 0x4e, 0x54, 0x5f, 0x35, 0x32, 0x31, 0x5f, 0x45, 0x58, 0x50, 0x41, 0x4e, 0x44, 0x5f, 0x59, 0x5f, 0x56, 0x31] + framed);
}

impl DeterministicCommitment521V1 {
    /// Parses a canonical field element encoding.
    pub fn from_bytes(bytes: [u8; 66]) -> (result: Result<Self, DeterministicCommitment521ErrorV1>)
        ensures
            fe_decode_error(bytes@) is None ==> (result matches Ok(commitment) && commitment@
                == bytes@),
            fe_decode_error(bytes@) is Some ==> result == Err::<Self, DeterministicCommitment521ErrorV1>(
                DeterministicCommitment521ErrorV1::InvalidCanonicalBytes(fe_decode_error(bytes@)->0),
            ),
    {
        match FieldElement521V1::from_bytes(bytes) {
            Ok(element) => Ok(Self { element }),
            Err(error) => Err(DeterministicCommitment521ErrorV1::InvalidCanonicalBytes(error)),
        }
    }

    /// The canonical encoding.
    pub fn to_bytes(self) -> (bytes: [u8; 66])
        ensures
            bytes@ == self@,
    {
        self.element.to_bytes()
    }

    /// Whether the committed value is zero.
    pub fn is_zero(self) -> (zero: bool)
        ensures
            zero == (be_value(self@) == 0),
    {
        self.element.is_zero()
    }
}

/// The length of a byte string as eight little-endian bytes.
fn length_prefix(bytes: &[u8]) -> (prefix: [u8; 8])
    ensures
        prefix@ == u64_le(bytes@.len() as u64),
{
    u64_to_le_bytes(bytes.len() as u64)
}

/// The commitment input bytes.
fn canonical_commitment_input_bytes_v1(domain_separator: &[u8], body: &[u8]) -> (bytes: Vec<u8>)
    ensures
        bytes@ == commitment_input_spec(domain_separator@, body@),
{
    let context = AURA_DETERMINISTIC_COMMITMENT_521_CONTEXT_DOMAIN_SEPARATOR_V1;
    let mut bytes: Vec<u8> = Vec::new();
    append_bytes(&mut bytes, &context);
    let domain_len = length_prefix(domain_separator);
    append_bytes(&mut bytes, &domain_len);
    append_bytes(&mut bytes, domain_separator);
    let body_len = length_prefix(body);
    append_bytes(&mut bytes, &body_len);
    append_bytes(&mut bytes, body);
    proof {
        assert(bytes@ =~= commitment_input_spec(domain_separator@, body@));
    }
    bytes
}

/// SHA-512 of the framed domain separator and the framed body.
pub fn sha512_domain_separated_bytes_v1(domain_separator: &[u8], body: &[u8]) -> (hash: [u8; 64])
    ensures
        hash@ == sha512_domain_separated_spec(domain_separator@, body@),
{
    let mut preimage: Vec<u8> = Vec::new();
    let domain_len = length_prefix(domain_separator);
    append_bytes(&mut preimage, &domain_len);
    append_bytes(&mut preimage, domain_separator);
    let body_len = length_prefix(body);
    append_bytes(&mut preimage, &body_len);
    append_bytes(&mut preimage, body);
    proof {
        assert(preimage@ =~= length_framed(domain_separator@) + length_framed(body@));
    }
    sha512_bytes(preimage.as_slice())
}

/// The two expansions of a commitment input, one after the other.
pub fn expand_commitment_bytes_v1(canonical_input: &[u8]) -> (expanded: [u8; 128])
    ensures
        expanded@ == expand_commitment_spec(canonical_input@),
{
    let tag_x = AURA_DETERMINISTIC_COMMITMENT_521_EXPAND_X_V1;
    let tag_y = AURA_DETERMINISTIC_COMMITMENT_521_EXPAND_Y_V1;
    let expand_x = sha512_domain_separated_bytes_v1(&tag_x, canonical_input);
    let expand_y = sha512_domain_separated_bytes_v1(&tag_y, canonical_input);
    let mut joined: Vec<u8> = Vec::new();
    append_bytes(&mut joined, &expand_x);
    append_bytes(&mut joined, &expand_y);
    let mut expanded = [0u8; 128];
    copy_range_into(&mut expanded, joined.as_slice(), 0);
    proof {
        assert(joined@.subrange(0, 128) =~= joined@);
    }
    expanded
}

/// The commitment to `body` under `domain_separator`.
pub fn derive_deterministic_commitment_521_v1(domain_separator: &[u8], body: &[u8]) -> (commitment: DeterministicCommitment521V1)
    ensures
        commitment@ == fe_encoding_spec(commitment_value_spec(domain_separator@, body@)),
{
    let canonical_input = canonical_commitment_input_bytes_v1(domain_separator, body);
    let expanded = expand_commitment_bytes_v1(canonical_input.as_slice());
    let element = FieldElement521V1::reduce_bytes_mod(&expanded);
    proof {
        use_type_invariant(&element);
        lemma_fe_encoding(element);
    }
    DeterministicCommitment521V1 { element }
}

} // verus!
