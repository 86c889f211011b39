//! The Storm witness proof: a proof artifact carries the canonical claim and
//! witness bytes, bound by SHA-256 digests to the AIR public inputs; the
//! verifier checks the digests, decodes the claim and witness, validates the
//! claim by re-execution and replays every step of the witness.

use crate::digest_v1::{sha256_domain_separated, sha256_domain_separated_spec};
use crate::encoding_v1::{
    append_bytes, copy_range_into, copy_subrange, le_bytes, le_value, u64_from_le_bytes, u64_le,
    u64_to_le_bytes, u64_to_le_vec,
};
use crate::field_521_v1::bytes_equal;
use crate::limbs_521_v1::lemma_be_injective;
use crate::storm_state_v1::StormState521V1;
use crate::storm_execution_v1::{state_values, storm_state_at, storm_trace_matches};
use crate::storm_air_v1::{
    air_public_inputs_bytes_spec, air_public_inputs_of, build_storm_air_public_inputs_v1,
    build_storm_trace_witness_v1, canonical_storm_trace_witness_bytes_v1,
    decode_storm_trace_witness_bytes_v1, lemma_valid_witness_canonical, same_state,
    states_distinct_before, storm_witness_valid_for, validate_trace_witness_against_claim,
    witness_bytes_spec, witness_canonical, witness_decode_error, witness_encodes, witness_same,
    StormAirPublicInputsV1, StormAirValidationErrorV1, StormTraceWitnessV1,
    StormTraceWitnessEncodingErrorV1,
};
use crate::storm_claim_v1::{
    claim_canonical, decode_storm_claim_canonical_bytes_v1, lemma_storm_claim_bytes_injective,
    lemma_storm_claim_layout, lemma_storm_claim_round_trip, storm_claim_bytes_spec,
    storm_claim_decode_error, storm_claim_error_of, storm_claim_header_valid, storm_claim_valid, claim_inputs, StormClaim521V1, StormClaimEncodingErrorV1, StormClaimErrorV1,
    STORM_CLAIM_521_V1_VERSION, STORM_MODULUS_ID_521_V1,
};
use crate::storm_context_v1::validate_context_bytes_v1;
use vstd::prelude::*;

verus! {

pub const STORM_AIR_REAL_PROOF_VERSION_V1: u8 = 1;

pub const STORM_AIR_REAL_PROOF_BACKEND_WITNESS_V1: u32 = 2;

pub const STORM_AIR_REAL_PROOF_TRACE_WIDTH_V1: u16 = 8;

pub const STORM_AIR_REAL_PROOF_CONSTRAINT_COUNT_V1: u16 = 2;

/// `"AURA_STORM_AIR_REAL_PUBLIC_INPUT_DIGEST_V1"`.
pub const AURA_STORM_AIR_REAL_PUBLIC_INPUT_DIGEST_V1_DOMAIN_SEPARATOR: [u8; 42] = [0x41, 0x55, 0x52, 0x41, 0x5f, 0x53, 0x54, 0x4f, 0x52, 0x4d, 0x5f, 0x41, 0x49, 0x52, 0x5f, 0x52, 0x45, 0x41, 0x4c, 0x5f, 0x50, 0x55, 0x42, 0x4c, 0x49, 0x43, 0x5f, 0x49, 0x4e, 0x50, 0x55, 0x54, 0x5f, 0x44, 0x49, 0x47, 0x45, 0x53, 0x54, 0x5f, 0x56, 0x31];

/// `"AURA_STORM_AIR_REAL_PROOF_BYTES_V1"`.
pub const AURA_STORM_AIR_REAL_PROOF_BYTES_V1_DOMAIN_SEPARATOR: [u8; 34] = [0x41, 0x55, 0x52, 0x41, 0x5f, 0x53, 0x54, 0x4f, 0x52, 0x4d, 0x5f, 0x41, 0x49, 0x52, 0x5f, 0x52, 0x45, 0x41, 0x4c, 0x5f, 0x50, 0x52, 0x4f, 0x4f, 0x46, 0x5f, 0x42, 0x59, 0x54, 0x45, 0x53, 0x5f, 0x56, 0x31];

/// `"AURA_STORM_AIR_REAL_PROOF_BINDING_V1"`.
pub const AURA_STORM_AIR_REAL_PROOF_BINDING_V1_DOMAIN_SEPARATOR: [u8; 36] = [0x41, 0x55, 0x52, 0x41, 0x5f, 0x53, 0x54, 0x4f, 0x52, 0x4d, 0x5f, 0x41, 0x49, 0x52, 0x5f, 0x52, 0x45, 0x41, 0x4c, 0x5f, 0x50, 0x52, 0x4f, 0x4f, 0x46, 0x5f, 0x42, 0x49, 0x4e, 0x44, 0x49, 0x4e, 0x47, 0x5f, 0x56, 0x31];

/// A proof artifact: its shape, its digests and the proof bytes.
#[derive(Clone, Debug, PartialEq, Eq)]
pub struct StormAirRealProofArtifactV1 {
    pub backend_kind: u32,
    pub proof_version: u8,
    pub public_input_digest: [u8; 32],
    pub trace_state_count: u64,
    pub internal_trace_length: u64,
    pub trace_width: u16,
    pub backend_constraint_count: u16,
    pub proof_bytes: Vec<u8>,
    pub proof_bytes_digest: [u8; 32],
    pub proof_binding_digest: [u8; 32],
}

/// Why no proof is produced.
#[derive(Debug, PartialEq, Eq)]
pub enum StormAirRealProverErrorV1 {
    PublicInputsMismatch { field: &'static str },
    WitnessConstructionFailed(StormAirValidationErrorV1),
    WitnessValidationFailed(StormAirValidationErrorV1),
}

/// Why proof bytes do not decode.
#[derive(Debug, PartialEq, Eq)]
pub enum StormAirRealProofDecodeErrorV1 {
    InvalidTraceStateCount,
    InvalidLength { field: &'static str, expected: usize, actual: usize },
    ClaimDecode(StormClaimEncodingErrorV1),
    WitnessDecode(StormTraceWitnessEncodingErrorV1),
    TrailingBytes { remaining: usize },
}

/// What an accepted proof establishes.
#[derive(Clone, Copy, Debug, PartialEq, Eq)]
pub struct StormAirRealVerifierAcceptanceV1 {
    pub verified_public_input_digest: [u8; 32],
    pub verified_proof_bytes_digest: [u8; 32],
    pub verified_proof_binding_digest: [u8; 32],
    pub verified_trace_state_count: u64,
}

/// Why a proof is rejected.
#[allow(inconsistent_fields)]
#[derive(Debug, PartialEq, Eq)]
pub enum StormAirRealVerifierErrorV1 {
    UnsupportedBackendKind { expected: u32, actual: u32 },
    UnsupportedProofVersion { expected: u8, actual: u8 },
    UnsupportedTraceShape { reason: &'static str },
    PublicInputDigestMismatch { expected: [u8; 32], actual: [u8; 32] },
    ProofBytesDigestMismatch { expected: [u8; 32], actual: [u8; 32] },
    ProofBindingDigestMismatch { expected: [u8; 32], actual: [u8; 32] },
    ProofDecode(StormAirRealProofDecodeErrorV1),
    ClaimValidationFailed(StormClaimErrorV1),
    PublicInputsMismatch { field: &'static str },
    WitnessValidationFailed(StormAirValidationErrorV1),
}

/// The digest of the public inputs.
pub open spec fn public_input_digest_spec(inputs: StormAirPublicInputsV1) -> Seq<u8> {
    sha256_domain_separated_spec(
        AURA_STORM_AIR_REAL_PUBLIC_INPUT_DIGEST_V1_DOMAIN_SEPARATOR@,
        air_public_inputs_bytes_spec(inputs),
    )
}

/// The digest of the proof bytes.
pub open spec fn proof_bytes_digest_spec(proof_bytes: Seq<u8>) -> Seq<u8> {
    sha256_domain_separated_spec(AURA_STORM_AIR_REAL_PROOF_BYTES_V1_DOMAIN_SEPARATOR@, proof_bytes)
}

/// The bytes the binding digest covers: the shape, the public input digest
/// and the proof-bytes digest.
pub open spec fn binding_bytes_spec(artifact: StormAirRealProofArtifactV1) -> Seq<u8> {
    le_bytes(artifact.backend_kind as nat, 4) + seq![artifact.proof_version]
        + artifact.public_input_digest@ + u64_le(artifact.trace_state_count) + u64_le(
        artifact.internal_trace_length,
    ) + le_bytes(artifact.trace_width as nat, 2) + le_bytes(
        artifact.backend_constraint_count as nat,
        2,
    ) + artifact.proof_bytes_digest@
}

/// The binding digest of an artifact.
pub open spec fn binding_digest_spec(artifact: StormAirRealProofArtifactV1) -> Seq<u8> {
    sha256_domain_separated_spec(
        AURA_STORM_AIR_REAL_PROOF_BINDING_V1_DOMAIN_SEPARATOR@,
        binding_bytes_spec(artifact),
    )
}

/// The proof bytes: the claim and the witness, each framed by its length.
pub open spec fn proof_bytes_spec(claim: StormClaim521V1, witness: StormTraceWitnessV1) -> Seq<u8> {
    u64_le(799) + storm_claim_bytes_spec(claim) + u64_le(
        witness_bytes_spec(witness).len() as u64,
    ) + witness_bytes_spec(witness)
}

/// An artifact assembled over the given public inputs, trace length and proof
/// bytes.
pub open spec fn artifact_assembled(artifact: StormAirRealProofArtifactV1, inputs: StormAirPublicInputsV1, trace_state_count: u64, proof_bytes: Seq<u8>) -> bool {
    &&& artifact.backend_kind == STORM_AIR_REAL_PROOF_BACKEND_WITNESS_V1
    &&& artifact.proof_version == STORM_AIR_REAL_PROOF_VERSION_V1
    &&& artifact.public_input_digest@ == public_input_digest_spec(inputs)
    &&& artifact.trace_state_count == trace_state_count
    &&& artifact.internal_trace_length == trace_state_count
    &&& artifact.trace_width == STORM_AIR_REAL_PROOF_TRACE_WIDTH_V1
    &&& artifact.backend_constraint_count == STORM_AIR_REAL_PROOF_CONSTRAINT_COUNT_V1
    &&& artifact.proof_bytes@ == proof_bytes
    &&& artifact.proof_bytes_digest@ == proof_bytes_digest_spec(proof_bytes)
    &&& artifact.proof_binding_digest@ == binding_digest_spec(artifact)
}

/// The digest of the public inputs.
pub fn derive_storm_air_real_public_input_digest_v1(public_inputs: &StormAirPublicInputsV1) -> (digest: [u8; 32])
    ensures
        digest@ == public_input_digest_spec(*public_inputs),
{
    let domain = AURA_STORM_AIR_REAL_PUBLIC_INPUT_DIGEST_V1_DOMAIN_SEPARATOR;
    let bytes = public_inputs.canonical_bytes();
    sha256_domain_separated(&domain, bytes.as_slice())
}

/// The digest of the proof bytes.
pub fn derive_storm_air_real_proof_bytes_digest_v1(proof_bytes: &[u8]) -> (digest: [u8; 32])
    ensures
        digest@ == proof_bytes_digest_spec(proof_bytes@),
{
    let domain = AURA_STORM_AIR_REAL_PROOF_BYTES_V1_DOMAIN_SEPARATOR;
    sha256_domain_separated(&domain, proof_bytes)
}

fn canonical_storm_real_proof_binding_bytes_v1(proof_artifact: &StormAirRealProofArtifactV1) -> (bytes: Vec<u8>)
    ensures
        bytes@ == binding_bytes_spec(*proof_artifact),
{
    let mut bytes = u64_to_le_vec(proof_artifact.backend_kind as u64, 4);
    bytes.push(proof_artifact.proof_version);
    append_bytes(&mut bytes, &proof_artifact.public_input_digest);
    let count = u64_to_le_bytes(proof_artifact.trace_state_count);
    append_bytes(&mut bytes, &count);
    let internal = u64_to_le_bytes(proof_artifact.internal_trace_length);
    append_bytes(&mut bytes, &internal);
    let width = u64_to_le_vec(proof_artifact.trace_width as u64, 2);
    append_bytes(&mut bytes, width.as_slice());
    let constraints = u64_to_le_vec(proof_artifact.backend_constraint_count as u64, 2);
    append_bytes(&mut bytes, constraints.as_slice());
    append_bytes(&mut bytes, &proof_artifact.proof_bytes_digest);
    proof {
        assert(bytes@ =~= binding_bytes_spec(*proof_artifact));
    }
    bytes
}

/// The binding digest of an artifact.
pub fn derive_storm_air_real_proof_binding_digest_v1(proof_artifact: &StormAirRealProofArtifactV1) -> (digest: [u8; 32])
    ensures
        digest@ == binding_digest_spec(*proof_artifact),
{
    let domain = AURA_STORM_AIR_REAL_PROOF_BINDING_V1_DOMAIN_SEPARATOR;
    let bytes = canonical_storm_real_proof_binding_bytes_v1(proof_artifact);
    sha256_domain_separated(&domain, bytes.as_slice())
}

/// Assembles an artifact and fills in its binding digest.
fn assemble_storm_air_real_artifact_v1(public_inputs: &StormAirPublicInputsV1, trace_state_count: u64, proof_bytes: Vec<u8>) -> (artifact: StormAirRealProofArtifactV1)
    ensures
        artifact_assembled(artifact, *public_inputs, trace_state_count, proof_bytes@),
{
    let proof_bytes_digest = derive_storm_air_real_proof_bytes_digest_v1(proof_bytes.as_slice());
    let mut proof_artifact = StormAirRealProofArtifactV1 {
        backend_kind: STORM_AIR_REAL_PROOF_BACKEND_WITNESS_V1,
        proof_version: STORM_AIR_REAL_PROOF_VERSION_V1,
        public_input_digest: derive_storm_air_real_public_input_digest_v1(public_inputs),
        trace_state_count,
        internal_trace_length: trace_state_count,
        trace_width: STORM_AIR_REAL_PROOF_TRACE_WIDTH_V1,
        backend_constraint_count: STORM_AIR_REAL_PROOF_CONSTRAINT_COUNT_V1,
        proof_bytes,
        proof_bytes_digest,
        proof_binding_digest: [0u8; 32],
    };
    let binding = derive_storm_air_real_proof_binding_digest_v1(&proof_artifact);
    let ghost unbound = proof_artifact;
    proof_artifact.proof_binding_digest = binding;
    proof {
        assert(binding_bytes_spec(proof_artifact) =~= binding_bytes_spec(unbound));
    }
    proof_artifact
}

/// The proof bytes of a claim and its witness.
pub fn canonical_storm_real_proof_bytes_v1(claim: &StormClaim521V1, witness: &StormTraceWitnessV1) -> (bytes: Vec<u8>)
    ensures
        bytes@ == proof_bytes_spec(*claim, *witness),
{
    let claim_bytes = claim.canonical_bytes();
    let witness_bytes = canonical_storm_trace_witness_bytes_v1(witness);
    let claim_len = u64_to_le_bytes(claim_bytes.len() as u64);
    let witness_len = u64_to_le_bytes(witness_bytes.len() as u64);
    let mut bytes: Vec<u8> = Vec::new();
    append_bytes(&mut bytes, &claim_len);
    append_bytes(&mut bytes, claim_bytes.as_slice());
    append_bytes(&mut bytes, &witness_len);
    append_bytes(&mut bytes, witness_bytes.as_slice());
    proof {
        use_type_invariant(&claim.initial_state.x);
        use_type_invariant(&claim.initial_state.y);
        use_type_invariant(&claim.final_state.x);
        use_type_invariant(&claim.final_state.y);
        crate::storm_claim_v1::lemma_storm_claim_bytes_len(*claim);
        assert(bytes@ =~= proof_bytes_spec(*claim, *witness));
    }
    bytes
}

/// The error that decoding reports from the framing and the claim alone, if
/// any: the claim length, the claim, the witness length and the witness
/// extent, in this order.
pub open spec fn real_proof_prefix_error(bytes: Seq<u8>) -> Option<StormAirRealProofDecodeErrorV1> {
    if bytes.len() < 8 {
        Some(
            StormAirRealProofDecodeErrorV1::InvalidLength {
                field: "claim_len",
                expected: 8,
                actual: bytes.len() as usize,
            },
        )
    } else {
        let claim_len: int = le_value(bytes.subrange(0, 8)) as int;
        let rest = bytes.len() - 8;
        if rest < claim_len {
            Some(
                StormAirRealProofDecodeErrorV1::InvalidLength {
                    field: "claim",
                    expected: claim_len as usize,
                    actual: rest as usize,
                },
            )
        } else if storm_claim_decode_error(bytes.subrange(8, 8 + claim_len)) is Some {
            Some(
                StormAirRealProofDecodeErrorV1::ClaimDecode(
                    storm_claim_decode_error(bytes.subrange(8, 8 + claim_len))->0,
                ),
            )
        } else if rest - claim_len < 8 {
            Some(
                StormAirRealProofDecodeErrorV1::InvalidLength {
                    field: "witness_len",
                    expected: 8,
                    actual: (rest - claim_len) as usize,
                },
            )
        } else {
            let witness_len = le_value(bytes.subrange(8 + claim_len, 16 + claim_len));
            let rest_after = rest - claim_len - 8;
            if rest_after < witness_len {
                Some(
                    StormAirRealProofDecodeErrorV1::InvalidLength {
                        field: "witness",
                        expected: witness_len as usize,
                        actual: rest_after as usize,
                    },
                )
            } else {
                None
            }
        }
    }
}

/// The number of bytes after the framed claim and witness.
pub open spec fn real_proof_trailing_len(bytes: Seq<u8>) -> int {
    let claim_len: int = le_value(bytes.subrange(0, 8)) as int;
    let witness_len = le_value(bytes.subrange(8 + claim_len, 16 + claim_len));
    bytes.len() - 16 - claim_len - witness_len
}

/// The framed witness bytes, once the framing and the claim check out.
pub open spec fn real_proof_witness_slice(bytes: Seq<u8>) -> Seq<u8> {
    let claim_len: int = le_value(bytes.subrange(0, 8)) as int;
    let witness_len = le_value(bytes.subrange(8 + claim_len, 16 + claim_len)) as int;
    bytes.subrange(16 + claim_len, 16 + claim_len + witness_len)
}

/// Reads the eight bytes at `start` as a little-endian `u64`.
fn read_u64_at(bytes: &[u8], start: usize) -> (value: u64)
    requires
        start + 8 <= bytes@.len(),
    ensures
        value as nat == le_value(bytes@.subrange(start as int, start + 8)),
        u64_le(value) == bytes@.subrange(start as int, start + 8),
{
    let mut raw = [0u8; 8];
    copy_range_into(&mut raw, bytes, start);
    u64_from_le_bytes(&raw)
}

/// `bytes` are the proof bytes of the canonical claim `claim` and the
/// canonical witness `witness`.
pub open spec fn proof_encodes(claim: StormClaim521V1, witness: StormTraceWitnessV1, bytes: Seq<u8>) -> bool {
    &&& claim_canonical(claim)
    &&& witness_canonical(witness)
    &&& proof_bytes_spec(claim, witness) == bytes
}

/// What the decoder reads from the proof bytes of `claim` and `witness`.
pub open spec fn proof_bytes_layout(bytes: Seq<u8>, claim: StormClaim521V1, witness: StormTraceWitnessV1) -> bool {
    let witness_len = witness_bytes_spec(witness).len() as int;
    &&& bytes.len() == 815 + witness_len
    &&& le_value(bytes.subrange(0, 8)) == 799
    &&& bytes.subrange(8, 807) == storm_claim_bytes_spec(claim)
    &&& storm_claim_decode_error(bytes.subrange(8, 807)) is None
    &&& le_value(bytes.subrange(807, 815)) == witness_len
    &&& witness_encodes(witness, bytes.subrange(815, 815 + witness_len))
}

/// Where the claim and the witness stand in their proof bytes.
proof fn lemma_proof_bytes_layout(claim: StormClaim521V1, witness: StormTraceWitnessV1)
    requires
        claim_canonical(claim),
        witness_canonical(witness),
        proof_bytes_spec(claim, witness).len() <= usize::MAX,
    ensures
        proof_bytes_layout(proof_bytes_spec(claim, witness), claim, witness),
{
    let b = proof_bytes_spec(claim, witness);
    let w = witness_bytes_spec(witness);
    lemma_storm_claim_layout(claim);
    lemma_storm_claim_round_trip(claim);
    crate::encoding_v1::lemma_u64_le_value(799);
    crate::encoding_v1::lemma_u64_le_value(w.len() as u64);
    assert(b.subrange(0, 8) =~= u64_le(799));
    assert(b.subrange(8, 807) =~= storm_claim_bytes_spec(claim));
    assert(b.subrange(807, 815) =~= u64_le(w.len() as u64));
    assert(b.subrange(815, 815 + w.len() as int) =~= w);
}

/// Decodes proof bytes into the claim and the witness they frame; nothing may
/// be left over.
#[verifier::rlimit(40)]
pub fn decode_storm_real_proof_bytes_v1(proof_bytes: &[u8]) -> (result: Result<(StormClaim521V1, StormTraceWitnessV1), StormAirRealProofDecodeErrorV1>)
    ensures
        real_proof_prefix_error(proof_bytes@) is Some ==> result == Err::<
            (StormClaim521V1, StormTraceWitnessV1),
            StormAirRealProofDecodeErrorV1,
        >(real_proof_prefix_error(proof_bytes@)->0),
        result matches Ok((claim, witness)) ==> proof_bytes_spec(claim, witness) == proof_bytes@,
        real_proof_prefix_error(proof_bytes@) is None ==> (result matches Err(
            StormAirRealProofDecodeErrorV1::WitnessDecode(_),
        ) <==> !exists|w: StormTraceWitnessV1| #[trigger]
            witness_encodes(w, real_proof_witness_slice(proof_bytes@))),
        real_proof_prefix_error(proof_bytes@) is None && witness_decode_error(
            real_proof_witness_slice(proof_bytes@),
        ) is Some ==> result == Err::<
            (StormClaim521V1, StormTraceWitnessV1),
            StormAirRealProofDecodeErrorV1,
        >(
            StormAirRealProofDecodeErrorV1::WitnessDecode(
                witness_decode_error(real_proof_witness_slice(proof_bytes@))->0,
            ),
        ),
        real_proof_prefix_error(proof_bytes@) is None && (exists|w: StormTraceWitnessV1| #[trigger]
            witness_encodes(w, real_proof_witness_slice(proof_bytes@))) ==> (
        real_proof_trailing_len(proof_bytes@) == 0 ==> result is Ok) && (real_proof_trailing_len(
            proof_bytes@,
        ) > 0 ==> result == Err::<
            (StormClaim521V1, StormTraceWitnessV1),
            StormAirRealProofDecodeErrorV1,
        >(
            StormAirRealProofDecodeErrorV1::TrailingBytes {
                remaining: real_proof_trailing_len(proof_bytes@) as usize,
            },
        )),
        real_proof_prefix_error(proof_bytes@) is None ==> (witness_decode_error(
            real_proof_witness_slice(proof_bytes@),
        ) is None <==> exists|w: StormTraceWitnessV1| #[trigger]
            witness_encodes(w, real_proof_witness_slice(proof_bytes@))),
        result matches Ok((claim, witness)) ==> claim_canonical(claim) && witness_canonical(witness),
        forall|claim: StormClaim521V1, witness: StormTraceWitnessV1| #[trigger]
            proof_encodes(claim, witness, proof_bytes@) ==> (result matches Ok((c, w)) && c == claim
                && witness_same(w, witness)),
{
    let ghost decodable = exists|c: StormClaim521V1, w: StormTraceWitnessV1| #[trigger]
        proof_encodes(c, w, proof_bytes@);
    let ghost (target_claim, target_witness) = choose|c: StormClaim521V1, w: StormTraceWitnessV1| #[trigger]
        proof_encodes(c, w, proof_bytes@);
    let total = proof_bytes.len();
    proof {
        assert(decodable ==> proof_bytes_layout(proof_bytes@, target_claim, target_witness)) by {
            if decodable {
                lemma_proof_bytes_layout(target_claim, target_witness);
            }
        }
    }
    if total < 8 {
        return Err(
            StormAirRealProofDecodeErrorV1::InvalidLength {
                field: "claim_len",
                expected: 8,
                actual: total,
            },
        );
    }
    let claim_len64 = read_u64_at(proof_bytes, 0);
    let rest = total - 8;
    if (rest as u64) < claim_len64 {
        return Err(
            StormAirRealProofDecodeErrorV1::InvalidLength {
                field: "claim",
                expected: claim_len64 as usize,
                actual: rest,
            },
        );
    }
    let claim_len = claim_len64 as usize;
    let claim_bytes = copy_subrange(proof_bytes, 8, claim_len);
    let claim = match decode_storm_claim_canonical_bytes_v1(claim_bytes.as_slice()) {
        Ok(claim) => claim,
        Err(error) => {
            return Err(StormAirRealProofDecodeErrorV1::ClaimDecode(error));
        },
    };
    let after_claim = rest - claim_len;
    if after_claim < 8 {
        return Err(
            StormAirRealProofDecodeErrorV1::InvalidLength {
                field: "witness_len",
                expected: 8,
                actual: after_claim,
            },
        );
    }
    let witness_start = 16 + claim_len;
    let witness_len64 = read_u64_at(proof_bytes, 8 + claim_len);
    let rest_after = after_claim - 8;
    if (rest_after as u64) < witness_len64 {
        return Err(
            StormAirRealProofDecodeErrorV1::InvalidLength {
                field: "witness",
                expected: witness_len64 as usize,
                actual: rest_after,
            },
        );
    }
    let witness_len = witness_len64 as usize;
    let witness_bytes = copy_subrange(proof_bytes, witness_start, witness_len);
    proof {
        assert(witness_bytes@ == real_proof_witness_slice(proof_bytes@));
    }
    let decoded_witness = decode_storm_trace_witness_bytes_v1(witness_bytes.as_slice());
    let witness = match decoded_witness {
        Ok(witness) => witness,
        Err(error) => {
            return Err(StormAirRealProofDecodeErrorV1::WitnessDecode(error));
        },
    };
    let end = witness_start + witness_len;
    proof {
        assert(witness_bytes@ == real_proof_witness_slice(proof_bytes@));
        assert(witness_encodes(witness, real_proof_witness_slice(proof_bytes@)));
    }
    if end != total {
        return Err(StormAirRealProofDecodeErrorV1::TrailingBytes { remaining: total - end });
    }
    proof {
        let b = proof_bytes@;
        assert(b =~= b.subrange(0, 8) + b.subrange(8, 8 + claim_len as int) + b.subrange(
            8 + claim_len as int,
            witness_start as int,
        ) + b.subrange(witness_start as int, end as int));
        assert(storm_claim_bytes_spec(claim).len() == claim_len);
        assert(claim_len == 799);
        assert forall|c: StormClaim521V1, w: StormTraceWitnessV1| #[trigger]
            proof_encodes(c, w, proof_bytes@) implies claim == c && witness_same(witness, w) by {
            lemma_proof_bytes_layout(c, w);
            lemma_storm_claim_bytes_injective(claim, c);
            assert(witness_bytes@ == b.subrange(815, 815 + witness_bytes_spec(w).len() as int));
            assert(witness_encodes(w, witness_bytes@));
        }
    }
    Ok((claim, witness))
}

/// No two states of the execution a claim names are equal.
pub open spec fn storm_execution_states_distinct(claim: StormClaim521V1) -> bool {
    forall|i: nat, j: nat|
        i < j <= claim.iteration_count ==> #[trigger] storm_state_at(claim_inputs(claim), i)
            != #[trigger] storm_state_at(claim_inputs(claim), j)
}

/// A trace that follows the execution of a claim repeats no state exactly
/// when the execution repeats none.
pub proof fn lemma_trace_distinct_iff_execution_distinct(claim: StormClaim521V1, trace: Seq<StormState521V1>)
    requires
        storm_trace_matches(claim_inputs(claim), trace),
    ensures
        states_distinct_before(trace, trace.len() as int) <==> storm_execution_states_distinct(claim),
{
    let inputs = claim_inputs(claim);
    assert forall|i: int, j: int| 0 <= i < j < trace.len() implies same_state(trace[i], trace[j])
        <==> state_values(trace[i]) == state_values(trace[j]) by {
        if state_values(trace[i]) == state_values(trace[j]) {
            lemma_be_injective(trace[i].x@, trace[j].x@);
            lemma_be_injective(trace[i].y@, trace[j].y@);
        }
    }
    if states_distinct_before(trace, trace.len() as int) {
        assert forall|i: nat, j: nat| i < j <= claim.iteration_count implies #[trigger] storm_state_at(
            inputs,
            i,
        ) != #[trigger] storm_state_at(inputs, j) by {
            assert(state_values(trace[i as int]) == storm_state_at(inputs, i));
            assert(state_values(trace[j as int]) == storm_state_at(inputs, j));
            assert(!same_state(trace[i as int], trace[j as int]));
        }
    }
    if storm_execution_states_distinct(claim) {
        assert forall|i: int, j: int| 0 <= i < j < trace.len() implies !same_state(
            #[trigger] trace[i],
            #[trigger] trace[j],
        ) by {
            assert(state_values(trace[i]) == storm_state_at(inputs, i as nat));
            assert(state_values(trace[j]) == storm_state_at(inputs, j as nat));
        }
    }
}

/// Builds the witness of a claim, checks it, and wraps the proof bytes in an
/// artifact bound to the public inputs.
pub fn prove_storm_air_real_v1(claim: &StormClaim521V1, public_inputs: &StormAirPublicInputsV1) -> (result: Result<StormAirRealProofArtifactV1, StormAirRealProverErrorV1>)
    requires
        storm_claim_header_valid(*claim) ==> (claim.iteration_count as int) < usize::MAX,
    ensures
        !air_public_inputs_of(*claim, *public_inputs) ==> result == Err::<
            StormAirRealProofArtifactV1,
            StormAirRealProverErrorV1,
        >(StormAirRealProverErrorV1::PublicInputsMismatch { field: "public_inputs" }),
        air_public_inputs_of(*claim, *public_inputs) && !storm_claim_valid(*claim) ==> (result matches Err(
            StormAirRealProverErrorV1::WitnessConstructionFailed(
                StormAirValidationErrorV1::InvalidClaim(error),
            ),
        ) && storm_claim_error_of(*claim, error)),
        air_public_inputs_of(*claim, *public_inputs) && storm_claim_valid(*claim)
            && !storm_execution_states_distinct(*claim) ==> (result matches Err(
            StormAirRealProverErrorV1::WitnessValidationFailed(_),
        )),
        air_public_inputs_of(*claim, *public_inputs) && storm_claim_valid(*claim)
            && storm_execution_states_distinct(*claim) ==> (result matches Ok(artifact) && exists|
            witness: StormTraceWitnessV1,
        |
            storm_witness_valid_for(*claim, witness) && artifact_assembled(
                artifact,
                *public_inputs,
                (claim.iteration_count + 1) as u64,
                #[trigger] proof_bytes_spec(*claim, witness),
            )),
{
    let expected_public_inputs = build_storm_air_public_inputs_v1(claim);
    if !expected_public_inputs.same_as(public_inputs) {
        return Err(StormAirRealProverErrorV1::PublicInputsMismatch { field: "public_inputs" });
    }
    let witness = match build_storm_trace_witness_v1(claim) {
        Ok(witness) => witness,
        Err(error) => {
            return Err(StormAirRealProverErrorV1::WitnessConstructionFailed(error));
        },
    };
    proof {
        lemma_trace_distinct_iff_execution_distinct(*claim, witness.trace@);
    }
    match validate_trace_witness_against_claim(claim, &witness) {
        Ok(()) => {},
        Err(error) => {
            return Err(StormAirRealProverErrorV1::WitnessValidationFailed(error));
        },
    }
    let proof_bytes = canonical_storm_real_proof_bytes_v1(claim, &witness);
    let count = claim.trace_state_count();
    let artifact = assemble_storm_air_real_artifact_v1(public_inputs, count, proof_bytes);
    Ok(artifact)
}

/// Decodes proof bytes and rebuilds the artifact they stand for, bound to the
/// public inputs of the claim they carry. The artifact is not verified.
#[verifier::rlimit(60)]
pub fn decode_storm_air_real_artifact_v1(proof_bytes: Vec<u8>) -> (result: Result<(StormClaim521V1, StormAirRealProofArtifactV1), StormAirRealProofDecodeErrorV1>)
    ensures
        real_proof_prefix_error(proof_bytes@) is Some ==> result == Err::<
            (StormClaim521V1, StormAirRealProofArtifactV1),
            StormAirRealProofDecodeErrorV1,
        >(real_proof_prefix_error(proof_bytes@)->0),
        real_proof_prefix_error(proof_bytes@) is None && witness_decode_error(
            real_proof_witness_slice(proof_bytes@),
        ) is Some ==> result == Err::<
            (StormClaim521V1, StormAirRealProofArtifactV1),
            StormAirRealProofDecodeErrorV1,
        >(
            StormAirRealProofDecodeErrorV1::WitnessDecode(
                witness_decode_error(real_proof_witness_slice(proof_bytes@))->0,
            ),
        ),
        real_proof_prefix_error(proof_bytes@) is None && witness_decode_error(
            real_proof_witness_slice(proof_bytes@),
        ) is None && real_proof_trailing_len(proof_bytes@) > 0 ==> result == Err::<
            (StormClaim521V1, StormAirRealProofArtifactV1),
            StormAirRealProofDecodeErrorV1,
        >(
            StormAirRealProofDecodeErrorV1::TrailingBytes {
                remaining: real_proof_trailing_len(proof_bytes@) as usize,
            },
        ),
        result matches Ok((claim, artifact)) ==> claim.iteration_count < u64::MAX && (exists|
            witness: StormTraceWitnessV1,
        | #[trigger] proof_encodes(claim, witness, proof_bytes@)) && (exists|
            inputs: StormAirPublicInputsV1,
        |
            #[trigger] air_public_inputs_of(claim, inputs) && artifact_assembled(
                artifact,
                inputs,
                (claim.iteration_count + 1) as u64,
                proof_bytes@,
            )),
        forall|claim: StormClaim521V1, witness: StormTraceWitnessV1| #[trigger]
            proof_encodes(claim, witness, proof_bytes@) ==> (if claim.iteration_count < u64::MAX {
                result matches Ok((c, artifact)) && c == claim && exists|
                    inputs: StormAirPublicInputsV1,
                |
                    #[trigger] air_public_inputs_of(claim, inputs) && artifact_assembled(
                        artifact,
                        inputs,
                        (claim.iteration_count + 1) as u64,
                        proof_bytes@,
                    )
            } else {
                result == Err::<
                    (StormClaim521V1, StormAirRealProofArtifactV1),
                    StormAirRealProofDecodeErrorV1,
                >(StormAirRealProofDecodeErrorV1::InvalidTraceStateCount)
            }),
        result is Ok || result == Err::<
            (StormClaim521V1, StormAirRealProofArtifactV1),
            StormAirRealProofDecodeErrorV1,
        >(StormAirRealProofDecodeErrorV1::InvalidTraceStateCount) <==> exists|
            claim: StormClaim521V1,
            witness: StormTraceWitnessV1,
        | #[trigger] proof_encodes(claim, witness, proof_bytes@),
{
    let ghost bytes = proof_bytes@;
    let (claim, witness) = match decode_storm_real_proof_bytes_v1(proof_bytes.as_slice()) {
        Ok(decoded) => decoded,
        Err(error) => {
            proof {
                assert(!exists|c: StormClaim521V1, w: StormTraceWitnessV1| #[trigger]
                    proof_encodes(c, w, bytes));
            }
            return Err(error);
        },
    };
    proof {
        assert(proof_encodes(claim, witness, bytes));
    }
    let count = match claim.iteration_count.checked_add(1) {
        Some(count) => count,
        None => {
            return Err(StormAirRealProofDecodeErrorV1::InvalidTraceStateCount);
        },
    };
    let inputs = build_storm_air_public_inputs_v1(&claim);
    let artifact = assemble_storm_air_real_artifact_v1(&inputs, count, proof_bytes);
    proof {
        assert(proof_encodes(claim, witness, bytes));
        assert(air_public_inputs_of(claim, inputs));
    }
    Ok((claim, artifact))
}

/// The first mismatch of the artifact's shape against the public inputs, if
/// any: backend, version, trace length, width and constraint count.
pub open spec fn real_proof_shape_error(inputs: StormAirPublicInputsV1, artifact: StormAirRealProofArtifactV1) -> Option<StormAirRealVerifierErrorV1> {
    if artifact.backend_kind != STORM_AIR_REAL_PROOF_BACKEND_WITNESS_V1 {
        Some(
            StormAirRealVerifierErrorV1::UnsupportedBackendKind {
                expected: STORM_AIR_REAL_PROOF_BACKEND_WITNESS_V1,
                actual: artifact.backend_kind,
            },
        )
    } else if artifact.proof_version != STORM_AIR_REAL_PROOF_VERSION_V1 {
        Some(
            StormAirRealVerifierErrorV1::UnsupportedProofVersion {
                expected: STORM_AIR_REAL_PROOF_VERSION_V1,
                actual: artifact.proof_version,
            },
        )
    } else if inputs.iteration_count == u64::MAX {
        Some(StormAirRealVerifierErrorV1::UnsupportedTraceShape { reason: "iteration_count_overflow" })
    } else if artifact.trace_state_count != inputs.iteration_count + 1 {
        Some(StormAirRealVerifierErrorV1::UnsupportedTraceShape { reason: "trace_state_count_mismatch" })
    } else if artifact.internal_trace_length != inputs.iteration_count + 1 {
        Some(
            StormAirRealVerifierErrorV1::UnsupportedTraceShape {
                reason: "internal_trace_length_mismatch",
            },
        )
    } else if artifact.trace_width != STORM_AIR_REAL_PROOF_TRACE_WIDTH_V1 {
        Some(StormAirRealVerifierErrorV1::UnsupportedTraceShape { reason: "trace_width_mismatch" })
    } else if artifact.backend_constraint_count != STORM_AIR_REAL_PROOF_CONSTRAINT_COUNT_V1 {
        Some(
            StormAirRealVerifierErrorV1::UnsupportedTraceShape {
                reason: "backend_constraint_count_mismatch",
            },
        )
    } else {
        None
    }
}

/// The artifact's shape matches and its three digests are those of its
/// public inputs, its proof bytes and its binding.
pub open spec fn real_proof_header_ok(inputs: StormAirPublicInputsV1, artifact: StormAirRealProofArtifactV1) -> bool {
    &&& real_proof_shape_error(inputs, artifact) is None
    &&& artifact.public_input_digest@ == public_input_digest_spec(inputs)
    &&& artifact.proof_bytes_digest@ == proof_bytes_digest_spec(artifact.proof_bytes@)
    &&& artifact.proof_binding_digest@ == binding_digest_spec(artifact)
}

/// Checks that the public inputs are those of the claim, and that the
/// witness carries them too.
pub fn verify_storm_public_inputs_match_claim_v1(public_inputs: &StormAirPublicInputsV1, claim: &StormClaim521V1, witness: &StormTraceWitnessV1) -> (result: Result<(), StormAirRealVerifierErrorV1>)
    ensures
        !air_public_inputs_of(*claim, *public_inputs) ==> result == Err::<(), StormAirRealVerifierErrorV1>(
            StormAirRealVerifierErrorV1::PublicInputsMismatch { field: "public_inputs" },
        ),
        air_public_inputs_of(*claim, *public_inputs) && !air_public_inputs_of(
            *claim,
            witness.public_inputs,
        ) ==> result == Err::<(), StormAirRealVerifierErrorV1>(
            StormAirRealVerifierErrorV1::PublicInputsMismatch { field: "witness.public_inputs" },
        ),
        air_public_inputs_of(*claim, *public_inputs) && air_public_inputs_of(
            *claim,
            witness.public_inputs,
        ) ==> result is Ok,
{
    let expected_public_inputs = build_storm_air_public_inputs_v1(claim);
    if !public_inputs.same_as(&expected_public_inputs) {
        return Err(StormAirRealVerifierErrorV1::PublicInputsMismatch { field: "public_inputs" });
    }
    if !witness.public_inputs.same_as(&expected_public_inputs) {
        return Err(
            StormAirRealVerifierErrorV1::PublicInputsMismatch { field: "witness.public_inputs" },
        );
    }
    Ok(())
}

/// Whether a claim passes the checks `validate` makes before re-executing it.
fn storm_claim_header_is_valid(claim: &StormClaim521V1) -> (valid: bool)
    ensures
        valid == storm_claim_header_valid(*claim),
{
    claim.version == STORM_CLAIM_521_V1_VERSION && claim.modulus_id == STORM_MODULUS_ID_521_V1
        && validate_context_bytes_v1(&claim.context_bytes_v1).is_ok()
}

/// A claim that passes the checks before re-execution, but whose execution
/// has more states than memory can index.
pub open spec fn storm_claim_count_overflows(claim: StormClaim521V1) -> bool {
    storm_claim_header_valid(claim) && (claim.iteration_count as int) >= usize::MAX
}

/// Validates a decoded claim by re-execution, checks the public inputs
/// against it, and replays the witness.
fn check_decoded_storm_proof_v1(public_inputs: &StormAirPublicInputsV1, claim: &StormClaim521V1, witness: &StormTraceWitnessV1) -> (result: Result<(), StormAirRealVerifierErrorV1>)
    ensures
        storm_claim_count_overflows(*claim) ==> result == Err::<(), StormAirRealVerifierErrorV1>(
            StormAirRealVerifierErrorV1::UnsupportedTraceShape { reason: "iteration_count_overflow" },
        ),
        !storm_claim_count_overflows(*claim) ==> (result matches Err(
            StormAirRealVerifierErrorV1::ClaimValidationFailed(_),
        ) <==> !storm_claim_valid(*claim)),
        result matches Err(StormAirRealVerifierErrorV1::ClaimValidationFailed(error))
            ==> storm_claim_error_of(*claim, error),
        result matches Err(StormAirRealVerifierErrorV1::WitnessValidationFailed(_)) ==> storm_claim_valid(*claim)
            && air_public_inputs_of(*claim, *public_inputs) && air_public_inputs_of(
            *claim,
            witness.public_inputs,
        ) && !storm_witness_valid_for(*claim, *witness),
        result is Ok <==> storm_claim_valid(*claim) && air_public_inputs_of(*claim, *public_inputs)
            && storm_witness_valid_for(*claim, *witness),
        !storm_claim_count_overflows(*claim) && storm_claim_valid(*claim) && air_public_inputs_of(
            *claim,
            *public_inputs,
        ) && air_public_inputs_of(*claim, witness.public_inputs) && !storm_witness_valid_for(
            *claim,
            *witness,
        ) ==> (result matches Err(StormAirRealVerifierErrorV1::WitnessValidationFailed(_))),
        !storm_claim_count_overflows(*claim) && storm_claim_valid(*claim) && !air_public_inputs_of(*claim, *public_inputs) ==> result == Err::<(), StormAirRealVerifierErrorV1>(
            StormAirRealVerifierErrorV1::PublicInputsMismatch { field: "public_inputs" },
        ),
        !storm_claim_count_overflows(*claim) && storm_claim_valid(*claim) && air_public_inputs_of(*claim, *public_inputs) && !air_public_inputs_of(
            *claim,
            witness.public_inputs,
        ) ==> result == Err::<(), StormAirRealVerifierErrorV1>(
            StormAirRealVerifierErrorV1::PublicInputsMismatch { field: "witness.public_inputs" },
        ),
{
    if storm_claim_header_is_valid(claim) && claim.iteration_count as u128 >= usize::MAX as u128 {
        proof {
            assert(witness.trace@.len() == witness.trace.len());
        }
        return Err(
            StormAirRealVerifierErrorV1::UnsupportedTraceShape { reason: "iteration_count_overflow" },
        );
    }
    match claim.validate() {
        Ok(()) => {},
        Err(error) => {
            return Err(StormAirRealVerifierErrorV1::ClaimValidationFailed(error));
        },
    }
    match verify_storm_public_inputs_match_claim_v1(public_inputs, claim, witness) {
        Ok(()) => {},
        Err(error) => {
            return Err(error);
        },
    }
    match validate_trace_witness_against_claim(claim, witness) {
        Ok(()) => {},
        Err(error) => {
            return Err(StormAirRealVerifierErrorV1::WitnessValidationFailed(error));
        },
    }
    Ok(())
}

/// Validity does not tell apart witnesses that agree field by field.
proof fn lemma_valid_for_same_witness(claim: StormClaim521V1, w1: StormTraceWitnessV1, w2: StormTraceWitnessV1)
    requires
        witness_same(w1, w2),
        storm_witness_valid_for(claim, w1),
    ensures
        storm_witness_valid_for(claim, w2),
{
}

/// What the verifier accepts: the artifact's shape and digests match, and its
/// proof bytes carry a canonical claim and witness such that the claim is
/// valid, its public inputs are the given ones, and the witness is its
/// execution.
pub open spec fn storm_real_proof_accepted(inputs: StormAirPublicInputsV1, artifact: StormAirRealProofArtifactV1) -> bool {
    &&& real_proof_header_ok(inputs, artifact)
    &&& exists|claim: StormClaim521V1, witness: StormTraceWitnessV1|
        #[trigger] proof_encodes(claim, witness, artifact.proof_bytes@) && storm_claim_valid(claim)
            && air_public_inputs_of(claim, inputs) && storm_witness_valid_for(claim, witness)
}

/// Verifies a proof artifact against public inputs: its shape, its three
/// digests, then the claim and witness it carries, by re-execution.
pub fn verify_storm_air_real_v1(public_inputs: &StormAirPublicInputsV1, proof_artifact: &StormAirRealProofArtifactV1) -> (result: Result<StormAirRealVerifierAcceptanceV1, StormAirRealVerifierErrorV1>)
    ensures
        real_proof_shape_error(*public_inputs, *proof_artifact) is Some ==> result == Err::<
            StormAirRealVerifierAcceptanceV1,
            StormAirRealVerifierErrorV1,
        >(real_proof_shape_error(*public_inputs, *proof_artifact)->0),
        real_proof_shape_error(*public_inputs, *proof_artifact) is None
            && proof_artifact.public_input_digest@ != public_input_digest_spec(*public_inputs) ==> (
        result matches Err(
            StormAirRealVerifierErrorV1::PublicInputDigestMismatch { expected, actual },
        ) && expected@ == public_input_digest_spec(*public_inputs) && actual
            == proof_artifact.public_input_digest),
        real_proof_shape_error(*public_inputs, *proof_artifact) is None
            && proof_artifact.public_input_digest@ == public_input_digest_spec(*public_inputs)
            && proof_artifact.proof_bytes_digest@ != proof_bytes_digest_spec(
            proof_artifact.proof_bytes@,
        ) ==> (result matches Err(
            StormAirRealVerifierErrorV1::ProofBytesDigestMismatch { expected, actual },
        ) && expected@ == proof_bytes_digest_spec(proof_artifact.proof_bytes@) && actual
            == proof_artifact.proof_bytes_digest),
        real_proof_shape_error(*public_inputs, *proof_artifact) is None
            && proof_artifact.public_input_digest@ == public_input_digest_spec(*public_inputs)
            && proof_artifact.proof_bytes_digest@ == proof_bytes_digest_spec(
            proof_artifact.proof_bytes@,
        ) && proof_artifact.proof_binding_digest@ != binding_digest_spec(*proof_artifact) ==> (
        result matches Err(
            StormAirRealVerifierErrorV1::ProofBindingDigestMismatch { expected, actual },
        ) && expected@ == binding_digest_spec(*proof_artifact) && actual
            == proof_artifact.proof_binding_digest),
        real_proof_header_ok(*public_inputs, *proof_artifact) && real_proof_prefix_error(
            proof_artifact.proof_bytes@,
        ) is Some ==> result == Err::<StormAirRealVerifierAcceptanceV1, StormAirRealVerifierErrorV1>(
            StormAirRealVerifierErrorV1::ProofDecode(
                real_proof_prefix_error(proof_artifact.proof_bytes@)->0,
            ),
        ),
        real_proof_header_ok(*public_inputs, *proof_artifact) && (exists|
            claim: StormClaim521V1,
            witness: StormTraceWitnessV1,
        |
            #[trigger] proof_encodes(claim, witness, proof_artifact.proof_bytes@)
                && storm_claim_count_overflows(claim)) ==> result == Err::<
            StormAirRealVerifierAcceptanceV1,
            StormAirRealVerifierErrorV1,
        >(StormAirRealVerifierErrorV1::UnsupportedTraceShape { reason: "iteration_count_overflow" }),
        result matches Err(StormAirRealVerifierErrorV1::ClaimValidationFailed(error)) ==> real_proof_header_ok(
            *public_inputs,
            *proof_artifact,
        ) && exists|claim: StormClaim521V1, witness: StormTraceWitnessV1|
            #[trigger] proof_bytes_spec(claim, witness) == proof_artifact.proof_bytes@
                && !storm_claim_valid(claim) && storm_claim_error_of(claim, error),
        result matches Err(StormAirRealVerifierErrorV1::WitnessValidationFailed(_)) ==> real_proof_header_ok(
            *public_inputs,
            *proof_artifact,
        ) && exists|claim: StormClaim521V1, witness: StormTraceWitnessV1|
            #[trigger] proof_bytes_spec(claim, witness) == proof_artifact.proof_bytes@
                && storm_claim_valid(claim) && air_public_inputs_of(claim, *public_inputs)
                && air_public_inputs_of(claim, witness.public_inputs) && !storm_witness_valid_for(
                claim,
                witness,
            ),
        real_proof_header_ok(*public_inputs, *proof_artifact) && real_proof_prefix_error(
            proof_artifact.proof_bytes@,
        ) is None && witness_decode_error(real_proof_witness_slice(proof_artifact.proof_bytes@)) is Some
            ==> result == Err::<StormAirRealVerifierAcceptanceV1, StormAirRealVerifierErrorV1>(
            StormAirRealVerifierErrorV1::ProofDecode(
                StormAirRealProofDecodeErrorV1::WitnessDecode(
                    witness_decode_error(real_proof_witness_slice(proof_artifact.proof_bytes@))->0,
                ),
            ),
        ),
        real_proof_header_ok(*public_inputs, *proof_artifact) && real_proof_prefix_error(
            proof_artifact.proof_bytes@,
        ) is None && witness_decode_error(real_proof_witness_slice(proof_artifact.proof_bytes@)) is None
            && real_proof_trailing_len(proof_artifact.proof_bytes@) > 0 ==> result == Err::<
            StormAirRealVerifierAcceptanceV1,
            StormAirRealVerifierErrorV1,
        >(
            StormAirRealVerifierErrorV1::ProofDecode(
                StormAirRealProofDecodeErrorV1::TrailingBytes {
                    remaining: real_proof_trailing_len(proof_artifact.proof_bytes@) as usize,
                },
            ),
        ),
        forall|claim: StormClaim521V1, witness: StormTraceWitnessV1|
            #[trigger] proof_encodes(claim, witness, proof_artifact.proof_bytes@) && real_proof_header_ok(
                *public_inputs,
                *proof_artifact,
            ) && !storm_claim_count_overflows(claim) ==> {
                &&& (result matches Err(StormAirRealVerifierErrorV1::ClaimValidationFailed(_))
                    <==> !storm_claim_valid(claim))
                &&& storm_claim_valid(claim) && !air_public_inputs_of(claim, *public_inputs)
                    ==> result == Err::<StormAirRealVerifierAcceptanceV1, StormAirRealVerifierErrorV1>(
                    StormAirRealVerifierErrorV1::PublicInputsMismatch { field: "public_inputs" },
                )
                &&& storm_claim_valid(claim) && air_public_inputs_of(claim, *public_inputs)
                    && !air_public_inputs_of(claim, witness.public_inputs) ==> result == Err::<
                    StormAirRealVerifierAcceptanceV1,
                    StormAirRealVerifierErrorV1,
                >(StormAirRealVerifierErrorV1::PublicInputsMismatch { field: "witness.public_inputs" })
                &&& storm_claim_valid(claim) && air_public_inputs_of(claim, *public_inputs)
                    && air_public_inputs_of(claim, witness.public_inputs) && !storm_witness_valid_for(
                    claim,
                    witness,
                ) ==> (result matches Err(StormAirRealVerifierErrorV1::WitnessValidationFailed(_)))
            },
        result is Ok <==> storm_real_proof_accepted(*public_inputs, *proof_artifact),
        result matches Ok(acceptance) ==> {
            &&& real_proof_header_ok(*public_inputs, *proof_artifact)
            &&& exists|claim: StormClaim521V1, witness: StormTraceWitnessV1|
                #[trigger] proof_bytes_spec(claim, witness) == proof_artifact.proof_bytes@
                    && storm_claim_valid(claim) && air_public_inputs_of(claim, *public_inputs)
                    && storm_witness_valid_for(claim, witness)
            &&& acceptance.verified_public_input_digest == proof_artifact.public_input_digest
            &&& acceptance.verified_proof_bytes_digest == proof_artifact.proof_bytes_digest
            &&& acceptance.verified_proof_binding_digest == proof_artifact.proof_binding_digest
            &&& acceptance.verified_trace_state_count == proof_artifact.trace_state_count
        },
{
    if proof_artifact.backend_kind != STORM_AIR_REAL_PROOF_BACKEND_WITNESS_V1 {
        return Err(
            StormAirRealVerifierErrorV1::UnsupportedBackendKind {
                expected: STORM_AIR_REAL_PROOF_BACKEND_WITNESS_V1,
                actual: proof_artifact.backend_kind,
            },
        );
    }
    if proof_artifact.proof_version != STORM_AIR_REAL_PROOF_VERSION_V1 {
        return Err(
            StormAirRealVerifierErrorV1::UnsupportedProofVersion {
                expected: STORM_AIR_REAL_PROOF_VERSION_V1,
                actual: proof_artifact.proof_version,
            },
        );
    }
    let expected_trace_state_count = match public_inputs.iteration_count.checked_add(1) {
        Some(count) => count,
        None => {
            return Err(
                StormAirRealVerifierErrorV1::UnsupportedTraceShape {
                    reason: "iteration_count_overflow",
                },
            );
        },
    };
    if proof_artifact.trace_state_count != expected_trace_state_count {
        return Err(
            StormAirRealVerifierErrorV1::UnsupportedTraceShape {
                reason: "trace_state_count_mismatch",
            },
        );
    }
    if proof_artifact.internal_trace_length != expected_trace_state_count {
        return Err(
            StormAirRealVerifierErrorV1::UnsupportedTraceShape {
                reason: "internal_trace_length_mismatch",
            },
        );
    }
    if proof_artifact.trace_width != STORM_AIR_REAL_PROOF_TRACE_WIDTH_V1 {
        return Err(
            StormAirRealVerifierErrorV1::UnsupportedTraceShape { reason: "trace_width_mismatch" },
        );
    }
    if proof_artifact.backend_constraint_count != STORM_AIR_REAL_PROOF_CONSTRAINT_COUNT_V1 {
        return Err(
            StormAirRealVerifierErrorV1::UnsupportedTraceShape {
                reason: "backend_constraint_count_mismatch",
            },
        );
    }
    let expected_public_input_digest = derive_storm_air_real_public_input_digest_v1(public_inputs);
    if !bytes_equal(&proof_artifact.public_input_digest, &expected_public_input_digest) {
        return Err(
            StormAirRealVerifierErrorV1::PublicInputDigestMismatch {
                expected: expected_public_input_digest,
                actual: proof_artifact.public_input_digest,
            },
        );
    }
    let expected_proof_bytes_digest = derive_storm_air_real_proof_bytes_digest_v1(
        proof_artifact.proof_bytes.as_slice(),
    );
    if !bytes_equal(&proof_artifact.proof_bytes_digest, &expected_proof_bytes_digest) {
        return Err(
            StormAirRealVerifierErrorV1::ProofBytesDigestMismatch {
                expected: expected_proof_bytes_digest,
                actual: proof_artifact.proof_bytes_digest,
            },
        );
    }
    let expected_proof_binding_digest = derive_storm_air_real_proof_binding_digest_v1(proof_artifact);
    if !bytes_equal(&proof_artifact.proof_binding_digest, &expected_proof_binding_digest) {
        return Err(
            StormAirRealVerifierErrorV1::ProofBindingDigestMismatch {
                expected: expected_proof_binding_digest,
                actual: proof_artifact.proof_binding_digest,
            },
        );
    }
    let ghost accepted = storm_real_proof_accepted(*public_inputs, *proof_artifact);
    let ghost (good_claim, good_witness) = choose|c: StormClaim521V1, w: StormTraceWitnessV1|
        #[trigger] proof_encodes(c, w, proof_artifact.proof_bytes@) && storm_claim_valid(c)
            && air_public_inputs_of(c, *public_inputs) && storm_witness_valid_for(c, w);
    let (claim, witness) = match decode_storm_real_proof_bytes_v1(proof_artifact.proof_bytes.as_slice()) {
        Ok(decoded) => decoded,
        Err(error) => {
            proof {
                if accepted {
                    assert(proof_encodes(good_claim, good_witness, proof_artifact.proof_bytes@));
                }
            }
            return Err(StormAirRealVerifierErrorV1::ProofDecode(error));
        },
    };
    proof {
        assert forall|c: StormClaim521V1, w: StormTraceWitnessV1| #[trigger]
            proof_encodes(c, w, proof_artifact.proof_bytes@) implies c == claim && witness_same(
            witness,
            w,
        ) && (storm_witness_valid_for(c, w) <==> storm_witness_valid_for(claim, witness)) by {
            if storm_witness_valid_for(claim, witness) {
                lemma_valid_for_same_witness(claim, witness, w);
            }
            if storm_witness_valid_for(c, w) {
                lemma_valid_for_same_witness(claim, w, witness);
            }
        }
    }
    match check_decoded_storm_proof_v1(public_inputs, &claim, &witness) {
        Ok(()) => {},
        Err(error) => {
            proof {
                if accepted {
                    assert(proof_encodes(good_claim, good_witness, proof_artifact.proof_bytes@));
                    assert(claim == good_claim && witness_same(witness, good_witness));
                    lemma_valid_for_same_witness(claim, good_witness, witness);
                }
            }
            return Err(error);
        },
    }
    proof {
        assert(proof_encodes(claim, witness, proof_artifact.proof_bytes@));
    }
    Ok(
        StormAirRealVerifierAcceptanceV1 {
            verified_public_input_digest: proof_artifact.public_input_digest,
            verified_proof_bytes_digest: proof_artifact.proof_bytes_digest,
            verified_proof_binding_digest: proof_artifact.proof_binding_digest,
            verified_trace_state_count: proof_artifact.trace_state_count,
        },
    )
}

/// What the prover returns for a claim the verifier accepts against the same
/// public inputs: an artifact assembled over the proof bytes of a valid claim
/// and a witness the validator accepts for it passes every check, and the
/// verifier may be called on it.
pub proof fn lemma_storm_prove_then_verify(claim: StormClaim521V1, public_inputs: StormAirPublicInputsV1, witness: StormTraceWitnessV1, artifact: StormAirRealProofArtifactV1)
    requires
        storm_witness_valid_for(claim, witness),
        air_public_inputs_of(claim, public_inputs),
        artifact_assembled(
            artifact,
            public_inputs,
            (claim.iteration_count + 1) as u64,
            proof_bytes_spec(claim, witness),
        ),
        artifact.proof_bytes@.len() <= usize::MAX,
    ensures
        storm_real_proof_accepted(public_inputs, artifact),
{
    let bytes = artifact.proof_bytes@;
    assert(witness.trace@.len() == witness.trace.len());
    lemma_valid_witness_canonical(claim, witness);
    assert(proof_encodes(claim, witness, bytes));
}


/// The three digests of an artifact are SHA-256 of their own ASCII separator
/// followed by what they cover: `"AURA_STORM_AIR_REAL_PUBLIC_INPUT_DIGEST_V1"` before the
/// public-input encoding, `"AURA_STORM_AIR_REAL_PROOF_BYTES_V1"` before the proof bytes, and
/// `"AURA_STORM_AIR_REAL_PROOF_BINDING_V1"` before the binding bytes. The binding bytes are
/// the backend kind (four little-endian bytes), the proof version, the
/// public-input digest, the trace-state count and internal trace length
/// (eight each), the trace width and constraint count (two each), and the
/// proof-bytes digest, in that order.
pub proof fn lemma_storm_real_proof_digest_preimages(inputs: StormAirPublicInputsV1, proof_bytes: Seq<u8>, artifact: StormAirRealProofArtifactV1)
    ensures
        public_input_digest_spec(inputs) == crate::digest_v1::sha256_spec(seq![0x41u8, 0x55, 0x52, 0x41, 0x5f, 0x53, 0x54, 0x4f, 0x52, 0x4d, 0x5f, 0x41, 0x49, 0x52, 0x5f, 0x52, 0x45, 0x41, 0x4c, 0x5f, 0x50, 0x55, 0x42, 0x4c, 0x49, 0x43, 0x5f, 0x49, 0x4e, 0x50, 0x55, 0x54, 0x5f, 0x44, 0x49, 0x47, 0x45, 0x53, 0x54, 0x5f, 0x56, 0x31] + air_public_inputs_bytes_spec(inputs)),
        proof_bytes_digest_spec(proof_bytes) == crate::digest_v1::sha256_spec(seq![0x41u8, 0x55, 0x52, 0x41, 0x5f, 0x53, 0x54, 0x4f, 0x52, 0x4d, 0x5f, 0x41, 0x49, 0x52, 0x5f, 0x52, 0x45, 0x41, 0x4c, 0x5f, 0x50, 0x52, 0x4f, 0x4f, 0x46, 0x5f, 0x42, 0x59, 0x54, 0x45, 0x53, 0x5f, 0x56, 0x31] + proof_bytes),
        binding_digest_spec(artifact) == crate::digest_v1::sha256_spec(
            seq![0x41u8, 0x55, 0x52, 0x41, 0x5f, 0x53, 0x54, 0x4f, 0x52, 0x4d, 0x5f, 0x41, 0x49, 0x52, 0x5f, 0x52, 0x45, 0x41, 0x4c, 0x5f, 0x50, 0x52, 0x4f, 0x4f, 0x46, 0x5f, 0x42, 0x49, 0x4e, 0x44, 0x49, 0x4e, 0x47, 0x5f, 0x56, 0x31] + le_bytes(artifact.backend_kind as nat, 4) + seq![artifact.proof_version]
                + artifact.public_input_digest@ + u64_le(artifact.trace_state_count) + u64_le(
                artifact.internal_trace_length,
            ) + le_bytes(artifact.trace_width as nat, 2) + le_bytes(
                artifact.backend_constraint_count as nat,
                2,
            ) + artifact.proof_bytes_digest@,
        ),
{
    assert(AURA_STORM_AIR_REAL_PUBLIC_INPUT_DIGEST_V1_DOMAIN_SEPARATOR@ =~= seq![0x41u8, 0x55, 0x52, 0x41, 0x5f, 0x53, 0x54, 0x4f, 0x52, 0x4d, 0x5f, 0x41, 0x49, 0x52, 0x5f, 0x52, 0x45, 0x41, 0x4c, 0x5f, 0x50, 0x55, 0x42, 0x4c, 0x49, 0x43, 0x5f, 0x49, 0x4e, 0x50, 0x55, 0x54, 0x5f, 0x44, 0x49, 0x47, 0x45, 0x53, 0x54, 0x5f, 0x56, 0x31]);
    assert(AURA_STORM_AIR_REAL_PROOF_BYTES_V1_DOMAIN_SEPARATOR@ =~= seq![0x41u8, 0x55, 0x52, 0x41, 0x5f, 0x53, 0x54, 0x4f, 0x52, 0x4d, 0x5f, 0x41, 0x49, 0x52, 0x5f, 0x52, 0x45, 0x41, 0x4c, 0x5f, 0x50, 0x52, 0x4f, 0x4f, 0x46, 0x5f, 0x42, 0x59, 0x54, 0x45, 0x53, 0x5f, 0x56, 0x31]);
    assert(AURA_STORM_AIR_REAL_PROOF_BINDING_V1_DOMAIN_SEPARATOR@ =~= seq![0x41u8, 0x55, 0x52, 0x41, 0x5f, 0x53, 0x54, 0x4f, 0x52, 0x4d, 0x5f, 0x41, 0x49, 0x52, 0x5f, 0x52, 0x45, 0x41, 0x4c, 0x5f, 0x50, 0x52, 0x4f, 0x4f, 0x46, 0x5f, 0x42, 0x49, 0x4e, 0x44, 0x49, 0x4e, 0x47, 0x5f, 0x56, 0x31]);
    assert(seq![0x41u8, 0x55, 0x52, 0x41, 0x5f, 0x53, 0x54, 0x4f, 0x52, 0x4d, 0x5f, 0x41, 0x49, 0x52, 0x5f, 0x52, 0x45, 0x41, 0x4c, 0x5f, 0x50, 0x52, 0x4f, 0x4f, 0x46, 0x5f, 0x42, 0x49, 0x4e, 0x44, 0x49, 0x4e, 0x47, 0x5f, 0x56, 0x31] + binding_bytes_spec(artifact) =~= seq![0x41u8, 0x55, 0x52, 0x41, 0x5f, 0x53, 0x54, 0x4f, 0x52, 0x4d, 0x5f, 0x41, 0x49, 0x52, 0x5f, 0x52, 0x45, 0x41, 0x4c, 0x5f, 0x50, 0x52, 0x4f, 0x4f, 0x46, 0x5f, 0x42, 0x49, 0x4e, 0x44, 0x49, 0x4e, 0x47, 0x5f, 0x56, 0x31] + le_bytes(artifact.backend_kind as nat, 4)
        + seq![artifact.proof_version] + artifact.public_input_digest@ + u64_le(
        artifact.trace_state_count,
    ) + u64_le(artifact.internal_trace_length) + le_bytes(artifact.trace_width as nat, 2)
        + le_bytes(artifact.backend_constraint_count as nat, 2) + artifact.proof_bytes_digest@);
}

} // verus!
