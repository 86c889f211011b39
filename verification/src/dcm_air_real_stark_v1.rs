//! The artifact of the cat-map STARK proved by the Winterfell backend: its
//! shape, its internal trace length, and the digests that bind the proof
//! bytes to the public inputs; and the checks a verifier makes of them before
//! handing the proof bytes to the backend.

use crate::dcm_air_v1::DcmAirPublicInputsV1;
use crate::dcm_air_v1::DcmAirErrorV1;
use crate::digest_v1::{sha256_domain_separated, sha256_domain_separated_spec};
use crate::encoding_v1::{append_bytes, le_bytes, u64_le, u64_to_le_bytes, u64_to_le_vec};
use crate::field_521_v1::bytes_equal;
use crate::stark_transcript_v1::{
    derive_dcm_air_stark_public_input_digest_v1, transcript_public_input_digest_spec,
};
use vstd::arithmetic::power2::pow2;
use vstd::prelude::*;

verus! {

pub const DCM_AIR_REAL_STARK_PROOF_VERSION_V1: u8 = 1;

pub const DCM_AIR_REAL_STARK_BACKEND_WINTERFELL_V1: u32 = 1;

/// `"AURA_DCM_AIR_REAL_STARK_PROOF_BYTES_V1"`.
pub const AURA_DCM_AIR_REAL_STARK_PROOF_BYTES_DOMAIN_SEPARATOR: [u8; 38] = [0x41, 0x55, 0x52, 0x41, 0x5f, 0x44, 0x43, 0x4d, 0x5f, 0x41, 0x49, 0x52, 0x5f, 0x52, 0x45, 0x41, 0x4c, 0x5f, 0x53, 0x54, 0x41, 0x52, 0x4b, 0x5f, 0x50, 0x52, 0x4f, 0x4f, 0x46, 0x5f, 0x42, 0x59, 0x54, 0x45, 0x53, 0x5f, 0x56, 0x31];

/// `"AURA_DCM_AIR_REAL_STARK_PROOF_BINDING_V1"`.
pub const AURA_DCM_AIR_REAL_STARK_PROOF_BINDING_DOMAIN_SEPARATOR: [u8; 40] = [0x41, 0x55, 0x52, 0x41, 0x5f, 0x44, 0x43, 0x4d, 0x5f, 0x41, 0x49, 0x52, 0x5f, 0x52, 0x45, 0x41, 0x4c, 0x5f, 0x53, 0x54, 0x41, 0x52, 0x4b, 0x5f, 0x50, 0x52, 0x4f, 0x4f, 0x46, 0x5f, 0x42, 0x49, 0x4e, 0x44, 0x49, 0x4e, 0x47, 0x5f, 0x56, 0x31];

pub const DCM_AIR_REAL_STARK_MIN_TRACE_LENGTH_V1: usize = 8;

/// Two coordinates of 75 digits, the activity flag, two quotients, two
/// inverses, two sets of 18 carries and two commitment columns.
pub const DCM_AIR_REAL_STARK_TRACE_WIDTH_V1: usize = 193;

pub const DCM_AIR_REAL_STARK_BACKEND_CONSTRAINT_COUNT_V1: usize = 234;

#[verifier::external_type_specification]
#[verifier::external_body]
pub struct ExWinterfellProverError(winterfell::ProverError);

/// The artifact of a Winterfell proof of the cat-map AIR.
#[derive(Clone, Debug, PartialEq, Eq)]
pub struct DcmAirRealStarkProofArtifactV1 {
    pub backend_kind: u32,
    pub proof_version: u8,
    pub public_input_digest: [u8; 32],
    pub trace_state_count: u64,
    pub internal_trace_length: u64,
    pub trace_width: u16,
    pub backend_constraint_count: u16,
    pub proof_bytes: Vec<u8>,
    pub proof_bytes_digest: [u8; 32],
    pub proof_binding_digest: [u8; 32],
}

/// Why no Winterfell proof is produced.
#[derive(Debug)]
pub enum DcmAirRealStarkProverErrorV1 {
    AirEvaluationRequired(DcmAirErrorV1),
    UnsupportedTraceLength { actual: u64 },
    InvalidTransitionWitness { row_index: u64, relation: &'static str },
    WinterfellProver(winterfell::ProverError),
}

/// What an accepted Winterfell artifact establishes.
#[derive(Clone, Copy, Debug, PartialEq, Eq)]
pub struct DcmAirRealStarkVerifierAcceptanceV1 {
    pub verified_public_input_digest: [u8; 32],
    pub verified_proof_bytes_digest: [u8; 32],
    pub verified_proof_binding_digest: [u8; 32],
    pub verified_internal_trace_length: u64,
}

/// Why a Winterfell artifact is rejected.
#[allow(inconsistent_fields)]
#[derive(Debug, PartialEq, Eq)]
pub enum DcmAirRealStarkVerifierErrorV1 {
    UnsupportedBackendKind { expected: u32, actual: u32 },
    UnsupportedProofVersion { expected: u8, actual: u8 },
    UnsupportedTraceShape { reason: &'static str },
    PublicInputDigestMismatch { expected: [u8; 32], actual: [u8; 32] },
    ProofBytesDigestMismatch { expected: [u8; 32], actual: [u8; 32] },
    ProofBindingDigestMismatch { expected: [u8; 32], actual: [u8; 32] },
    ProofDecode(String),
    WinterfellVerifier(String),
}

/// `p` is the least power of two at or above `n`.
pub open spec fn power_of_two_ceiling(p: nat, n: nat) -> bool {
    exists|k: nat| #[trigger] pow2(k) == p && n <= p && (k == 0 || pow2((k - 1) as nat) < n)
}

/// The row count, at least one.
pub open spec fn active_rows_spec(count: nat) -> nat {
    if count == 0 {
        1
    } else {
        count
    }
}

/// The internal trace length for `count` rows: the least power of two at or
/// above the row count (at least one), and never below the minimum.
pub open spec fn internal_trace_length_spec(count: nat, length: nat) -> bool {
    exists|p: nat|
        #[trigger] power_of_two_ceiling(p, active_rows_spec(count)) && length == (if p < 8 {
            8
        } else {
            p
        })
}

/// The internal trace length of `trace_state_count` rows: the row count, at
/// least one, rounded up to a power of two and to the minimum length. A count
/// beyond `usize` is refused.
pub fn derive_real_stark_internal_trace_length_v1(trace_state_count: u64) -> (result: Result<usize, DcmAirRealStarkProverErrorV1>)
    requires
        (trace_state_count as int) > usize::MAX || (trace_state_count as int) <= (usize::MAX
            as int + 1) / 2,
    ensures
        (trace_state_count as int) > usize::MAX ==> (result matches Err(
            DcmAirRealStarkProverErrorV1::UnsupportedTraceLength { actual },
        ) && actual == trace_state_count),
        (trace_state_count as int) <= usize::MAX ==> (result matches Ok(length)
            && internal_trace_length_spec(trace_state_count as nat, length as nat)),
{
    if trace_state_count as u128 > usize::MAX as u128 {
        return Err(DcmAirRealStarkProverErrorV1::UnsupportedTraceLength { actual: trace_state_count });
    }
    let active_rows = trace_state_count as usize;
    let target: usize = if active_rows == 0 {
        1
    } else {
        active_rows
    };
    let mut power: usize = 1;
    let ghost mut exponent: nat = 0;
    proof {
        vstd::arithmetic::power2::lemma2_to64();
    }
    while power < target
        invariant
            1 <= target <= (usize::MAX as int + 1) / 2,
            power == pow2(exponent),
            power >= 1,
            exponent == 0 || pow2((exponent - 1) as nat) < target,
        decreases usize::MAX - power,
    {
        proof {
            vstd::arithmetic::power2::lemma_pow2_unfold(exponent + 1);
        }
        power = power * 2;
        proof {
            exponent = exponent + 1;
        }
    }
    let length = if power < DCM_AIR_REAL_STARK_MIN_TRACE_LENGTH_V1 {
        DCM_AIR_REAL_STARK_MIN_TRACE_LENGTH_V1
    } else {
        power
    };
    proof {
        assert(pow2(exponent) == power as nat);
        assert(power_of_two_ceiling(power as nat, target as nat));
        assert(active_rows_spec(trace_state_count as nat) == target as nat);
        assert(internal_trace_length_spec(trace_state_count as nat, length as nat));
    }
    Ok(length)
}

/// The digest of Winterfell proof bytes.
pub open spec fn real_stark_proof_bytes_digest_spec(proof_bytes: Seq<u8>) -> Seq<u8> {
    sha256_domain_separated_spec(AURA_DCM_AIR_REAL_STARK_PROOF_BYTES_DOMAIN_SEPARATOR@, proof_bytes)
}

/// The bytes the binding digest covers.
pub open spec fn real_stark_binding_bytes_spec(artifact: DcmAirRealStarkProofArtifactV1) -> Seq<u8> {
    le_bytes(artifact.backend_kind as nat, 4) + seq![artifact.proof_version]
        + artifact.public_input_digest@ + u64_le(artifact.trace_state_count) + u64_le(
        artifact.internal_trace_length,
    ) + le_bytes(artifact.trace_width as nat, 2) + le_bytes(
        artifact.backend_constraint_count as nat,
        2,
    ) + artifact.proof_bytes_digest@
}

/// The binding digest of an artifact.
pub open spec fn real_stark_binding_digest_spec(artifact: DcmAirRealStarkProofArtifactV1) -> Seq<u8> {
    sha256_domain_separated_spec(
        AURA_DCM_AIR_REAL_STARK_PROOF_BINDING_DOMAIN_SEPARATOR@,
        real_stark_binding_bytes_spec(artifact),
    )
}

/// The digest of Winterfell proof bytes.
pub fn derive_dcm_air_real_stark_proof_bytes_digest_v1(proof_bytes: &[u8]) -> (digest: [u8; 32])
    ensures
        digest@ == real_stark_proof_bytes_digest_spec(proof_bytes@),
{
    let domain = AURA_DCM_AIR_REAL_STARK_PROOF_BYTES_DOMAIN_SEPARATOR;
    sha256_domain_separated(&domain, proof_bytes)
}

fn canonical_real_stark_proof_binding_bytes_v1(proof_artifact: &DcmAirRealStarkProofArtifactV1) -> (bytes: Vec<u8>)
    ensures
        bytes@ == real_stark_binding_bytes_spec(*proof_artifact),
{
    let mut bytes = u64_to_le_vec(proof_artifact.backend_kind as u64, 4);
    bytes.push(proof_artifact.proof_version);
    append_bytes(&mut bytes, &proof_artifact.public_input_digest);
    let count = u64_to_le_bytes(proof_artifact.trace_state_count);
    append_bytes(&mut bytes, &count);
    let internal = u64_to_le_bytes(proof_artifact.internal_trace_length);
    append_bytes(&mut bytes, &internal);
    let width = u64_to_le_vec(proof_artifact.trace_width as u64, 2);
    append_bytes(&mut bytes, width.as_slice());
    let constraints = u64_to_le_vec(proof_artifact.backend_constraint_count as u64, 2);
    append_bytes(&mut bytes, constraints.as_slice());
    append_bytes(&mut bytes, &proof_artifact.proof_bytes_digest);
    proof {
        assert(bytes@ =~= real_stark_binding_bytes_spec(*proof_artifact));
    }
    bytes
}

/// The binding digest of an artifact.
pub fn derive_dcm_air_real_stark_proof_binding_digest_v1(proof_artifact: &DcmAirRealStarkProofArtifactV1) -> (digest: [u8; 32])
    ensures
        digest@ == real_stark_binding_digest_spec(*proof_artifact),
{
    let domain = AURA_DCM_AIR_REAL_STARK_PROOF_BINDING_DOMAIN_SEPARATOR;
    let bytes = canonical_real_stark_proof_binding_bytes_v1(proof_artifact);
    sha256_domain_separated(&domain, bytes.as_slice())
}

/// An artifact wrapping the given proof bytes, bound to the public inputs,
/// with the given row count and internal trace length.
pub open spec fn real_stark_artifact_assembled(artifact: DcmAirRealStarkProofArtifactV1, inputs: DcmAirPublicInputsV1, trace_state_count: u64, internal_trace_length: u64, proof_bytes: Seq<u8>) -> bool {
    &&& artifact.backend_kind == DCM_AIR_REAL_STARK_BACKEND_WINTERFELL_V1
    &&& artifact.proof_version == DCM_AIR_REAL_STARK_PROOF_VERSION_V1
    &&& artifact.public_input_digest@ == transcript_public_input_digest_spec(inputs)
    &&& artifact.trace_state_count == trace_state_count
    &&& artifact.internal_trace_length == internal_trace_length
    &&& artifact.trace_width == DCM_AIR_REAL_STARK_TRACE_WIDTH_V1
    &&& artifact.backend_constraint_count == DCM_AIR_REAL_STARK_BACKEND_CONSTRAINT_COUNT_V1
    &&& artifact.proof_bytes@ == proof_bytes
    &&& artifact.proof_bytes_digest@ == real_stark_proof_bytes_digest_spec(proof_bytes)
    &&& artifact.proof_binding_digest@ == real_stark_binding_digest_spec(artifact)
}

/// Wraps Winterfell proof bytes in an artifact bound to the public inputs.
pub fn assemble_dcm_air_real_stark_artifact_v1(public_inputs: &DcmAirPublicInputsV1, trace_state_count: u64, internal_trace_length: u64, proof_bytes: Vec<u8>) -> (artifact: DcmAirRealStarkProofArtifactV1)
    ensures
        real_stark_artifact_assembled(
            artifact,
            *public_inputs,
            trace_state_count,
            internal_trace_length,
            proof_bytes@,
        ),
{
    let proof_bytes_digest = derive_dcm_air_real_stark_proof_bytes_digest_v1(proof_bytes.as_slice());
    let mut artifact = DcmAirRealStarkProofArtifactV1 {
        backend_kind: DCM_AIR_REAL_STARK_BACKEND_WINTERFELL_V1,
        proof_version: DCM_AIR_REAL_STARK_PROOF_VERSION_V1,
        public_input_digest: derive_dcm_air_stark_public_input_digest_v1(public_inputs),
        trace_state_count,
        internal_trace_length,
        trace_width: 193,
        backend_constraint_count: 234,
        proof_bytes,
        proof_bytes_digest,
        proof_binding_digest: [0u8; 32],
    };
    let binding = derive_dcm_air_real_stark_proof_binding_digest_v1(&artifact);
    let ghost unbound = artifact;
    artifact.proof_binding_digest = binding;
    proof {
        assert(real_stark_binding_bytes_spec(artifact) =~= real_stark_binding_bytes_spec(unbound));
    }
    artifact
}

/// The first check of an artifact's shape that fails, if any.
pub open spec fn real_stark_shape_error(inputs: DcmAirPublicInputsV1, artifact: DcmAirRealStarkProofArtifactV1) -> Option<DcmAirRealStarkVerifierErrorV1> {
    let rows = inputs.iteration_count + 1;
    if artifact.backend_kind != DCM_AIR_REAL_STARK_BACKEND_WINTERFELL_V1 {
        Some(
            DcmAirRealStarkVerifierErrorV1::UnsupportedBackendKind {
                expected: DCM_AIR_REAL_STARK_BACKEND_WINTERFELL_V1,
                actual: artifact.backend_kind,
            },
        )
    } else if artifact.proof_version != DCM_AIR_REAL_STARK_PROOF_VERSION_V1 {
        Some(
            DcmAirRealStarkVerifierErrorV1::UnsupportedProofVersion {
                expected: DCM_AIR_REAL_STARK_PROOF_VERSION_V1,
                actual: artifact.proof_version,
            },
        )
    } else if inputs.iteration_count == u64::MAX {
        Some(DcmAirRealStarkVerifierErrorV1::UnsupportedTraceShape { reason: "iteration_count_overflow" })
    } else if artifact.trace_state_count != rows {
        Some(
            DcmAirRealStarkVerifierErrorV1::UnsupportedTraceShape {
                reason: "trace_state_count_mismatch",
            },
        )
    } else if rows > usize::MAX {
        Some(
            DcmAirRealStarkVerifierErrorV1::UnsupportedTraceShape {
                reason: "internal_trace_length_derivation_failed",
            },
        )
    } else if !internal_trace_length_spec(rows as nat, artifact.internal_trace_length as nat) {
        Some(
            DcmAirRealStarkVerifierErrorV1::UnsupportedTraceShape {
                reason: "internal_trace_length_mismatch",
            },
        )
    } else if artifact.trace_width != DCM_AIR_REAL_STARK_TRACE_WIDTH_V1 {
        Some(DcmAirRealStarkVerifierErrorV1::UnsupportedTraceShape { reason: "trace_width_mismatch" })
    } else if artifact.backend_constraint_count != DCM_AIR_REAL_STARK_BACKEND_CONSTRAINT_COUNT_V1 {
        Some(
            DcmAirRealStarkVerifierErrorV1::UnsupportedTraceShape {
                reason: "transition_constraint_count_mismatch",
            },
        )
    } else {
        None
    }
}

/// The internal trace length of a row count is unique.
proof fn lemma_internal_trace_length_unique(count: nat, a: nat, b: nat)
    requires
        internal_trace_length_spec(count, a),
        internal_trace_length_spec(count, b),
    ensures
        a == b,
{
    let n = active_rows_spec(count);
    let p = choose|p: nat| #[trigger] power_of_two_ceiling(p, n) && a == (if p < 8 {
        8
    } else {
        p
    });
    let r = choose|r: nat| #[trigger] power_of_two_ceiling(r, n) && b == (if r < 8 {
        8
    } else {
        r
    });
    let k = choose|k: nat| #[trigger] pow2(k) == p && n <= p && (k == 0 || pow2((k - 1) as nat) < n);
    let j = choose|j: nat| #[trigger] pow2(j) == r && n <= r && (j == 0 || pow2((j - 1) as nat) < n);
    if k < j {
        vstd::arithmetic::power2::lemma_pow2_strictly_increases(k, (j - 1) as nat);
        if k < (j - 1) as nat {
        } else {
        }
    } else if j < k {
        vstd::arithmetic::power2::lemma_pow2_strictly_increases(j, (k - 1) as nat);
    }
    if k < j && k < (j - 1) as nat {
        vstd::arithmetic::power2::lemma_pow2_strictly_increases(k, (j - 1) as nat);
    }
}

/// The inputs on which rounding the row count up to a power of two would
/// overflow `usize` once the earlier shape checks have passed.
pub open spec fn real_stark_length_overflows(inputs: DcmAirPublicInputsV1, artifact: DcmAirRealStarkProofArtifactV1) -> bool {
    &&& artifact.backend_kind == DCM_AIR_REAL_STARK_BACKEND_WINTERFELL_V1
    &&& artifact.proof_version == DCM_AIR_REAL_STARK_PROOF_VERSION_V1
    &&& inputs.iteration_count < u64::MAX
    &&& artifact.trace_state_count == inputs.iteration_count + 1
    &&& inputs.iteration_count + 1 <= usize::MAX
    &&& inputs.iteration_count + 1 > (usize::MAX as int + 1) / 2
}

/// The artifact's shape is that of the public inputs and its three digests
/// are those of the public inputs, its proof bytes and its binding.
pub open spec fn real_stark_artifact_accepted(inputs: DcmAirPublicInputsV1, artifact: DcmAirRealStarkProofArtifactV1) -> bool {
    &&& real_stark_shape_error(inputs, artifact) is None
    &&& artifact.public_input_digest@ == transcript_public_input_digest_spec(inputs)
    &&& artifact.proof_bytes_digest@ == real_stark_proof_bytes_digest_spec(artifact.proof_bytes@)
    &&& artifact.proof_binding_digest@ == real_stark_binding_digest_spec(artifact)
}

/// An artifact assembled over the row count of the public inputs and its
/// internal trace length passes every check made before the backend: what
/// the prover wraps, the checks accept.
pub proof fn lemma_assembled_real_stark_artifact_accepted(inputs: DcmAirPublicInputsV1, internal_trace_length: u64, proof_bytes: Seq<u8>, artifact: DcmAirRealStarkProofArtifactV1)
    requires
        inputs.iteration_count < u64::MAX,
        inputs.iteration_count + 1 <= usize::MAX,
        internal_trace_length_spec((inputs.iteration_count + 1) as nat, internal_trace_length as nat),
        real_stark_artifact_assembled(
            artifact,
            inputs,
            (inputs.iteration_count + 1) as u64,
            internal_trace_length,
            proof_bytes,
        ),
    ensures
        real_stark_artifact_accepted(inputs, artifact),
{
}

/// Checks an artifact's shape and its three digests against the public
/// inputs, before the proof bytes go to the backend.
pub fn check_dcm_air_real_stark_artifact_v1(public_inputs: &DcmAirPublicInputsV1, proof_artifact: &DcmAirRealStarkProofArtifactV1) -> (result: Result<(), DcmAirRealStarkVerifierErrorV1>)
    requires
        !real_stark_length_overflows(*public_inputs, *proof_artifact),
    ensures
        real_stark_shape_error(*public_inputs, *proof_artifact) is Some ==> result == Err::<
            (),
            DcmAirRealStarkVerifierErrorV1,
        >(real_stark_shape_error(*public_inputs, *proof_artifact)->0),
        real_stark_shape_error(*public_inputs, *proof_artifact) is None
            && proof_artifact.public_input_digest@ != transcript_public_input_digest_spec(
            *public_inputs,
        ) ==> (result matches Err(
            DcmAirRealStarkVerifierErrorV1::PublicInputDigestMismatch { expected, actual },
        ) && expected@ == transcript_public_input_digest_spec(*public_inputs) && actual
            == proof_artifact.public_input_digest),
        real_stark_shape_error(*public_inputs, *proof_artifact) is None
            && proof_artifact.public_input_digest@ == transcript_public_input_digest_spec(
            *public_inputs,
        ) && proof_artifact.proof_bytes_digest@ != real_stark_proof_bytes_digest_spec(
            proof_artifact.proof_bytes@,
        ) ==> (result matches Err(
            DcmAirRealStarkVerifierErrorV1::ProofBytesDigestMismatch { expected, actual },
        ) && expected@ == real_stark_proof_bytes_digest_spec(proof_artifact.proof_bytes@)
            && actual == proof_artifact.proof_bytes_digest),
        real_stark_shape_error(*public_inputs, *proof_artifact) is None
            && proof_artifact.public_input_digest@ == transcript_public_input_digest_spec(
            *public_inputs,
        ) && proof_artifact.proof_bytes_digest@ == real_stark_proof_bytes_digest_spec(
            proof_artifact.proof_bytes@,
        ) && proof_artifact.proof_binding_digest@ != real_stark_binding_digest_spec(
            *proof_artifact,
        ) ==> (result matches Err(
            DcmAirRealStarkVerifierErrorV1::ProofBindingDigestMismatch { expected, actual },
        ) && expected@ == real_stark_binding_digest_spec(*proof_artifact) && actual
            == proof_artifact.proof_binding_digest),
        result is Ok <==> real_stark_artifact_accepted(*public_inputs, *proof_artifact),
{
    if proof_artifact.backend_kind != DCM_AIR_REAL_STARK_BACKEND_WINTERFELL_V1 {
        return Err(
            DcmAirRealStarkVerifierErrorV1::UnsupportedBackendKind {
                expected: DCM_AIR_REAL_STARK_BACKEND_WINTERFELL_V1,
                actual: proof_artifact.backend_kind,
            },
        );
    }
    if proof_artifact.proof_version != DCM_AIR_REAL_STARK_PROOF_VERSION_V1 {
        return Err(
            DcmAirRealStarkVerifierErrorV1::UnsupportedProofVersion {
                expected: DCM_AIR_REAL_STARK_PROOF_VERSION_V1,
                actual: proof_artifact.proof_version,
            },
        );
    }
    let expected_trace_state_count = match public_inputs.iteration_count.checked_add(1) {
        Some(count) => count,
        None => {
            return Err(
                DcmAirRealStarkVerifierErrorV1::UnsupportedTraceShape {
                    reason: "iteration_count_overflow",
                },
            );
        },
    };
    if proof_artifact.trace_state_count != expected_trace_state_count {
        return Err(
            DcmAirRealStarkVerifierErrorV1::UnsupportedTraceShape {
                reason: "trace_state_count_mismatch",
            },
        );
    }
    if expected_trace_state_count as u128 > usize::MAX as u128 {
        return Err(
            DcmAirRealStarkVerifierErrorV1::UnsupportedTraceShape {
                reason: "internal_trace_length_derivation_failed",
            },
        );
    }
    let expected_internal_trace_length = match derive_real_stark_internal_trace_length_v1(
        expected_trace_state_count,
    ) {
        Ok(length) => length,
        Err(_) => {
            return Err(
                DcmAirRealStarkVerifierErrorV1::UnsupportedTraceShape {
                    reason: "internal_trace_length_derivation_failed",
                },
            );
        },
    };
    if proof_artifact.internal_trace_length != expected_internal_trace_length as u64 {
        proof {
            if internal_trace_length_spec(
                expected_trace_state_count as nat,
                proof_artifact.internal_trace_length as nat,
            ) {
                lemma_internal_trace_length_unique(
                    expected_trace_state_count as nat,
                    proof_artifact.internal_trace_length as nat,
                    expected_internal_trace_length as nat,
                );
            }
        }
        return Err(
            DcmAirRealStarkVerifierErrorV1::UnsupportedTraceShape {
                reason: "internal_trace_length_mismatch",
            },
        );
    }
    if proof_artifact.trace_width != 193 {
        return Err(
            DcmAirRealStarkVerifierErrorV1::UnsupportedTraceShape { reason: "trace_width_mismatch" },
        );
    }
    if proof_artifact.backend_constraint_count != 234 {
        return Err(
            DcmAirRealStarkVerifierErrorV1::UnsupportedTraceShape {
                reason: "transition_constraint_count_mismatch",
            },
        );
    }
    let expected_public_input_digest = derive_dcm_air_stark_public_input_digest_v1(public_inputs);
    if !bytes_equal(&proof_artifact.public_input_digest, &expected_public_input_digest) {
        return Err(
            DcmAirRealStarkVerifierErrorV1::PublicInputDigestMismatch {
                expected: expected_public_input_digest,
                actual: proof_artifact.public_input_digest,
            },
        );
    }
    let expected_proof_bytes_digest = derive_dcm_air_real_stark_proof_bytes_digest_v1(
        proof_artifact.proof_bytes.as_slice(),
    );
    if !bytes_equal(&proof_artifact.proof_bytes_digest, &expected_proof_bytes_digest) {
        return Err(
            DcmAirRealStarkVerifierErrorV1::ProofBytesDigestMismatch {
                expected: expected_proof_bytes_digest,
                actual: proof_artifact.proof_bytes_digest,
            },
        );
    }
    let expected_proof_binding_digest = derive_dcm_air_real_stark_proof_binding_digest_v1(proof_artifact);
    if !bytes_equal(&proof_artifact.proof_binding_digest, &expected_proof_binding_digest) {
        return Err(
            DcmAirRealStarkVerifierErrorV1::ProofBindingDigestMismatch {
                expected: expected_proof_binding_digest,
                actual: proof_artifact.proof_binding_digest,
            },
        );
    }
    Ok(())
}


/// The proof-bytes digest is SHA-256 of `"AURA_DCM_AIR_REAL_STARK_PROOF_BYTES_V1"` then the
/// proof bytes; the binding digest is SHA-256 of
/// `"AURA_DCM_AIR_REAL_STARK_PROOF_BINDING_V1"` then the binding bytes.
pub proof fn lemma_real_stark_digest_preimages(proof_bytes: Seq<u8>, artifact: DcmAirRealStarkProofArtifactV1)
    ensures
        real_stark_proof_bytes_digest_spec(proof_bytes) == crate::digest_v1::sha256_spec(seq![0x41u8, 0x55, 0x52, 0x41, 0x5f, 0x44, 0x43, 0x4d, 0x5f, 0x41, 0x49, 0x52, 0x5f, 0x52, 0x45, 0x41, 0x4c, 0x5f, 0x53, 0x54, 0x41, 0x52, 0x4b, 0x5f, 0x50, 0x52, 0x4f, 0x4f, 0x46, 0x5f, 0x42, 0x59, 0x54, 0x45, 0x53, 0x5f, 0x56, 0x31] + (proof_bytes)),
        real_stark_binding_digest_spec(artifact) == crate::digest_v1::sha256_spec(seq![0x41u8, 0x55, 0x52, 0x41, 0x5f, 0x44, 0x43, 0x4d, 0x5f, 0x41, 0x49, 0x52, 0x5f, 0x52, 0x45, 0x41, 0x4c, 0x5f, 0x53, 0x54, 0x41, 0x52, 0x4b, 0x5f, 0x50, 0x52, 0x4f, 0x4f, 0x46, 0x5f, 0x42, 0x49, 0x4e, 0x44, 0x49, 0x4e, 0x47, 0x5f, 0x56, 0x31] + (real_stark_binding_bytes_spec(artifact))),
{
    assert(AURA_DCM_AIR_REAL_STARK_PROOF_BINDING_DOMAIN_SEPARATOR@ =~= seq![0x41u8, 0x55, 0x52, 0x41, 0x5f, 0x44, 0x43, 0x4d, 0x5f, 0x41, 0x49, 0x52, 0x5f, 0x52, 0x45, 0x41, 0x4c, 0x5f, 0x53, 0x54, 0x41, 0x52, 0x4b, 0x5f, 0x50, 0x52, 0x4f, 0x4f, 0x46, 0x5f, 0x42, 0x49, 0x4e, 0x44, 0x49, 0x4e, 0x47, 0x5f, 0x56, 0x31]);
    assert(AURA_DCM_AIR_REAL_STARK_PROOF_BYTES_DOMAIN_SEPARATOR@ =~= seq![0x41u8, 0x55, 0x52, 0x41, 0x5f, 0x44, 0x43, 0x4d, 0x5f, 0x41, 0x49, 0x52, 0x5f, 0x52, 0x45, 0x41, 0x4c, 0x5f, 0x53, 0x54, 0x41, 0x52, 0x4b, 0x5f, 0x50, 0x52, 0x4f, 0x4f, 0x46, 0x5f, 0x42, 0x59, 0x54, 0x45, 0x53, 0x5f, 0x56, 0x31]);
}

} // verus!
