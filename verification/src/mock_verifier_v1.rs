//! The deterministic mock verifier: it checks that a placeholder artifact
//! binds the verifier-visible values of a session. It verifies no
//! cryptographic proof.

use crate::dcm_air_adapter_v1::DCM_AIR_ADAPTER_PACKAGING_VERSION_V1;
use crate::dcm_air_v1::{
    dcm_air_accepts, DcmAirPublicInputsV1, DCM_AIR_TRACE_WIDTH_V1,
    DCM_AIR_TRANSITION_CONSTRAINT_COUNT_V1,
};
use crate::dcm_v1::DcmState521V1;
use crate::field_521_v1::bytes_equal;
use crate::mock_prover_v1::{
    derive_dcm_air_mock_constraint_digest_v1, derive_dcm_air_mock_placeholder_digest_v1,
    derive_dcm_air_mock_public_input_digest_v1, derive_dcm_air_mock_session_id_v1,
    mock_artifact_for, mock_bindings_of_trace, mock_constraint_digest_spec,
    mock_placeholder_digest_spec, mock_public_input_digest_spec, mock_session_id_spec,
    DcmAirMockProofArtifactV1, DcmAirMockVerifierBindingsV1, DCM_AIR_MOCK_PROOF_VERSION_V1,
};
use vstd::prelude::*;

verus! {

/// Why a placeholder artifact is rejected.
#[allow(inconsistent_fields)]
#[derive(Clone, Copy, Debug, PartialEq, Eq)]
pub enum DcmAirMockVerifierErrorV1 {
    UnsupportedProofVersion { expected: u8, actual: u8 },
    UnsupportedAdapterPackagingVersion { expected: u8, actual: u8 },
    UnsupportedTraceWidth { expected: u8, actual: u8 },
    UnsupportedTransitionConstraintCount { expected: u8, actual: u8 },
    IterationCountOverflow,
    RowCountInvariantMismatch { expected: u64, actual: u64 },
    CheckedTransitionCountInvariantMismatch { expected: u64, actual: u64 },
    PublicInputDigestMismatch { expected: [u8; 32], actual: [u8; 32] },
    ConstraintDigestMismatch { expected: [u8; 32], actual: [u8; 32] },
    SessionIdMismatch { expected: [u8; 32], actual: [u8; 32] },
    ProofPlaceholderDigestMismatch { expected: [u8; 32], actual: [u8; 32] },
}

/// The first shape check that fails, if any: versions, width, constraint
/// count, then the row and transition counts against the iteration count.
pub open spec fn mock_shape_error(bindings: DcmAirMockVerifierBindingsV1, artifact: DcmAirMockProofArtifactV1) -> Option<DcmAirMockVerifierErrorV1> {
    if artifact.proof_version != DCM_AIR_MOCK_PROOF_VERSION_V1 {
        Some(
            DcmAirMockVerifierErrorV1::UnsupportedProofVersion {
                expected: DCM_AIR_MOCK_PROOF_VERSION_V1,
                actual: artifact.proof_version,
            },
        )
    } else if bindings.packaging_version != DCM_AIR_ADAPTER_PACKAGING_VERSION_V1 {
        Some(
            DcmAirMockVerifierErrorV1::UnsupportedAdapterPackagingVersion {
                expected: DCM_AIR_ADAPTER_PACKAGING_VERSION_V1,
                actual: bindings.packaging_version,
            },
        )
    } else if bindings.trace_width != DCM_AIR_TRACE_WIDTH_V1 {
        Some(
            DcmAirMockVerifierErrorV1::UnsupportedTraceWidth {
                expected: DCM_AIR_TRACE_WIDTH_V1,
                actual: bindings.trace_width,
            },
        )
    } else if bindings.transition_constraint_count != DCM_AIR_TRANSITION_CONSTRAINT_COUNT_V1 {
        Some(
            DcmAirMockVerifierErrorV1::UnsupportedTransitionConstraintCount {
                expected: DCM_AIR_TRANSITION_CONSTRAINT_COUNT_V1,
                actual: bindings.transition_constraint_count,
            },
        )
    } else if bindings.public_inputs.iteration_count == u64::MAX {
        Some(DcmAirMockVerifierErrorV1::IterationCountOverflow)
    } else if bindings.row_count != bindings.public_inputs.iteration_count + 1 {
        Some(
            DcmAirMockVerifierErrorV1::RowCountInvariantMismatch {
                expected: (bindings.public_inputs.iteration_count + 1) as u64,
                actual: bindings.row_count,
            },
        )
    } else if bindings.checked_transition_count != bindings.public_inputs.iteration_count {
        Some(
            DcmAirMockVerifierErrorV1::CheckedTransitionCountInvariantMismatch {
                expected: bindings.public_inputs.iteration_count,
                actual: bindings.checked_transition_count,
            },
        )
    } else {
        None
    }
}

/// The mock verifier accepts: the shape checks pass and the artifact binds
/// exactly the digests the bindings determine.
pub open spec fn mock_proof_accepted(bindings: DcmAirMockVerifierBindingsV1, artifact: DcmAirMockProofArtifactV1) -> bool {
    mock_shape_error(bindings, artifact) is None && mock_artifact_for(bindings, artifact)
}

/// Checks a placeholder artifact against the bindings: versions, shape, then
/// each bound digest in turn.
pub fn verify_dcm_air_mock_proof_v1(verifier_bindings: &DcmAirMockVerifierBindingsV1, proof_artifact: &DcmAirMockProofArtifactV1) -> (result: Result<(), DcmAirMockVerifierErrorV1>)
    ensures
        result is Ok <==> mock_proof_accepted(*verifier_bindings, *proof_artifact),
        mock_shape_error(*verifier_bindings, *proof_artifact) is Some ==> result == Err::<
            (),
            DcmAirMockVerifierErrorV1,
        >(mock_shape_error(*verifier_bindings, *proof_artifact)->0),
        mock_shape_error(*verifier_bindings, *proof_artifact) is None
            && proof_artifact.bound_public_input_digest@ != mock_public_input_digest_spec(
            verifier_bindings.public_inputs,
        ) ==> (result matches Err(
            DcmAirMockVerifierErrorV1::PublicInputDigestMismatch { expected, actual },
        ) && expected@ == mock_public_input_digest_spec(verifier_bindings.public_inputs) && actual
            == proof_artifact.bound_public_input_digest),
        mock_shape_error(*verifier_bindings, *proof_artifact) is None
            && proof_artifact.bound_public_input_digest@ == mock_public_input_digest_spec(
            verifier_bindings.public_inputs,
        ) && proof_artifact.bound_constraint_digest@ != mock_constraint_digest_spec(
            *verifier_bindings,
        ) ==> (result matches Err(
            DcmAirMockVerifierErrorV1::ConstraintDigestMismatch { expected, actual },
        ) && expected@ == mock_constraint_digest_spec(*verifier_bindings) && actual
            == proof_artifact.bound_constraint_digest),
        mock_shape_error(*verifier_bindings, *proof_artifact) is None
            && proof_artifact.bound_public_input_digest@ == mock_public_input_digest_spec(
            verifier_bindings.public_inputs,
        ) && proof_artifact.bound_constraint_digest@ == mock_constraint_digest_spec(
            *verifier_bindings,
        ) && proof_artifact.bound_session_id@ != mock_session_id_spec(*verifier_bindings) ==> (
        result matches Err(DcmAirMockVerifierErrorV1::SessionIdMismatch { expected, actual })
            && expected@ == mock_session_id_spec(*verifier_bindings) && actual
            == proof_artifact.bound_session_id),
        mock_shape_error(*verifier_bindings, *proof_artifact) is None
            && proof_artifact.bound_public_input_digest@ == mock_public_input_digest_spec(
            verifier_bindings.public_inputs,
        ) && proof_artifact.bound_constraint_digest@ == mock_constraint_digest_spec(
            *verifier_bindings,
        ) && proof_artifact.bound_session_id@ == mock_session_id_spec(*verifier_bindings)
            && proof_artifact.proof_placeholder_digest@ != mock_placeholder_digest_spec(
            DCM_AIR_MOCK_PROOF_VERSION_V1,
            proof_artifact.bound_public_input_digest@,
            proof_artifact.bound_constraint_digest@,
            proof_artifact.bound_session_id@,
        ) ==> (result matches Err(
            DcmAirMockVerifierErrorV1::ProofPlaceholderDigestMismatch { expected, actual },
        ) && expected@ == mock_placeholder_digest_spec(
            DCM_AIR_MOCK_PROOF_VERSION_V1,
            proof_artifact.bound_public_input_digest@,
            proof_artifact.bound_constraint_digest@,
            proof_artifact.bound_session_id@,
        ) && actual == proof_artifact.proof_placeholder_digest),
        result matches Err(
            DcmAirMockVerifierErrorV1::ProofPlaceholderDigestMismatch { expected, actual },
        ) ==> expected@ == mock_placeholder_digest_spec(
            DCM_AIR_MOCK_PROOF_VERSION_V1,
            proof_artifact.bound_public_input_digest@,
            proof_artifact.bound_constraint_digest@,
            proof_artifact.bound_session_id@,
        ) && actual == proof_artifact.proof_placeholder_digest && expected@ != actual@,
{
    if proof_artifact.proof_version != DCM_AIR_MOCK_PROOF_VERSION_V1 {
        return Err(
            DcmAirMockVerifierErrorV1::UnsupportedProofVersion {
                expected: DCM_AIR_MOCK_PROOF_VERSION_V1,
                actual: proof_artifact.proof_version,
            },
        );
    }
    if verifier_bindings.packaging_version != DCM_AIR_ADAPTER_PACKAGING_VERSION_V1 {
        return Err(
            DcmAirMockVerifierErrorV1::UnsupportedAdapterPackagingVersion {
                expected: DCM_AIR_ADAPTER_PACKAGING_VERSION_V1,
                actual: verifier_bindings.packaging_version,
            },
        );
    }
    if verifier_bindings.trace_width != DCM_AIR_TRACE_WIDTH_V1 {
        return Err(
            DcmAirMockVerifierErrorV1::UnsupportedTraceWidth {
                expected: DCM_AIR_TRACE_WIDTH_V1,
                actual: verifier_bindings.trace_width,
            },
        );
    }
    if verifier_bindings.transition_constraint_count != DCM_AIR_TRANSITION_CONSTRAINT_COUNT_V1 {
        return Err(
            DcmAirMockVerifierErrorV1::UnsupportedTransitionConstraintCount {
                expected: DCM_AIR_TRANSITION_CONSTRAINT_COUNT_V1,
                actual: verifier_bindings.transition_constraint_count,
            },
        );
    }
    let expected_row_count = match verifier_bindings.public_inputs.iteration_count.checked_add(1) {
        Some(count) => count,
        None => {
            return Err(DcmAirMockVerifierErrorV1::IterationCountOverflow);
        },
    };
    if verifier_bindings.row_count != expected_row_count {
        return Err(
            DcmAirMockVerifierErrorV1::RowCountInvariantMismatch {
                expected: expected_row_count,
                actual: verifier_bindings.row_count,
            },
        );
    }
    if verifier_bindings.checked_transition_count != verifier_bindings.public_inputs.iteration_count {
        return Err(
            DcmAirMockVerifierErrorV1::CheckedTransitionCountInvariantMismatch {
                expected: verifier_bindings.public_inputs.iteration_count,
                actual: verifier_bindings.checked_transition_count,
            },
        );
    }
    let expected_public_input_digest = derive_dcm_air_mock_public_input_digest_v1(
        &verifier_bindings.public_inputs,
    );
    if !bytes_equal(&proof_artifact.bound_public_input_digest, &expected_public_input_digest) {
        return Err(
            DcmAirMockVerifierErrorV1::PublicInputDigestMismatch {
                expected: expected_public_input_digest,
                actual: proof_artifact.bound_public_input_digest,
            },
        );
    }
    let expected_constraint_digest = derive_dcm_air_mock_constraint_digest_v1(verifier_bindings);
    if !bytes_equal(&proof_artifact.bound_constraint_digest, &expected_constraint_digest) {
        return Err(
            DcmAirMockVerifierErrorV1::ConstraintDigestMismatch {
                expected: expected_constraint_digest,
                actual: proof_artifact.bound_constraint_digest,
            },
        );
    }
    let expected_session_id = derive_dcm_air_mock_session_id_v1(verifier_bindings);
    if !bytes_equal(&proof_artifact.bound_session_id, &expected_session_id) {
        return Err(
            DcmAirMockVerifierErrorV1::SessionIdMismatch {
                expected: expected_session_id,
                actual: proof_artifact.bound_session_id,
            },
        );
    }
    let expected_placeholder_digest = derive_dcm_air_mock_placeholder_digest_v1(
        DCM_AIR_MOCK_PROOF_VERSION_V1,
        &expected_public_input_digest,
        &expected_constraint_digest,
        &expected_session_id,
    );
    if !bytes_equal(&proof_artifact.proof_placeholder_digest, &expected_placeholder_digest) {
        return Err(
            DcmAirMockVerifierErrorV1::ProofPlaceholderDigestMismatch {
                expected: expected_placeholder_digest,
                actual: proof_artifact.proof_placeholder_digest,
            },
        );
    }
    Ok(())
}

/// What the mock prover returns for a trace the AIR accepts, the mock
/// verifier accepts.
pub proof fn lemma_mock_prover_output_verifies(public_inputs: DcmAirPublicInputsV1, trace: Seq<DcmState521V1>, bindings: DcmAirMockVerifierBindingsV1, artifact: DcmAirMockProofArtifactV1)
    requires
        dcm_air_accepts(public_inputs, trace),
        mock_bindings_of_trace(bindings, public_inputs, trace),
        mock_artifact_for(bindings, artifact),
    ensures
        mock_proof_accepted(bindings, artifact),
{
}

} // verus!
