//! The verifier of the cat-map proving scaffold: it checks the claimed shape,
//! the transcript, the boundary openings against the public inputs, the
//! queried transition against the cat map, and the artifact digest.

use crate::cat_matrix_v1::cat_step;
use crate::dcm_air_v1::{
    dcm_air_accepts, evaluate_dcm_air_transition_constraints_v1, expected_next_dcm_air_row_v1,
    DcmAirFrameV1, DcmAirPublicInputsV1, DCM_AIR_TRACE_WIDTH_V1,
    DCM_AIR_TRANSITION_CONSTRAINT_COUNT_V1,
};
use crate::dcm_v1::{dcm521_pair, dcm521_same, p521_int, DcmState521V1};
use crate::field_521_v1::{bytes_equal, FieldElement521V1};
use crate::stark_prover_v1::{
    claimed_commitment, derive_dcm_air_stark_proof_artifact_digest_v1, proof_artifact_digest_spec, scaffold_artifact_for, DcmAirStarkProofArtifactV1,
    DcmAirStarkTransitionOpeningsV1, DCM_AIR_STARK_PROOF_SCAFFOLD_VERSION_V1,
};
use crate::stark_trace_commitment_v1::{
    derive_stark_trace_tree_height_from_leaf_count_v1, fold_path, height_of_count,
    lemma_opened_row_verifies, opening_siblings, trace_leaf_spec, verify_stark_trace_merkle_opening_v1, StarkTraceCommitmentErrorV1, StarkTraceCommitmentV1,
    StarkTraceMerkleOpeningV1, STARK_TRACE_COMMITMENT_VERSION_V1,
};
use crate::stark_transcript_v1::{
    challenge_row_index_spec, derive_dcm_air_stark_public_input_digest_v1,
    derive_dcm_air_stark_transcript_v1, query_challenge_digest_spec, transcript_digest_spec,
    transcript_public_input_digest_spec, DcmAirStarkTranscriptV1,
};
use vstd::prelude::*;

verus! {

/// What an accepted artifact establishes.
#[derive(Clone, Copy, Debug, PartialEq, Eq)]
pub struct DcmAirStarkVerifierAcceptanceV1 {
    pub verified_trace_commitment_root: [u8; 32],
    pub verified_transition_query_count: u8,
    pub verified_transition_row_index: u64,
    pub verified_proof_artifact_digest: [u8; 32],
}

/// Why an artifact is rejected.
#[allow(inconsistent_fields)]
#[derive(Clone, Copy, Debug, PartialEq, Eq)]
pub enum DcmAirStarkVerifierErrorV1 {
    UnsupportedProofVersion { expected: u8, actual: u8 },
    UnsupportedTraceShape { reason: &'static str },
    PublicInputBindingMismatch { expected: [u8; 32], actual: [u8; 32] },
    TranscriptMismatch { field: &'static str },
    OpeningMismatch { field: &'static str },
    CommitmentMismatch { expected: [u8; 32], actual: [u8; 32] },
    TransitionOpeningViolation {
        row_index: u64,
        expected: DcmState521V1,
        actual: DcmState521V1,
        x_transition_residual: FieldElement521V1,
        y_transition_residual: FieldElement521V1,
    },
    ProofArtifactDigestMismatch { expected: [u8; 32], actual: [u8; 32] },
}

/// An opening whose path has the committed height, whose row is in range and
/// whose path folds to the committed root.
pub open spec fn opening_verifies(commitment: StarkTraceCommitmentV1, opening: StarkTraceMerkleOpeningV1) -> bool {
    &&& opening.sibling_hashes@.len() == commitment.tree_height
    &&& opening.row_index < commitment.leaf_count
    &&& fold_path(
        trace_leaf_spec(opening.row_index, opening.row_value),
        opening.row_index as int,
        opening_siblings(opening),
    ) == commitment.root@
}

/// The first shape check that fails, if any.
pub open spec fn scaffold_shape_error(inputs: DcmAirPublicInputsV1, artifact: DcmAirStarkProofArtifactV1) -> Option<DcmAirStarkVerifierErrorV1> {
    let metadata = artifact.opening_metadata;
    let rows = inputs.iteration_count + 1;
    if artifact.proof_version != DCM_AIR_STARK_PROOF_SCAFFOLD_VERSION_V1 {
        Some(
            DcmAirStarkVerifierErrorV1::UnsupportedProofVersion {
                expected: DCM_AIR_STARK_PROOF_SCAFFOLD_VERSION_V1,
                actual: artifact.proof_version,
            },
        )
    } else if inputs.iteration_count == u64::MAX {
        Some(DcmAirStarkVerifierErrorV1::UnsupportedTraceShape { reason: "iteration_count_overflow" })
    } else if metadata.trace_row_count != rows {
        Some(DcmAirStarkVerifierErrorV1::UnsupportedTraceShape { reason: "trace_row_count_mismatch" })
    } else if metadata.commitment_tree_height != height_of_count(rows as nat) {
        Some(
            DcmAirStarkVerifierErrorV1::UnsupportedTraceShape {
                reason: "commitment_tree_height_mismatch",
            },
        )
    } else if metadata.transition_query_count != (if rows > 1 {
        1u8
    } else {
        0u8
    }) {
        Some(
            DcmAirStarkVerifierErrorV1::UnsupportedTraceShape {
                reason: "transition_query_count_mismatch",
            },
        )
    } else if metadata.trace_width != DCM_AIR_TRACE_WIDTH_V1 {
        Some(DcmAirStarkVerifierErrorV1::UnsupportedTraceShape { reason: "trace_width_mismatch" })
    } else if metadata.transition_constraint_count != DCM_AIR_TRANSITION_CONSTRAINT_COUNT_V1 {
        Some(
            DcmAirStarkVerifierErrorV1::UnsupportedTraceShape {
                reason: "transition_constraint_count_mismatch",
            },
        )
    } else {
        None
    }
}

/// The queried transition: its index is the one the transcript selects, its
/// two openings are of that row and the next, both verify, and the next row
/// is the cat-map step of the current one.
pub open spec fn transition_accepted(inputs: DcmAirPublicInputsV1, artifact: DcmAirStarkProofArtifactV1, openings: DcmAirStarkTransitionOpeningsV1) -> bool {
    let commitment = claimed_commitment(artifact);
    &&& openings.row_index == challenge_row_index_spec(
        query_challenge_digest_spec(inputs, commitment),
        (commitment.leaf_count - 1) as u64,
    )
    &&& openings.current_row_opening.row_index == openings.row_index
    &&& openings.next_row_opening.row_index == openings.row_index + 1
    &&& opening_verifies(commitment, openings.current_row_opening)
    &&& opening_verifies(commitment, openings.next_row_opening)
    &&& dcm521_pair(openings.next_row_opening.row_value) == cat_step(
        dcm521_pair(openings.current_row_opening.row_value),
        p521_int(),
    )
}

/// Everything the verifier checks holds.
pub open spec fn scaffold_accepts(inputs: DcmAirPublicInputsV1, artifact: DcmAirStarkProofArtifactV1) -> bool {
    let commitment = claimed_commitment(artifact);
    let rows = inputs.iteration_count + 1;
    &&& scaffold_shape_error(inputs, artifact) is None
    &&& artifact.public_input_digest@ == transcript_public_input_digest_spec(inputs)
    &&& artifact.transcript_digest@ == transcript_digest_spec(inputs, commitment)
    &&& artifact.query_challenge_digest@ == query_challenge_digest_spec(inputs, commitment)
    &&& artifact.boundary_first_row_opening.row_index == 0
    &&& dcm521_same(artifact.boundary_first_row_opening.row_value, inputs.initial_state)
    &&& opening_verifies(commitment, artifact.boundary_first_row_opening)
    &&& artifact.boundary_last_row_opening.row_index == rows - 1
    &&& dcm521_same(artifact.boundary_last_row_opening.row_value, inputs.final_state)
    &&& opening_verifies(commitment, artifact.boundary_last_row_opening)
    &&& (rows == 1 ==> artifact.queried_transition_openings is None)
    &&& (rows > 1 ==> (artifact.queried_transition_openings matches Some(t) && transition_accepted(
        inputs,
        artifact,
        t,
    )))
    &&& artifact.proof_artifact_digest@ == proof_artifact_digest_spec(artifact)
}

fn map_trace_commitment_error_to_verifier_error_v1(error: StarkTraceCommitmentErrorV1) -> (mapped: DcmAirStarkVerifierErrorV1)
    ensures
        (error is EmptyTrace) ==> mapped == (DcmAirStarkVerifierErrorV1::UnsupportedTraceShape {
            reason: "empty_trace_commitment",
        }),
        !(error is EmptyTrace) ==> mapped == (DcmAirStarkVerifierErrorV1::OpeningMismatch {
            field: "trace_merkle_opening",
        }),
{
    match error {
        StarkTraceCommitmentErrorV1::RowIndexOutOfRange { .. } => {
            DcmAirStarkVerifierErrorV1::OpeningMismatch { field: "trace_merkle_opening" }
        },
        StarkTraceCommitmentErrorV1::OpeningPathLengthMismatch { .. } => {
            DcmAirStarkVerifierErrorV1::OpeningMismatch { field: "trace_merkle_opening" }
        },
        StarkTraceCommitmentErrorV1::EmptyTrace => {
            DcmAirStarkVerifierErrorV1::UnsupportedTraceShape { reason: "empty_trace_commitment" }
        },
    }
}

fn verify_opening_against_commitment_v1(trace_commitment: &StarkTraceCommitmentV1, opening: &StarkTraceMerkleOpeningV1) -> (result: Result<(), DcmAirStarkVerifierErrorV1>)
    ensures
        result is Ok <==> opening_verifies(*trace_commitment, *opening),
{
    let actual_root = match verify_stark_trace_merkle_opening_v1(trace_commitment, opening) {
        Ok(root) => root,
        Err(error) => {
            return Err(map_trace_commitment_error_to_verifier_error_v1(error));
        },
    };
    if !bytes_equal(&actual_root, &trace_commitment.root) {
        return Err(
            DcmAirStarkVerifierErrorV1::CommitmentMismatch {
                expected: trace_commitment.root,
                actual: actual_root,
            },
        );
    }
    Ok(())
}

fn verify_boundary_opening_v1(trace_commitment: &StarkTraceCommitmentV1, opening: &StarkTraceMerkleOpeningV1, expected_row_index: u64, expected_row_value: DcmState521V1, is_first_row: bool) -> (result: Result<(), DcmAirStarkVerifierErrorV1>)
    ensures
        result is Ok <==> opening.row_index == expected_row_index && dcm521_same(
            opening.row_value,
            expected_row_value,
        ) && opening_verifies(*trace_commitment, *opening),
{
    if opening.row_index != expected_row_index {
        let field = if is_first_row {
            "boundary_first_row_index"
        } else {
            "boundary_last_row_index"
        };
        return Err(DcmAirStarkVerifierErrorV1::OpeningMismatch { field });
    }
    if !opening.row_value.same_as(&expected_row_value) {
        let field = if is_first_row {
            "boundary_first_row_value"
        } else {
            "boundary_last_row_value"
        };
        return Err(DcmAirStarkVerifierErrorV1::OpeningMismatch { field });
    }
    verify_opening_against_commitment_v1(trace_commitment, opening)
}

fn verify_transition_openings_v1(trace_commitment: &StarkTraceCommitmentV1, transcript: &DcmAirStarkTranscriptV1, transition_openings: &DcmAirStarkTransitionOpeningsV1) -> (result: Result<(), DcmAirStarkVerifierErrorV1>)
    requires
        transcript.queried_transition_row_index < u64::MAX,
    ensures
        result is Ok <==> {
            &&& transition_openings.row_index == transcript.queried_transition_row_index
            &&& transition_openings.current_row_opening.row_index == transition_openings.row_index
            &&& transition_openings.next_row_opening.row_index == transition_openings.row_index + 1
            &&& opening_verifies(*trace_commitment, transition_openings.current_row_opening)
            &&& opening_verifies(*trace_commitment, transition_openings.next_row_opening)
            &&& dcm521_pair(transition_openings.next_row_opening.row_value) == cat_step(
                dcm521_pair(transition_openings.current_row_opening.row_value),
                p521_int(),
            )
        },
{
    if transition_openings.row_index != transcript.queried_transition_row_index {
        return Err(DcmAirStarkVerifierErrorV1::TranscriptMismatch { field: "queried_transition_row_index" });
    }
    if transition_openings.current_row_opening.row_index != transition_openings.row_index {
        return Err(DcmAirStarkVerifierErrorV1::OpeningMismatch { field: "transition_current_row_index" });
    }
    if transition_openings.next_row_opening.row_index != transition_openings.row_index + 1 {
        return Err(DcmAirStarkVerifierErrorV1::OpeningMismatch { field: "transition_next_row_index" });
    }
    match verify_opening_against_commitment_v1(trace_commitment, &transition_openings.current_row_opening) {
        Ok(()) => {},
        Err(error) => {
            return Err(error);
        },
    }
    match verify_opening_against_commitment_v1(trace_commitment, &transition_openings.next_row_opening) {
        Ok(()) => {},
        Err(error) => {
            return Err(error);
        },
    }
    let frame = DcmAirFrameV1 {
        current_row: transition_openings.current_row_opening.row_value,
        next_row: transition_openings.next_row_opening.row_value,
    };
    let constraint_evaluation = evaluate_dcm_air_transition_constraints_v1(&frame);
    if !constraint_evaluation.is_satisfied() {
        return Err(
            DcmAirStarkVerifierErrorV1::TransitionOpeningViolation {
                row_index: transition_openings.row_index,
                expected: expected_next_dcm_air_row_v1(&frame),
                actual: transition_openings.next_row_opening.row_value,
                x_transition_residual: constraint_evaluation.x_transition_residual,
                y_transition_residual: constraint_evaluation.y_transition_residual,
            },
        );
    }
    Ok(())
}

/// Verifies a scaffold artifact against public inputs.
pub fn verify_dcm_air_stark_scaffold_v1(public_inputs: &DcmAirPublicInputsV1, proof_artifact: &DcmAirStarkProofArtifactV1) -> (result: Result<DcmAirStarkVerifierAcceptanceV1, DcmAirStarkVerifierErrorV1>)
    ensures
        result is Ok <==> scaffold_accepts(*public_inputs, *proof_artifact),
        scaffold_shape_error(*public_inputs, *proof_artifact) is Some ==> result == Err::<
            DcmAirStarkVerifierAcceptanceV1,
            DcmAirStarkVerifierErrorV1,
        >(scaffold_shape_error(*public_inputs, *proof_artifact)->0),
        scaffold_shape_error(*public_inputs, *proof_artifact) is None
            && proof_artifact.public_input_digest@ != transcript_public_input_digest_spec(
            *public_inputs,
        ) ==> (result matches Err(
            DcmAirStarkVerifierErrorV1::PublicInputBindingMismatch { expected, actual },
        ) && expected@ == transcript_public_input_digest_spec(*public_inputs) && actual
            == proof_artifact.public_input_digest),
        scaffold_shape_error(*public_inputs, *proof_artifact) is None
            && proof_artifact.public_input_digest@ == transcript_public_input_digest_spec(
            *public_inputs,
        ) && proof_artifact.transcript_digest@ != transcript_digest_spec(
            *public_inputs,
            claimed_commitment(*proof_artifact),
        ) ==> result == Err::<DcmAirStarkVerifierAcceptanceV1, DcmAirStarkVerifierErrorV1>(
            DcmAirStarkVerifierErrorV1::TranscriptMismatch { field: "transcript_digest" },
        ),
        result matches Ok(acceptance) ==> {
            &&& acceptance.verified_trace_commitment_root == proof_artifact.trace_commitment_root
            &&& acceptance.verified_transition_query_count
                == proof_artifact.opening_metadata.transition_query_count
            &&& acceptance.verified_transition_row_index == (match proof_artifact.queried_transition_openings {
                Some(t) => t.row_index,
                None => 0,
            })
            &&& acceptance.verified_proof_artifact_digest == proof_artifact.proof_artifact_digest
        },
{
    if proof_artifact.proof_version != DCM_AIR_STARK_PROOF_SCAFFOLD_VERSION_V1 {
        return Err(
            DcmAirStarkVerifierErrorV1::UnsupportedProofVersion {
                expected: DCM_AIR_STARK_PROOF_SCAFFOLD_VERSION_V1,
                actual: proof_artifact.proof_version,
            },
        );
    }
    let expected_trace_row_count = match public_inputs.iteration_count.checked_add(1) {
        Some(count) => count,
        None => {
            return Err(
                DcmAirStarkVerifierErrorV1::UnsupportedTraceShape {
                    reason: "iteration_count_overflow",
                },
            );
        },
    };
    if proof_artifact.opening_metadata.trace_row_count != expected_trace_row_count {
        return Err(
            DcmAirStarkVerifierErrorV1::UnsupportedTraceShape { reason: "trace_row_count_mismatch" },
        );
    }
    let expected_tree_height = derive_stark_trace_tree_height_from_leaf_count_v1(
        expected_trace_row_count,
    );
    if proof_artifact.opening_metadata.commitment_tree_height != expected_tree_height {
        return Err(
            DcmAirStarkVerifierErrorV1::UnsupportedTraceShape {
                reason: "commitment_tree_height_mismatch",
            },
        );
    }
    let expected_transition_query_count: u8 = if expected_trace_row_count > 1 {
        1
    } else {
        0
    };
    if proof_artifact.opening_metadata.transition_query_count != expected_transition_query_count {
        return Err(
            DcmAirStarkVerifierErrorV1::UnsupportedTraceShape {
                reason: "transition_query_count_mismatch",
            },
        );
    }
    if proof_artifact.opening_metadata.trace_width != DCM_AIR_TRACE_WIDTH_V1 {
        return Err(
            DcmAirStarkVerifierErrorV1::UnsupportedTraceShape { reason: "trace_width_mismatch" },
        );
    }
    if proof_artifact.opening_metadata.transition_constraint_count
        != DCM_AIR_TRANSITION_CONSTRAINT_COUNT_V1 {
        return Err(
            DcmAirStarkVerifierErrorV1::UnsupportedTraceShape {
                reason: "transition_constraint_count_mismatch",
            },
        );
    }
    let expected_public_input_digest = derive_dcm_air_stark_public_input_digest_v1(public_inputs);
    if !bytes_equal(&proof_artifact.public_input_digest, &expected_public_input_digest) {
        return Err(
            DcmAirStarkVerifierErrorV1::PublicInputBindingMismatch {
                expected: expected_public_input_digest,
                actual: proof_artifact.public_input_digest,
            },
        );
    }
    let trace_commitment = StarkTraceCommitmentV1 {
        commitment_version: STARK_TRACE_COMMITMENT_VERSION_V1,
        leaf_count: proof_artifact.opening_metadata.trace_row_count,
        tree_height: proof_artifact.opening_metadata.commitment_tree_height,
        root: proof_artifact.trace_commitment_root,
    };
    proof {
        assert(trace_commitment == claimed_commitment(*proof_artifact));
    }
    let transcript = match derive_dcm_air_stark_transcript_v1(public_inputs, &trace_commitment) {
        Ok(transcript) => transcript,
        Err(_) => {
            return Err(
                DcmAirStarkVerifierErrorV1::UnsupportedTraceShape {
                    reason: "transcript_construction_failed",
                },
            );
        },
    };
    if !bytes_equal(&proof_artifact.transcript_digest, &transcript.transcript_digest) {
        return Err(DcmAirStarkVerifierErrorV1::TranscriptMismatch { field: "transcript_digest" });
    }
    if !bytes_equal(&proof_artifact.query_challenge_digest, &transcript.query_challenge_digest) {
        return Err(
            DcmAirStarkVerifierErrorV1::TranscriptMismatch { field: "query_challenge_digest" },
        );
    }
    match verify_boundary_opening_v1(
        &trace_commitment,
        &proof_artifact.boundary_first_row_opening,
        0,
        public_inputs.initial_state,
        true,
    ) {
        Ok(()) => {},
        Err(error) => {
            return Err(error);
        },
    }
    match verify_boundary_opening_v1(
        &trace_commitment,
        &proof_artifact.boundary_last_row_opening,
        expected_trace_row_count - 1,
        public_inputs.final_state,
        false,
    ) {
        Ok(()) => {},
        Err(error) => {
            return Err(error);
        },
    }
    let verified_transition_row_index = if transcript.transition_query_count == 0 {
        if proof_artifact.queried_transition_openings.is_some() {
            return Err(
                DcmAirStarkVerifierErrorV1::OpeningMismatch { field: "queried_transition_openings" },
            );
        }
        0
    } else {
        let transition_openings = match &proof_artifact.queried_transition_openings {
            Some(openings) => openings,
            None => {
                return Err(
                    DcmAirStarkVerifierErrorV1::OpeningMismatch {
                        field: "queried_transition_openings",
                    },
                );
            },
        };
        match verify_transition_openings_v1(&trace_commitment, &transcript, transition_openings) {
            Ok(()) => {},
            Err(error) => {
                return Err(error);
            },
        }
        transition_openings.row_index
    };
    let expected_proof_artifact_digest = derive_dcm_air_stark_proof_artifact_digest_v1(proof_artifact);
    if !bytes_equal(&proof_artifact.proof_artifact_digest, &expected_proof_artifact_digest) {
        return Err(
            DcmAirStarkVerifierErrorV1::ProofArtifactDigestMismatch {
                expected: expected_proof_artifact_digest,
                actual: proof_artifact.proof_artifact_digest,
            },
        );
    }
    Ok(
        DcmAirStarkVerifierAcceptanceV1 {
            verified_trace_commitment_root: proof_artifact.trace_commitment_root,
            verified_transition_query_count: transcript.transition_query_count,
            verified_transition_row_index,
            verified_proof_artifact_digest: proof_artifact.proof_artifact_digest,
        },
    )
}

/// The scaffold artifact the prover builds for a trace the AIR accepts is
/// accepted by the verifier.
pub proof fn lemma_scaffold_artifact_verifies(public_inputs: DcmAirPublicInputsV1, rows: Seq<DcmState521V1>, artifact: DcmAirStarkProofArtifactV1)
    requires
        dcm_air_accepts(public_inputs, rows),
        scaffold_artifact_for(public_inputs, rows, artifact),
    ensures
        scaffold_accepts(public_inputs, artifact),
{
    let count = rows.len();
    let commitment = claimed_commitment(artifact);
    let first = artifact.boundary_first_row_opening;
    let last = artifact.boundary_last_row_opening;
    lemma_opened_row_verifies(rows, 0);
    lemma_opened_row_verifies(rows, count - 1);
    assert(opening_siblings(first).len() == first.sibling_hashes@.len());
    assert(opening_siblings(last).len() == last.sibling_hashes@.len());
    assert(opening_verifies(commitment, first));
    assert(opening_verifies(commitment, last));
    if count > 1 {
        let t = artifact.queried_transition_openings->0;
        let index = t.row_index as int;
        assert(index < count - 1);
        lemma_opened_row_verifies(rows, index);
        lemma_opened_row_verifies(rows, index + 1);
        assert(opening_siblings(t.current_row_opening).len() == t.current_row_opening.sibling_hashes@.len());
        assert(opening_siblings(t.next_row_opening).len() == t.next_row_opening.sibling_hashes@.len());
        assert(dcm521_pair(rows[index + 1]) == cat_step(dcm521_pair(rows[index]), p521_int()));
        assert(transition_accepted(public_inputs, artifact, t));
    }
}

} // verus!
