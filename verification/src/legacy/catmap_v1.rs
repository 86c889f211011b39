//! Cat-map execution, commitments, and the mock, scaffold and
//! Winterfell-backed proofs over it. These proofs do not establish the Storm
//! relation.

pub use crate::commitment_521_v1::{
    DETERMINISTIC_COMMITMENT_521_BYTE_LEN_V1,
    AURA_DETERMINISTIC_COMMITMENT_521_CONTEXT_DOMAIN_SEPARATOR_V1,
    AURA_DETERMINISTIC_COMMITMENT_521_EXPAND_X_V1,
    AURA_DETERMINISTIC_COMMITMENT_521_EXPAND_Y_V1,
    DeterministicCommitment521V1,
    DeterministicCommitment521ErrorV1,
    sha512_domain_separated_bytes_v1,
    expand_commitment_bytes_v1,
    derive_deterministic_commitment_521_v1,
};
pub use crate::cat_matrix_v1::{
    Mat2,
    Vec2,
};
pub use crate::dcm_v1::{
    AURA_DCM_V1_STATE_LEAF_DOMAIN_SEPARATOR,
    AURA_DCM_V1_TRACE_COMMITMENT_DOMAIN_SEPARATOR,
    AURA_DCM_V1_COMMITMENT_ROOT_DOMAIN_SEPARATOR,
    AURA_DCM_521_V1_STATE_LEAF_DOMAIN_SEPARATOR,
    AURA_DCM_521_V1_TRACE_COMMITMENT_DOMAIN_SEPARATOR,
    AURA_DCM_521_V1_COMMITMENT_ROOT_DOMAIN_SEPARATOR,
    DCM_STATE_521_CANONICAL_BYTE_LEN_V1,
    DCM_CLAIM_521_CANONICAL_BYTE_LEN_V1,
    DcmStateV1,
    advance_dcm_state_v1,
    rewind_dcm_state_v1,
    fast_forward_dcm_state_v1,
    fast_rewind_dcm_state_v1,
    coordinate_recurrence_next_v1,
    DcmConfigV1,
    DcmInputV1,
    DcmExecutionV1,
    DcmExecutionErrorV1,
    derive_trace_commitment_v1,
    DcmState521V1,
    DcmMatrix521V1,
    dcm_cat_map_matrix_521_v1,
    dcm_cat_map_inverse_matrix_521_v1,
    advance_dcm_state_521_v1,
    rewind_dcm_state_521_v1,
    fast_forward_dcm_state_521_v1,
    fast_rewind_dcm_state_521_v1,
    coordinate_recurrence_next_521_v1,
    DcmConfig521V1,
    DcmInput521V1,
    DcmExecution521V1,
    DcmExecution521ErrorV1,
    DcmTraceCommitment521ErrorV1,
    state_leaf_hash_521_v1,
    derive_trace_commitment_521_v1,
    DcmClaim521V1,
    derive_dcm_commitment_root_521_v1,
    build_dcm_claim_521_v1,
};
pub use crate::dcm_air_v1::{
    DCM_AIR_PUBLIC_INPUTS_521_CANONICAL_BYTE_LEN_V1,
    DCM_AIR_TRACE_WIDTH_V1,
    DCM_AIR_TRANSITION_CONSTRAINT_COUNT_V1,
    DcmAirTraceV1,
    DcmAirPublicInputsV1,
    DcmAirFrameV1,
    DcmAirTransitionConstraintEvaluationV1,
    DcmAirEvaluationSummaryV1,
    DcmAirEvaluationResultV1,
    DcmAirErrorV1,
    dcm_air_public_inputs_from_claim_521_v1,
    expected_next_dcm_air_row_v1,
    evaluate_dcm_air_transition_constraints_v1,
    canonical_dcm_air_trace_bytes_v1,
    validate_dcm_air_v1,
    evaluate_dcm_air_v1,
};
pub use crate::dcm_commitment_root_v1::{
    STARK_FIELD_MODULUS_V1,
    DCM_AIR_REAL_STARK_DIGIT_COUNT_V1,
    DCM_AIR_REAL_STARK_COMMITMENT_SEED_0_V1,
    DCM_AIR_REAL_STARK_COMMITMENT_SEED_1_V1,
    DCM_AIR_REAL_STARK_COMMITMENT_ITERATION_SCALE_0_V1,
    DCM_AIR_REAL_STARK_COMMITMENT_ITERATION_SCALE_1_V1,
    DCM_AIR_REAL_STARK_COMMITMENT_ROW_OFFSET_0_V1,
    DCM_AIR_REAL_STARK_COMMITMENT_ROW_OFFSET_1_V1,
    DCM_AIR_REAL_STARK_COMMITMENT_X_BASE_0_V1,
    DCM_AIR_REAL_STARK_COMMITMENT_Y_BASE_0_V1,
    DCM_AIR_REAL_STARK_COMMITMENT_X_BASE_1_V1,
    DCM_AIR_REAL_STARK_COMMITMENT_Y_BASE_1_V1,
    DCM_AIR_REAL_STARK_COMMITMENT_MIX_0_V1,
    DCM_AIR_REAL_STARK_COMMITMENT_MIX_1_V1,
    DCM_AIR_REAL_STARK_COMMITMENT_CONST_0_V1,
    DCM_AIR_REAL_STARK_COMMITMENT_CONST_1_V1,
    digits_le_from_field_element_v1,
    derive_dcm_air_commitment_root_elements_521_v1,
    derive_dcm_air_commitment_root_521_v1,
};
pub use crate::dcm_air_adapter_v1::{
    DCM_AIR_ADAPTER_PACKAGING_VERSION_V1,
    AURA_DCM_AIR_V1_TRACE_DIGEST_DOMAIN_SEPARATOR,
    AURA_DCM_AIR_V1_SESSION_ID_DOMAIN_SEPARATOR,
    DcmAirProofSessionIdV1,
    DcmAirProofSessionMetadataV1,
    ProverInputV1,
    VerifierInputV1,
    DcmAirProofSessionV1,
    DcmAirAdapterErrorV1,
    validate_packaging_invariants_v1,
    canonical_session_id_payload_v1,
    package_dcm_air_proof_session_v1,
};
pub use crate::mock_prover_v1::{
    DCM_AIR_MOCK_PROOF_VERSION_V1,
    AURA_DCM_AIR_MOCK_PROOF_V1_PUBLIC_INPUT_DOMAIN_SEPARATOR,
    AURA_DCM_AIR_MOCK_PROOF_V1_CONSTRAINT_DOMAIN_SEPARATOR,
    AURA_DCM_AIR_MOCK_PROOF_V1_PLACEHOLDER_DOMAIN_SEPARATOR,
    DcmAirMockVerifierBindingsV1,
    DcmAirMockProofArtifactV1,
    DcmAirMockProverOutputV1,
    DcmAirMockProverErrorV1,
    canonical_constraint_bytes_v1,
    canonical_session_binding_bytes_v1,
    derive_dcm_air_mock_public_input_digest_v1,
    derive_dcm_air_mock_constraint_digest_v1,
    derive_dcm_air_mock_session_id_v1,
    derive_dcm_air_mock_placeholder_digest_v1,
    prove_dcm_air_with_mock_proof_v1,
};
pub use crate::mock_verifier_v1::{
    DcmAirMockVerifierErrorV1,
    verify_dcm_air_mock_proof_v1,
};
pub use crate::stark_trace_commitment_v1::{
    STARK_TRACE_COMMITMENT_VERSION_V1,
    AURA_DCM_STARK_TRACE_V1_LEAF_DOMAIN_SEPARATOR,
    AURA_DCM_STARK_TRACE_V1_NODE_DOMAIN_SEPARATOR,
    StarkTraceCommitmentV1,
    StarkTraceMerkleOpeningV1,
    StarkTraceCommitmentTreeV1,
    StarkTraceCommitmentErrorV1,
    build_stark_trace_commitment_tree_v1,
    derive_stark_trace_tree_height_from_leaf_count_v1,
    verify_stark_trace_merkle_opening_v1,
};
pub use crate::stark_transcript_v1::{
    STARK_TRANSCRIPT_VERSION_V1,
    AURA_DCM_STARK_TRANSCRIPT_V1_PUBLIC_INPUT_DOMAIN_SEPARATOR,
    AURA_DCM_STARK_TRANSCRIPT_V1_TRANSCRIPT_DOMAIN_SEPARATOR,
    AURA_DCM_STARK_TRANSCRIPT_V1_QUERY_DOMAIN_SEPARATOR,
    DcmAirStarkTranscriptV1,
    DcmAirStarkTranscriptErrorV1,
    derive_dcm_air_stark_public_input_digest_v1,
    derive_dcm_air_stark_transcript_v1,
};
pub use crate::stark_prover_v1::{
    DCM_AIR_STARK_PROOF_SCAFFOLD_VERSION_V1,
    AURA_DCM_AIR_STARK_PROOF_SCAFFOLD_V1_DOMAIN_SEPARATOR,
    DcmAirStarkOpeningMetadataV1,
    DcmAirStarkTransitionOpeningsV1,
    DcmAirStarkProofArtifactV1,
    DcmAirStarkProverErrorV1,
    canonical_trace_opening_bytes_v1,
    derive_dcm_air_stark_proof_artifact_digest_v1,
    prove_dcm_air_stark_scaffold_v1,
    DCM_AIR_REAL_STARK_LIMB_DIGIT_WIDTH_V1,
    DCM_AIR_REAL_STARK_LIMB_COUNT_V1,
    DCM_AIR_REAL_STARK_LIMB_BASE_V1,
    u28_limbs_from_digits_le_v1,
    field_modulus_521_digits_le_v1,
    state_coordinate_digits_le_v1,
    solve_mod_relation_v1,
};
pub use crate::stark_verifier_v1::{
    DcmAirStarkVerifierAcceptanceV1,
    DcmAirStarkVerifierErrorV1,
    verify_dcm_air_stark_scaffold_v1,
};
pub use crate::dcm_air_real_stark_v1::{
    DCM_AIR_REAL_STARK_PROOF_VERSION_V1,
    DCM_AIR_REAL_STARK_BACKEND_WINTERFELL_V1,
    AURA_DCM_AIR_REAL_STARK_PROOF_BYTES_DOMAIN_SEPARATOR,
    AURA_DCM_AIR_REAL_STARK_PROOF_BINDING_DOMAIN_SEPARATOR,
    DCM_AIR_REAL_STARK_MIN_TRACE_LENGTH_V1,
    DCM_AIR_REAL_STARK_TRACE_WIDTH_V1,
    DCM_AIR_REAL_STARK_BACKEND_CONSTRAINT_COUNT_V1,
    DcmAirRealStarkProofArtifactV1,
    DcmAirRealStarkProverErrorV1,
    DcmAirRealStarkVerifierAcceptanceV1,
    DcmAirRealStarkVerifierErrorV1,
    derive_real_stark_internal_trace_length_v1,
    derive_dcm_air_real_stark_proof_bytes_digest_v1,
    derive_dcm_air_real_stark_proof_binding_digest_v1,
    assemble_dcm_air_real_stark_artifact_v1,
    check_dcm_air_real_stark_artifact_v1,
};
pub use crate::dcm_air_real_stark_trace_v1::{
    DcmAirRealStarkTraceRowV1,
    real_stark_trace_row_v1,
    build_dcm_air_real_stark_trace_rows_v1,
    DcmAirRealStarkBoundaryV1,
    real_stark_boundary_v1,
    real_stark_assertion_count_v1,
};
