//! Aura's chain-neutral Storm execution, claim and witness-verification core:
//! canonical message preparation, 521-bit field arithmetic, Storm derivation and
//! execution, trace commitments, claims and the legacy cat-map layer.

mod limbs_521_v1;
mod field_521_v1;
mod encoding_v1;
mod digest_v1;
mod storm_hash521_v1;
mod storm_state_v1;
mod storm_trace_commitment_v1;
mod storm_context_v1;
mod storm_execution_v1;
mod storm_claim_v1;
mod storm_encryption_binding_v1;
mod session_encryption_context_v1;
mod storm_air_v1;
mod aura_hash_v1;
mod commitment_521_v1;
mod cat_matrix_v1;
mod dcm_v1;
mod dcm_air_v1;
mod dcm_commitment_root_v1;
mod dcm_air_adapter_v1;
mod storm_air_real_proof_v1;
mod lower_layer_execution_commitment_v2;
mod mock_prover_v1;
mod mock_verifier_v1;
mod stark_trace_commitment_v1;
mod stark_transcript_v1;
/// Experimental hierarchical overlay of Storm execution, outside claims and wires.
pub mod storm_hierarchy_v2;
mod session_key_v1;
mod stark_prover_v1;
mod stark_verifier_v1;
mod dcm_air_real_stark_v1;
mod dcm_air_real_stark_trace_v1;
pub mod legacy;

pub use crate::field_521_v1::{
    FIELD_ELEMENT_521_BYTE_LEN_V1,
    FIELD_ELEMENT_521_LIMB_COUNT_V1,
    FIELD_MODULUS_521_V1,
    FieldElement521V1,
    FieldElementErrorV1,
};
pub use crate::encoding_v1::{
    append_bytes,
    u64_to_le_bytes,
    u64_from_le_bytes,
    u128_from_le_bytes,
    copy_range_into,
    u128_to_le_bytes,
    u64_to_le_vec,
    copy_subrange,
};
pub use crate::digest_v1::{
    HASH_LEN_V1,
};
pub use crate::storm_hash521_v1::{
    AURA_HASH521_V1_OUTPUT_BITS,
    AURA_HASH521_V1_OUTPUT_BYTES,
    aura_hash521_v1,
};
pub use crate::storm_state_v1::{
    STORM_STATE_521_ROW_BYTE_LEN_V1,
    StormState521V1,
    StormStateEncodingErrorV1,
    decode_row_bytes,
};
pub use crate::storm_trace_commitment_v1::{
    StormTraceRootV1,
    storm_leaf_hash,
    merkle_parent,
    compute_storm_trace_root_from_rows,
    compute_storm_trace_root,
};
pub use crate::storm_context_v1::{
    STORM_CONTEXT_V1_VERSION,
    STORM_CONTEXT_V1_LEN,
    STORM_CONTEXT_V1_EXECUTION_DOMAIN_LABEL,
    StormContextV1,
    StormContextErrorV1,
    execution_domain_v1,
    validate_context_bytes_v1,
};
pub use crate::storm_execution_v1::{
    STORM_SIDE_INPUT_LEN_V1,
    AURA_X0_V1_DOMAIN_SEPARATOR,
    AURA_Y0_V1_DOMAIN_SEPARATOR,
    AURA_C_A_V1_DOMAIN_SEPARATOR,
    AURA_C_B_V1_DOMAIN_SEPARATOR,
    AURA_STORM_X_V1_DOMAIN_SEPARATOR,
    AURA_STORM_Y_V1_DOMAIN_SEPARATOR,
    StormExecutionInputsV1,
    StormExecutionResultV1,
    StormExecutionErrorV1,
    derive_x0,
    derive_y0,
    derive_a,
    derive_b,
    encode_step_u64_le,
    derive_phi_n,
    derive_psi_n,
    storm_step,
    build_storm_trace,
    execute_storm_v1,
};
pub use crate::storm_claim_v1::{
    STORM_CLAIM_521_V1_VERSION,
    STORM_MODULUS_ID_521_V1,
    STORM_CLAIM_521_CANONICAL_BYTE_LEN_V1,
    STORM_PUBLIC_INPUTS_521_CANONICAL_BYTE_LEN_V1,
    AURA_STORM_SIDE_A_HASH_V1_DOMAIN_SEPARATOR,
    AURA_STORM_SIDE_B_HASH_V1_DOMAIN_SEPARATOR,
    AURA_STORM_CONTEXT_HASH_V1_DOMAIN_SEPARATOR,
    StormClaim521V1,
    StormPublicInputs521V1,
    StormClaimErrorV1,
    StormClaimEncodingErrorV1,
    decode_storm_claim_canonical_bytes_v1,
    build_storm_claim_v1,
    build_storm_public_inputs_v1,
};
pub use crate::storm_encryption_binding_v1::{
    STORM_ENCRYPTION_BINDING_V1_LEN,
    AURA_STORM_ENCRYPTION_BINDING_V1_DOMAIN_SEPARATOR,
    StormEncryptionBindingV1,
    StormEncryptionBindingErrorV1,
    build_storm_encryption_binding_v1,
    validate_storm_encryption_binding_v1,
    encode_storm_encryption_binding_v1,
    derive_storm_encryption_binding_hash_v1,
};
pub use crate::session_encryption_context_v1::{
    SESSION_ENCRYPTION_CONTEXT_V1_VERSION,
    SESSION_ENCRYPTION_CONTEXT_V1_LEN,
    AuraSessionEncryptionContextV1,
    StormSessionEncryptionFieldsV1,
    SessionEncryptionContextErrorV1,
    validate_session_encryption_context_v1,
    encode_session_encryption_context_v1,
    extract_storm_session_encryption_fields_v1,
};
pub use crate::storm_air_v1::{
    StormAirPublicInputsV1,
    STORM_AIR_PUBLIC_INPUTS_521_CANONICAL_BYTE_LEN_V1,
    STORM_TRACE_STEP_WITNESS_521_CANONICAL_BYTE_LEN_V1,
    StormTraceWitnessV1,
    StormTraceStepWitnessV1,
    StormTraceWitnessEncodingErrorV1,
    StormAirValidationErrorV1,
    build_storm_air_public_inputs_v1,
    build_storm_trace_witness_v1,
    validate_trace_against_claim,
    validate_trace_witness_against_claim,
    canonical_storm_trace_witness_bytes_v1,
    decode_storm_trace_witness_bytes_v1,
};
pub use crate::storm_air_real_proof_v1::{
    STORM_AIR_REAL_PROOF_VERSION_V1,
    STORM_AIR_REAL_PROOF_BACKEND_WITNESS_V1,
    STORM_AIR_REAL_PROOF_TRACE_WIDTH_V1,
    STORM_AIR_REAL_PROOF_CONSTRAINT_COUNT_V1,
    AURA_STORM_AIR_REAL_PUBLIC_INPUT_DIGEST_V1_DOMAIN_SEPARATOR,
    AURA_STORM_AIR_REAL_PROOF_BYTES_V1_DOMAIN_SEPARATOR,
    AURA_STORM_AIR_REAL_PROOF_BINDING_V1_DOMAIN_SEPARATOR,
    StormAirRealProofArtifactV1,
    StormAirRealProverErrorV1,
    StormAirRealProofDecodeErrorV1,
    StormAirRealVerifierAcceptanceV1,
    StormAirRealVerifierErrorV1,
    derive_storm_air_real_public_input_digest_v1,
    derive_storm_air_real_proof_bytes_digest_v1,
    derive_storm_air_real_proof_binding_digest_v1,
    canonical_storm_real_proof_bytes_v1,
    decode_storm_real_proof_bytes_v1,
    prove_storm_air_real_v1,
    decode_storm_air_real_artifact_v1,
    verify_storm_public_inputs_match_claim_v1,
    verify_storm_air_real_v1,
};
pub use crate::session_key_v1::{
    SESSION_KEY_MATERIAL_V1_LEN,
    AURA_SESSION_KEY_ID_V1_DOMAIN_SEPARATOR,
    AURA_SESSION_SYMMETRIC_KEY_V1_DOMAIN_SEPARATOR,
    AURA_SESSION_SYMMETRIC_KEY_V1_INFO_LABEL,
    SessionPublicKeyV1,
    SessionSecretKeyV1,
    SharedSecretV1,
    SessionKeyDerivationInputV1,
    SessionSymmetricKeyV1,
    SessionKeyV1Error,
    derive_session_public_key_v1,
    generate_session_keypair_v1,
    derive_shared_secret_v1,
    derive_session_key_id_v1,
    derive_session_symmetric_key_v1,
};
pub use crate::aura_hash_v1::{
    canonical_message_bytes_v1,
    canonical_text_payload_bytes_v1,
    canonical_text_payload_bytes_from_text_v1,
    decode_and_normalize_message_utf8_v1,
    normalize_text_message_v1,
    AuraHashV1Error,
    AURA_HASH_V1_BOM_CODEPOINT,
    AURA_HASH_V1_LENGTH_PREFIX_BYTES,
};
