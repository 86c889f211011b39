//! The lower-layer execution commitment of the layered authorization pipeline.

pub use crate::lower_layer_execution_commitment_v2::{
    LOWER_LAYER_EXECUTION_COMMITMENT_V2_VERSION,
    AURA_LOWER_LAYER_EXECUTION_COMMITMENT_V2_DOMAIN_SEPARATOR,
    AURA_LOWER_LAYER_EXECUTION_COMMITMENT_STORM_V1_DOMAIN_SEPARATOR,
    DCM_CLAIM_521_V2_CANONICAL_BYTE_LEN_V1,
    LowerLayerExecutionCommitmentV2,
    DcmClaim521V2,
    LowerLayerExecutionCommitmentV2Error,
    LowerLayerExecutionCommitmentStormV1,
    canonical_lower_layer_execution_commitment_material_bytes_v2,
    derive_lower_layer_execution_commitment_v2,
    build_dcm_claim_521_v2,
    build_lower_layer_execution_commitment_storm_v1,
    derive_lower_layer_execution_commitment_v2_from_storm_v1,
};
