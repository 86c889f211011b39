use aura_intent_lineage_v1::{
    FieldElement521V1,
    StormContextV1,
    StormExecutionErrorV1,
    StormExecutionInputsV1,
    FIELD_ELEMENT_521_BYTE_LEN_V1,
    FIELD_MODULUS_521_V1,
    STORM_CONTEXT_V1_VERSION,
};
use aura_intent_lineage_v1::legacy::catmap_v1::{
    derive_deterministic_commitment_521_v1,
    DcmConfig521V1,
    DcmExecution521V1,
    DcmInput521V1,
};
use aura_intent_lineage_v1::legacy::proof_pipeline_v1::{
    build_dcm_claim_521_v2,
    build_lower_layer_execution_commitment_storm_v1,
    canonical_lower_layer_execution_commitment_material_bytes_v2,
    derive_lower_layer_execution_commitment_v2,
    derive_lower_layer_execution_commitment_v2_from_storm_v1,
    LowerLayerExecutionCommitmentV2,
    LowerLayerExecutionCommitmentV2Error,
    AURA_LOWER_LAYER_EXECUTION_COMMITMENT_STORM_V1_DOMAIN_SEPARATOR,
    AURA_LOWER_LAYER_EXECUTION_COMMITMENT_V2_DOMAIN_SEPARATOR,
    DCM_CLAIM_521_V2_CANONICAL_BYTE_LEN_V1,
};

fn canonical_config() -> DcmConfig521V1 {
    DcmConfig521V1 { iteration_count: 2 }
}

fn max_minus_one() -> FieldElement521V1 {
    let mut bytes = FIELD_MODULUS_521_V1;
    bytes[FIELD_ELEMENT_521_BYTE_LEN_V1 - 1] = 0xfe;
    FieldElement521V1::from_bytes(bytes).unwrap()
}

fn small_value(value: u8) -> FieldElement521V1 {
    let mut bytes = [0u8; FIELD_ELEMENT_521_BYTE_LEN_V1];
    bytes[FIELD_ELEMENT_521_BYTE_LEN_V1 - 1] = value;
    FieldElement521V1::from_bytes(bytes).unwrap()
}

fn canonical_execution() -> DcmExecution521V1 {
    DcmExecution521V1::run(
        &canonical_config(),
        &DcmInput521V1 { x0: max_minus_one(), y0: small_value(1) },
    )
    .unwrap()
}

#[test]
fn lower_layer_execution_commitment_v2_is_deterministic() {
    let config = canonical_config();
    let execution = canonical_execution();

    let first = derive_lower_layer_execution_commitment_v2(&config, &execution).unwrap();
    let second = derive_lower_layer_execution_commitment_v2(&config, &execution).unwrap();

    assert_eq!(first, second);
    assert!(!first.is_zero());
}

#[test]
fn lower_layer_execution_commitment_v2_changes_when_execution_changes() {
    let first = canonical_execution();
    let second = DcmExecution521V1::run(&canonical_config(), &DcmInput521V1::from_u64(5, 8)).unwrap();

    let first_commitment = derive_lower_layer_execution_commitment_v2(&canonical_config(), &first).unwrap();
    let second_commitment = derive_lower_layer_execution_commitment_v2(&canonical_config(), &second).unwrap();

    assert_ne!(first_commitment, second_commitment);
}

#[test]
fn lower_layer_execution_commitment_v2_rejects_tampered_legacy_trace_helper() {
    let config = canonical_config();
    let mut execution = canonical_execution();
    execution.trace_commitment[0] ^= 0x80;

    let error = derive_lower_layer_execution_commitment_v2(&config, &execution).unwrap_err();
    assert!(matches!(
        error,
        LowerLayerExecutionCommitmentV2Error::LegacyTraceCommitmentMismatch { .. }
    ));
}

#[test]
fn dcm_claim_521_v2_binds_authoritative_and_legacy_roots() {
    let config = canonical_config();
    let execution = canonical_execution();
    let claim = build_dcm_claim_521_v2(&config, &execution).unwrap();

    assert_eq!(claim.claim_version, 2);
    assert_eq!(claim.trace_state_count(), execution.trace_length);
    assert_eq!(claim.initial_state, execution.states[0]);
    assert_eq!(claim.final_state, execution.final_state);
    assert_eq!(claim.legacy_trace_commitment, execution.trace_commitment);
    assert_eq!(claim.canonical_bytes().len(), DCM_CLAIM_521_V2_CANONICAL_BYTE_LEN_V1);
}

#[test]
fn canonical_material_bytes_match_domain_commitment_replay() {
    let config = canonical_config();
    let execution = canonical_execution();
    let material =
        canonical_lower_layer_execution_commitment_material_bytes_v2(&config, &execution).unwrap();
    let expected = derive_deterministic_commitment_521_v1(
        &AURA_LOWER_LAYER_EXECUTION_COMMITMENT_V2_DOMAIN_SEPARATOR,
        &material,
    );
    let actual = derive_lower_layer_execution_commitment_v2(&config, &execution).unwrap();

    assert_eq!(expected, actual.as_commitment());
}

#[test]
fn material_bytes_have_the_documented_layout() {
    let config = canonical_config();
    let execution = canonical_execution();
    let material =
        canonical_lower_layer_execution_commitment_material_bytes_v2(&config, &execution).unwrap();
    assert_eq!(material.len(), 1 + 66 + 8 + 8 + 132 + 132 + 8 + 3 * 132);
    assert_eq!(material[0], 2);
    assert_eq!(&material[1..67], &FIELD_MODULUS_521_V1[..]);
    assert_eq!(&material[67..75], &2u64.to_le_bytes());
    assert_eq!(&material[75..83], &3u64.to_le_bytes());
    assert_eq!(&material[347..355], &3u64.to_le_bytes());
}

#[test]
fn helper_checks_report_each_inconsistency() {
    let config = canonical_config();
    let mut empty = canonical_execution();
    empty.states.clear();
    assert_eq!(
        derive_lower_layer_execution_commitment_v2(&config, &empty).unwrap_err(),
        LowerLayerExecutionCommitmentV2Error::EmptyTrace
    );
    let mut length = canonical_execution();
    length.trace_length = 9;
    assert_eq!(
        derive_lower_layer_execution_commitment_v2(&config, &length).unwrap_err(),
        LowerLayerExecutionCommitmentV2Error::TraceLengthFieldMismatch { expected: 3, actual: 9 }
    );
    let mut last = canonical_execution();
    let initial_final = last.final_state;
    last.final_state = last.states[0];
    assert_eq!(
        derive_lower_layer_execution_commitment_v2(&config, &last).unwrap_err(),
        LowerLayerExecutionCommitmentV2Error::FinalStateFieldMismatch {
            expected: initial_final,
            actual: last.states[0],
        }
    );
    let mut transition = canonical_execution();
    transition.states[1] = transition.states[0];
    assert!(matches!(
        derive_lower_layer_execution_commitment_v2(&config, &transition).unwrap_err(),
        LowerLayerExecutionCommitmentV2Error::LegacyTraceCommitmentRejected(_)
    ));
}

#[test]
fn commitment_round_trips_through_its_bytes() {
    let commitment =
        derive_lower_layer_execution_commitment_v2(&canonical_config(), &canonical_execution()).unwrap();
    let bytes = commitment.to_bytes();
    assert_eq!(LowerLayerExecutionCommitmentV2::from_bytes(bytes).unwrap(), commitment);
    assert!(LowerLayerExecutionCommitmentV2::from_bytes([0xff; 66]).is_err());
}

fn storm_inputs() -> StormExecutionInputsV1 {
    StormExecutionInputsV1 {
        side_a: [0x91; 110],
        side_b: [0x19; 110],
        context_bytes_v1: StormContextV1 {
            context_version: STORM_CONTEXT_V1_VERSION,
            network_id: [0x10; 32],
            intent_hash: [0x20; 32],
            freshness_nonce: [0x30; 32],
            valid_from: 7,
            valid_until: 11,
            controller_id: [0x40; 32],
            route_tag: [0x50; 32],
        }
        .to_bytes(),
        iteration_count: 3,
    }
}

#[test]
fn storm_material_frames_every_trace_row() {
    let material = build_lower_layer_execution_commitment_storm_v1(&storm_inputs()).unwrap();
    assert_eq!(material.canonical_trace_bytes.len(), 4 * 132);
    let bytes = material.canonical_bytes();
    assert_eq!(bytes.len(), 2 + 8 + 110 + 110 + 209 + 132 + 132 + 66 + 66 + 8 + 4 * 132 + 32);
    let commitment = derive_lower_layer_execution_commitment_v2_from_storm_v1(&material);
    let replay = derive_deterministic_commitment_521_v1(
        &AURA_LOWER_LAYER_EXECUTION_COMMITMENT_STORM_V1_DOMAIN_SEPARATOR,
        &bytes,
    );
    assert_eq!(commitment.as_commitment(), replay);
}

#[test]
fn storm_material_rejects_an_invalid_context() {
    let mut inputs = storm_inputs();
    inputs.context_bytes_v1[0] = 9;
    assert!(matches!(
        build_lower_layer_execution_commitment_storm_v1(&inputs).unwrap_err(),
        StormExecutionErrorV1::InvalidContext(_)
    ));
}
