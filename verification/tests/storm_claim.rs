use aura_intent_lineage_v1::{
    AURA_STORM_CONTEXT_HASH_V1_DOMAIN_SEPARATOR,
    STORM_CLAIM_521_V1_VERSION,
    STORM_CONTEXT_V1_VERSION,
    STORM_MODULUS_ID_521_V1,
    StormClaimErrorV1,
    StormContextV1,
    StormExecutionInputsV1,
    build_storm_claim_v1,
    build_storm_public_inputs_v1,
};

fn sample_inputs() -> StormExecutionInputsV1 {
    StormExecutionInputsV1 {
        side_a: [0x11; 110],
        side_b: [0x22; 110],
        context_bytes_v1: StormContextV1 {
            context_version: STORM_CONTEXT_V1_VERSION,
            network_id: [0x33; 32],
            intent_hash: [0x44; 32],
            freshness_nonce: [0x55; 32],
            valid_from: 12,
            valid_until: 34,
            controller_id: [0x66; 32],
            route_tag: [0x77; 32],
        }
        .to_bytes(),
        iteration_count: 3,
    }
}

#[test]
fn built_storm_claim_validates() {
    let claim = build_storm_claim_v1(&sample_inputs(), [0u8; 32], [0u8; 32]);

    assert_eq!(claim.version, STORM_CLAIM_521_V1_VERSION);
    assert_eq!(claim.modulus_id, STORM_MODULUS_ID_521_V1);
    claim.validate().unwrap();
}

#[test]
fn public_inputs_bind_claim_surfaces() {
    let claim = build_storm_claim_v1(&sample_inputs(), [1u8; 32], [2u8; 32]);
    let public_inputs = build_storm_public_inputs_v1(&claim);

    assert_eq!(public_inputs.version, claim.version);
    assert_eq!(public_inputs.final_state, claim.final_state);
    assert_eq!(public_inputs.trace_root, claim.trace_root);
    assert_ne!(public_inputs.context_hash, [0u8; 32]);
    assert!(!AURA_STORM_CONTEXT_HASH_V1_DOMAIN_SEPARATOR.is_empty());
}

#[test]
fn claim_header_is_checked_before_the_execution_is_sized() {
    let mut claim = build_storm_claim_v1(&sample_inputs(), [0u8; 32], [0u8; 32]);
    claim.iteration_count = u64::MAX;
    claim.version = 2;
    assert_eq!(
        claim.validate(),
        Err(StormClaimErrorV1::InvalidVersion { expected: STORM_CLAIM_521_V1_VERSION, actual: 2 })
    );
    claim.version = STORM_CLAIM_521_V1_VERSION;
    claim.modulus_id = 9;
    assert_eq!(
        claim.validate(),
        Err(StormClaimErrorV1::InvalidModulusId { expected: STORM_MODULUS_ID_521_V1, actual: 9 })
    );
}
