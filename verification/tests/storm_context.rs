use aura_intent_lineage_v1::{
    STORM_CONTEXT_V1_LEN,
    STORM_CONTEXT_V1_VERSION,
    StormContextErrorV1,
    StormContextV1,
    execution_domain_v1,
    validate_context_bytes_v1,
};

fn sample_context() -> StormContextV1 {
    StormContextV1 {
        context_version: STORM_CONTEXT_V1_VERSION,
        network_id: [0x11; 32],
        intent_hash: [0x22; 32],
        freshness_nonce: [0x33; 32],
        valid_from: 17,
        valid_until: 42,
        controller_id: [0x44; 32],
        route_tag: [0x55; 32],
    }
}

#[test]
fn storm_context_serializes_to_exact_209_bytes() {
    let bytes = sample_context().to_bytes();

    assert_eq!(bytes.len(), STORM_CONTEXT_V1_LEN);
    assert_eq!(bytes[0], STORM_CONTEXT_V1_VERSION);
    assert_eq!(&bytes[33..65], execution_domain_v1().as_slice());
}

#[test]
fn validator_rejects_wrong_execution_domain() {
    let mut bytes = sample_context().to_bytes();
    bytes[33] ^= 0xff;

    let error = validate_context_bytes_v1(&bytes).unwrap_err();
    assert!(matches!(
        error,
        StormContextErrorV1::InvalidExecutionDomain { .. }
    ));
}
