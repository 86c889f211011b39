use aura_intent_lineage_v1::{
    STORM_CONTEXT_V1_VERSION,
    StormAirValidationErrorV1,
    StormTraceWitnessEncodingErrorV1,
    StormContextV1,
    StormExecutionInputsV1,
    build_storm_air_public_inputs_v1,
    build_storm_claim_v1,
    build_storm_trace_witness_v1,
    canonical_storm_trace_witness_bytes_v1,
    decode_storm_trace_witness_bytes_v1,
    execute_storm_v1,
    validate_trace_against_claim,
    validate_trace_witness_against_claim,
};

fn sample_inputs() -> StormExecutionInputsV1 {
    StormExecutionInputsV1 {
        side_a: [0x91; 110],
        side_b: [0x19; 110],
        context_bytes_v1: StormContextV1 {
            context_version: STORM_CONTEXT_V1_VERSION,
            network_id: [0x10; 32],
            intent_hash: [0x20; 32],
            freshness_nonce: [0x30; 32],
            valid_from: 1,
            valid_until: 2,
            controller_id: [0x40; 32],
            route_tag: [0x50; 32],
        }
        .to_bytes(),
        iteration_count: 4,
    }
}

#[test]
fn trace_validator_accepts_canonical_execution() {
    let inputs = sample_inputs();
    let execution = execute_storm_v1(&inputs);
    let claim = build_storm_claim_v1(&inputs, [0u8; 32], [0u8; 32]);

    validate_trace_against_claim(&claim, &execution.trace).unwrap();
}

#[test]
fn trace_witness_builder_produces_air_ready_material() {
    let inputs = sample_inputs();
    let claim = build_storm_claim_v1(&inputs, [0u8; 32], [0u8; 32]);
    let witness = build_storm_trace_witness_v1(&claim).unwrap();

    assert_eq!(witness.public_inputs, build_storm_air_public_inputs_v1(&claim));
    assert_eq!(witness.trace_root, claim.trace_root);
    assert_eq!(witness.trace.len(), 5);
    assert_eq!(witness.steps.len(), 4);
    validate_trace_witness_against_claim(&claim, &witness).unwrap();
}

#[test]
fn trace_witness_validator_rejects_tampered_forcing() {
    let inputs = sample_inputs();
    let claim = build_storm_claim_v1(&inputs, [0u8; 32], [0u8; 32]);
    let mut witness = build_storm_trace_witness_v1(&claim).unwrap();
    witness.steps[0].phi_n = witness.steps[1].phi_n;

    let error = validate_trace_witness_against_claim(&claim, &witness).unwrap_err();
    assert_eq!(
        error,
        StormAirValidationErrorV1::ForcingMismatch {
            index: 0,
            field: "phi_n",
        }
    );
}

#[test]
fn trace_witness_bytes_round_trip() {
    let inputs = sample_inputs();
    let claim = build_storm_claim_v1(&inputs, [0u8; 32], [0u8; 32]);
    let witness = build_storm_trace_witness_v1(&claim).unwrap();
    let encoded = canonical_storm_trace_witness_bytes_v1(&witness);
    let decoded = decode_storm_trace_witness_bytes_v1(&encoded).unwrap();

    assert_eq!(decoded, witness);
}

#[test]
fn trace_validator_rejects_repeated_states() {
    let inputs = sample_inputs();
    let claim = build_storm_claim_v1(&inputs, [0u8; 32], [0u8; 32]);
    let mut trace = execute_storm_v1(&inputs).trace;
    trace[4] = trace[1];

    let error = validate_trace_against_claim(&claim, &trace).unwrap_err();
    assert_eq!(
        error,
        StormAirValidationErrorV1::RepeatedState {
            first_index: 1,
            second_index: 4,
        }
    );
}

#[test]
fn trace_witness_decoding_refuses_trailing_and_short_bytes() {
    let inputs = sample_inputs();
    let claim = build_storm_claim_v1(&inputs, [0u8; 32], [0u8; 32]);
    let witness = build_storm_trace_witness_v1(&claim).unwrap();
    let encoded = canonical_storm_trace_witness_bytes_v1(&witness);
    // 402 + 66 + 66 + 32 + 8 + 5 * 132 + 8 + 4 * 404 bytes.
    assert_eq!(encoded.len(), 582 + 5 * 132 + 4 * 404);

    let mut long = encoded.clone();
    long.push(0);
    assert_eq!(
        decode_storm_trace_witness_bytes_v1(&long).unwrap_err(),
        StormTraceWitnessEncodingErrorV1::TrailingBytes { remaining: 1 }
    );

    let short = encoded[..encoded.len() - 1].to_vec();
    assert!(matches!(
        decode_storm_trace_witness_bytes_v1(&short).unwrap_err(),
        StormTraceWitnessEncodingErrorV1::InvalidLength { field: "psi_n", expected: 66, actual: 65 }
    ));
}

#[test]
fn trace_witness_decoding_refuses_a_non_canonical_element() {
    let inputs = sample_inputs();
    let claim = build_storm_claim_v1(&inputs, [0u8; 32], [0u8; 32]);
    let witness = build_storm_trace_witness_v1(&claim).unwrap();
    let mut encoded = canonical_storm_trace_witness_bytes_v1(&witness);
    // The top byte of `a` may only be 0 or 1.
    encoded[402] = 0xff;
    assert!(matches!(
        decode_storm_trace_witness_bytes_v1(&encoded).unwrap_err(),
        StormTraceWitnessEncodingErrorV1::InvalidFieldElement { field: "a", .. }
    ));
}

#[test]
fn trace_witness_validator_reports_each_stage_in_order() {
    let inputs = sample_inputs();
    let claim = build_storm_claim_v1(&inputs, [0u8; 32], [0u8; 32]);
    let witness = build_storm_trace_witness_v1(&claim).unwrap();

    let mut swapped_constants = witness.clone();
    swapped_constants.a = witness.b;
    assert_eq!(
        validate_trace_witness_against_claim(&claim, &swapped_constants).unwrap_err(),
        StormAirValidationErrorV1::GeometryMismatch { field: "a" }
    );

    let mut short_trace = witness.clone();
    short_trace.trace.pop();
    assert_eq!(
        validate_trace_witness_against_claim(&claim, &short_trace).unwrap_err(),
        StormAirValidationErrorV1::TraceLengthMismatch { expected: 5, actual: 4 }
    );

    let mut wrong_root = witness.clone();
    wrong_root.trace_root[0] ^= 0x01;
    assert_eq!(
        validate_trace_witness_against_claim(&claim, &wrong_root).unwrap_err(),
        StormAirValidationErrorV1::TraceRootMismatch {
            expected: witness.trace_root,
            actual: wrong_root.trace_root,
        }
    );

    let mut short_steps = witness.clone();
    short_steps.steps.pop();
    assert_eq!(
        validate_trace_witness_against_claim(&claim, &short_steps).unwrap_err(),
        StormAirValidationErrorV1::StepCountMismatch { expected: 4, actual: 3 }
    );

    let mut wrong_index = witness.clone();
    wrong_index.steps[2].step_index = 7;
    assert_eq!(
        validate_trace_witness_against_claim(&claim, &wrong_index).unwrap_err(),
        StormAirValidationErrorV1::StepIndexMismatch { expected: 2, actual: 7 }
    );

    let mut wrong_next = witness.clone();
    wrong_next.steps[1].next_state = witness.trace[3];
    assert_eq!(
        validate_trace_witness_against_claim(&claim, &wrong_next).unwrap_err(),
        StormAirValidationErrorV1::StepStateMismatch { index: 1, field: "next_state" }
    );
}

#[test]
fn witness_builder_passes_on_the_claim_error() {
    let inputs = sample_inputs();
    let mut claim = build_storm_claim_v1(&inputs, [0u8; 32], [0u8; 32]);
    claim.final_state = claim.initial_state;
    let expected = claim.validate().unwrap_err();
    assert_eq!(
        build_storm_trace_witness_v1(&claim).unwrap_err(),
        StormAirValidationErrorV1::InvalidClaim(expected)
    );
}
