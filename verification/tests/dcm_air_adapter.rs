use aura_intent_lineage_v1::{
    FieldElement521V1,
    FIELD_ELEMENT_521_BYTE_LEN_V1,
    FIELD_MODULUS_521_V1,
    HASH_LEN_V1,
};
use aura_intent_lineage_v1::legacy::catmap_v1::{
    build_dcm_claim_521_v1,
    canonical_session_id_payload_v1,
    dcm_air_public_inputs_from_claim_521_v1,
    package_dcm_air_proof_session_v1,
    validate_packaging_invariants_v1,
    DcmAirAdapterErrorV1,
    DcmAirEvaluationSummaryV1,
    DcmAirPublicInputsV1,
    DcmAirTraceV1,
    DcmConfig521V1,
    DcmExecution521V1,
    DcmInput521V1,
    DCM_AIR_PUBLIC_INPUTS_521_CANONICAL_BYTE_LEN_V1,
    DCM_AIR_TRACE_WIDTH_V1,
    DCM_AIR_TRANSITION_CONSTRAINT_COUNT_V1,
};

fn canonical_trace() -> DcmAirTraceV1 {
    DcmAirTraceV1::new(canonical_execution().states)
}

fn canonical_execution() -> DcmExecution521V1 {
    DcmExecution521V1::run(
        &DcmConfig521V1 { iteration_count: 2 },
        &DcmInput521V1 { x0: pinned_x0(), y0: small_value(1) },
    )
    .unwrap()
}

fn canonical_public_inputs() -> DcmAirPublicInputsV1 {
    let config = DcmConfig521V1 { iteration_count: 2 };
    let input = DcmInput521V1 { x0: pinned_x0(), y0: small_value(1) };
    let execution = canonical_execution();
    dcm_air_public_inputs_from_claim_521_v1(&build_dcm_claim_521_v1(&config, &input, &execution))
}

fn alternate_trace() -> DcmAirTraceV1 {
    DcmAirTraceV1::new(
        DcmExecution521V1::run(
            &DcmConfig521V1 { iteration_count: 3 },
            &DcmInput521V1 { x0: zero(), y0: small_value(1) },
        )
        .unwrap()
        .states,
    )
}

fn alternate_public_inputs() -> DcmAirPublicInputsV1 {
    let config = DcmConfig521V1 { iteration_count: 3 };
    let input = DcmInput521V1 { x0: zero(), y0: small_value(1) };
    let execution = DcmExecution521V1::run(&config, &input).unwrap();
    dcm_air_public_inputs_from_claim_521_v1(&build_dcm_claim_521_v1(&config, &input, &execution))
}

fn pinned_x0() -> FieldElement521V1 {
    let mut bytes = FIELD_MODULUS_521_V1;
    bytes[FIELD_ELEMENT_521_BYTE_LEN_V1 - 1] = 0xfe;
    FieldElement521V1::from_bytes(bytes).unwrap()
}

fn zero() -> FieldElement521V1 {
    FieldElement521V1::zero()
}

fn small_value(value: u8) -> FieldElement521V1 {
    let mut bytes = [0u8; FIELD_ELEMENT_521_BYTE_LEN_V1];
    bytes[FIELD_ELEMENT_521_BYTE_LEN_V1 - 1] = value;
    FieldElement521V1::from_bytes(bytes).unwrap()
}

#[test]
fn packaging_invariants_reject_summary_row_count_mismatch() {
    let trace = canonical_trace();
    let public_inputs = canonical_public_inputs();
    let invalid_summary = DcmAirEvaluationSummaryV1 {
        row_count: 4,
        checked_transition_count: 2,
        first_row: canonical_public_inputs().initial_state,
        final_row: canonical_public_inputs().final_state,
    };

    assert_eq!(
        validate_packaging_invariants_v1(&public_inputs, &trace, &invalid_summary),
        Err(DcmAirAdapterErrorV1::PackagingInvariantViolation { field: "row_count" })
    );
}

#[test]
fn verifier_visible_payload_is_fixed_width_and_trace_free() {
    let short_session =
        package_dcm_air_proof_session_v1(&canonical_public_inputs(), &canonical_trace()).unwrap();
    let long_session =
        package_dcm_air_proof_session_v1(&alternate_public_inputs(), &alternate_trace()).unwrap();

    let short_payload =
        canonical_session_id_payload_v1(short_session.verifier_input(), short_session.session_metadata());
    let long_payload =
        canonical_session_id_payload_v1(long_session.verifier_input(), long_session.session_metadata());
    let expected_payload_len = 1
        + 1
        + 8
        + 8
        + 1
        + DCM_AIR_PUBLIC_INPUTS_521_CANONICAL_BYTE_LEN_V1
        + 1
        + 8
        + 8
        + 1
        + HASH_LEN_V1;

    assert_eq!(short_session.session_metadata().trace_width(), DCM_AIR_TRACE_WIDTH_V1);
    assert_eq!(
        short_session.session_metadata().transition_constraint_count(),
        DCM_AIR_TRANSITION_CONSTRAINT_COUNT_V1
    );
    assert_eq!(short_session.verifier_input().trace_width(), DCM_AIR_TRACE_WIDTH_V1);
    assert_eq!(
        short_session.verifier_input().transition_constraint_count(),
        DCM_AIR_TRANSITION_CONSTRAINT_COUNT_V1
    );
    assert_eq!(short_payload.len(), expected_payload_len);
    assert_eq!(long_payload.len(), expected_payload_len);
}

#[test]
fn packaging_invariants_accept_the_evaluated_summary() {
    let trace = canonical_trace();
    let public_inputs = canonical_public_inputs();
    let summary = DcmAirEvaluationSummaryV1 {
        row_count: 3,
        checked_transition_count: 2,
        first_row: public_inputs.initial_state,
        final_row: public_inputs.final_state,
    };
    assert_eq!(validate_packaging_invariants_v1(&public_inputs, &trace, &summary), Ok(()));
}

#[test]
fn packaging_invariants_reject_transition_count_mismatch() {
    let trace = canonical_trace();
    let public_inputs = canonical_public_inputs();
    let summary = DcmAirEvaluationSummaryV1 {
        row_count: 3,
        checked_transition_count: 5,
        first_row: public_inputs.initial_state,
        final_row: public_inputs.final_state,
    };
    assert_eq!(
        validate_packaging_invariants_v1(&public_inputs, &trace, &summary),
        Err(DcmAirAdapterErrorV1::PackagingInvariantViolation { field: "checked_transition_count" })
    );
}

#[test]
fn packaging_invariants_reject_swapped_boundary_rows() {
    let trace = canonical_trace();
    let public_inputs = canonical_public_inputs();
    let summary = DcmAirEvaluationSummaryV1 {
        row_count: 3,
        checked_transition_count: 2,
        first_row: public_inputs.final_state,
        final_row: public_inputs.initial_state,
    };
    assert_eq!(
        validate_packaging_invariants_v1(&public_inputs, &trace, &summary),
        Err(DcmAirAdapterErrorV1::PackagingInvariantViolation { field: "first_row" })
    );
}

#[test]
fn packaged_sessions_for_different_inputs_have_different_ids() {
    let short_session =
        package_dcm_air_proof_session_v1(&canonical_public_inputs(), &canonical_trace()).unwrap();
    let long_session =
        package_dcm_air_proof_session_v1(&alternate_public_inputs(), &alternate_trace()).unwrap();
    assert_ne!(short_session.session_id().as_bytes(), long_session.session_id().as_bytes());
    assert_eq!(short_session.session_metadata().row_count(), 3);
    assert_eq!(long_session.session_metadata().row_count(), 4);
}
