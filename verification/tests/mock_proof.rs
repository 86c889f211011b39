use aura_intent_lineage_v1::{
    FieldElement521V1,
    FIELD_ELEMENT_521_BYTE_LEN_V1,
    FIELD_MODULUS_521_V1,
    HASH_LEN_V1,
};
use aura_intent_lineage_v1::legacy::catmap_v1::{
    build_dcm_claim_521_v1,
    canonical_constraint_bytes_v1,
    canonical_session_binding_bytes_v1,
    dcm_air_public_inputs_from_claim_521_v1,
    derive_dcm_air_mock_constraint_digest_v1,
    derive_dcm_air_mock_public_input_digest_v1,
    derive_dcm_air_mock_session_id_v1,
    package_dcm_air_proof_session_v1,
    prove_dcm_air_with_mock_proof_v1,
    verify_dcm_air_mock_proof_v1,
    DcmAirErrorV1,
    DcmAirMockProverErrorV1,
    DcmAirMockVerifierBindingsV1,
    DcmAirMockVerifierErrorV1,
    DcmAirPublicInputsV1,
    DcmAirTraceV1,
    DcmConfig521V1,
    DcmExecution521V1,
    DcmInput521V1,
    DCM_AIR_PUBLIC_INPUTS_521_CANONICAL_BYTE_LEN_V1,
    DCM_AIR_TRACE_WIDTH_V1,
    DCM_AIR_TRANSITION_CONSTRAINT_COUNT_V1,
};

fn canonical_trace() -> DcmAirTraceV1 {
    DcmAirTraceV1::new(canonical_execution().states)
}

fn canonical_execution() -> DcmExecution521V1 {
    DcmExecution521V1::run(
        &DcmConfig521V1 { iteration_count: 2 },
        &DcmInput521V1 { x0: pinned_x0(), y0: small_value(1) },
    )
    .unwrap()
}

fn canonical_public_inputs() -> DcmAirPublicInputsV1 {
    let config = DcmConfig521V1 { iteration_count: 2 };
    let input = DcmInput521V1 { x0: pinned_x0(), y0: small_value(1) };
    let execution = canonical_execution();
    dcm_air_public_inputs_from_claim_521_v1(&build_dcm_claim_521_v1(&config, &input, &execution))
}

fn alternate_trace() -> DcmAirTraceV1 {
    DcmAirTraceV1::new(
        DcmExecution521V1::run(
            &DcmConfig521V1 { iteration_count: 3 },
            &DcmInput521V1 { x0: zero(), y0: small_value(1) },
        )
        .unwrap()
        .states,
    )
}

fn alternate_public_inputs() -> DcmAirPublicInputsV1 {
    let config = DcmConfig521V1 { iteration_count: 3 };
    let input = DcmInput521V1 { x0: zero(), y0: small_value(1) };
    let execution = DcmExecution521V1::run(&config, &input).unwrap();
    dcm_air_public_inputs_from_claim_521_v1(&build_dcm_claim_521_v1(&config, &input, &execution))
}

fn pinned_x0() -> FieldElement521V1 {
    let mut bytes = FIELD_MODULUS_521_V1;
    bytes[FIELD_ELEMENT_521_BYTE_LEN_V1 - 1] = 0xfe;
    FieldElement521V1::from_bytes(bytes).unwrap()
}

fn zero() -> FieldElement521V1 {
    FieldElement521V1::zero()
}

fn small_value(value: u8) -> FieldElement521V1 {
    let mut bytes = [0u8; FIELD_ELEMENT_521_BYTE_LEN_V1];
    bytes[FIELD_ELEMENT_521_BYTE_LEN_V1 - 1] = value;
    FieldElement521V1::from_bytes(bytes).unwrap()
}

#[test]
fn mock_binding_payloads_are_fixed_width() {
    let session = package_dcm_air_proof_session_v1(&canonical_public_inputs(), &canonical_trace()).unwrap();
    let verifier_bindings = DcmAirMockVerifierBindingsV1::from(session.verifier_input());

    assert_eq!(verifier_bindings.trace_width, DCM_AIR_TRACE_WIDTH_V1);
    assert_eq!(verifier_bindings.transition_constraint_count, DCM_AIR_TRANSITION_CONSTRAINT_COUNT_V1);
    assert_eq!(canonical_constraint_bytes_v1(&verifier_bindings).len(), 1 + 1 + 8 + 8 + 1 + HASH_LEN_V1);
    assert_eq!(
        canonical_session_binding_bytes_v1(&verifier_bindings).len(),
        1 + 1 + 8 + 8 + 1 + DCM_AIR_PUBLIC_INPUTS_521_CANONICAL_BYTE_LEN_V1 + 1 + 8 + 8 + 1 + HASH_LEN_V1
    );
}

#[test]
fn mock_session_id_matches_adapter_session_id_for_canonical_case() {
    let session = package_dcm_air_proof_session_v1(&canonical_public_inputs(), &canonical_trace()).unwrap();
    let verifier_bindings = DcmAirMockVerifierBindingsV1::from(session.verifier_input());

    assert_eq!(derive_dcm_air_mock_session_id_v1(&verifier_bindings), *session.session_id().as_bytes());
}

#[test]
fn changing_public_inputs_changes_mock_binding_digests() {
    let first = package_dcm_air_proof_session_v1(&canonical_public_inputs(), &canonical_trace()).unwrap();
    let second = package_dcm_air_proof_session_v1(&alternate_public_inputs(), &alternate_trace()).unwrap();
    let first_bindings = DcmAirMockVerifierBindingsV1::from(first.verifier_input());
    let second_bindings = DcmAirMockVerifierBindingsV1::from(second.verifier_input());

    assert_ne!(
        derive_dcm_air_mock_public_input_digest_v1(&first_bindings.public_inputs),
        derive_dcm_air_mock_public_input_digest_v1(&second_bindings.public_inputs)
    );
    assert_ne!(
        derive_dcm_air_mock_constraint_digest_v1(&first_bindings),
        derive_dcm_air_mock_constraint_digest_v1(&second_bindings)
    );
    assert_ne!(
        derive_dcm_air_mock_session_id_v1(&first_bindings),
        derive_dcm_air_mock_session_id_v1(&second_bindings)
    );
}

#[test]
fn mock_prover_output_is_accepted_by_mock_verifier() {
    let output = prove_dcm_air_with_mock_proof_v1(&canonical_public_inputs(), &canonical_trace()).unwrap();
    verify_dcm_air_mock_proof_v1(&output.verifier_bindings, &output.mock_proof_artifact).unwrap();
    assert_eq!(output.verifier_bindings.row_count, 3);
    assert_eq!(output.verifier_bindings.checked_transition_count, 2);
    assert_eq!(output.mock_proof_artifact.proof_version, 1);
}

#[test]
fn mock_prover_rejects_a_trace_the_air_rejects() {
    let error = prove_dcm_air_with_mock_proof_v1(&canonical_public_inputs(), &alternate_trace()).unwrap_err();
    assert!(matches!(error, DcmAirMockProverErrorV1::AirEvaluationFailed(_)));
    let empty = DcmAirTraceV1::new(Vec::new());
    assert_eq!(
        prove_dcm_air_with_mock_proof_v1(&canonical_public_inputs(), &empty).unwrap_err(),
        DcmAirMockProverErrorV1::AirEvaluationFailed(DcmAirErrorV1::EmptyTrace)
    );
}

#[test]
fn mock_verifier_reports_each_mismatch() {
    let output = prove_dcm_air_with_mock_proof_v1(&canonical_public_inputs(), &canonical_trace()).unwrap();
    let bindings = output.verifier_bindings;
    let artifact = output.mock_proof_artifact;

    let mut bad = artifact;
    bad.proof_version = 3;
    assert_eq!(
        verify_dcm_air_mock_proof_v1(&bindings, &bad).unwrap_err(),
        DcmAirMockVerifierErrorV1::UnsupportedProofVersion { expected: 1, actual: 3 }
    );
    let mut wide = bindings;
    wide.trace_width = 4;
    assert_eq!(
        verify_dcm_air_mock_proof_v1(&wide, &artifact).unwrap_err(),
        DcmAirMockVerifierErrorV1::UnsupportedTraceWidth { expected: 2, actual: 4 }
    );
    let mut rows = bindings;
    rows.row_count = 7;
    assert_eq!(
        verify_dcm_air_mock_proof_v1(&rows, &artifact).unwrap_err(),
        DcmAirMockVerifierErrorV1::RowCountInvariantMismatch { expected: 3, actual: 7 }
    );
    let mut overflow = bindings;
    overflow.public_inputs.iteration_count = u64::MAX;
    assert_eq!(
        verify_dcm_air_mock_proof_v1(&overflow, &artifact).unwrap_err(),
        DcmAirMockVerifierErrorV1::IterationCountOverflow
    );
    let mut digest = artifact;
    digest.bound_constraint_digest[0] ^= 1;
    assert!(matches!(
        verify_dcm_air_mock_proof_v1(&bindings, &digest).unwrap_err(),
        DcmAirMockVerifierErrorV1::ConstraintDigestMismatch { .. }
    ));
    let mut session = artifact;
    session.bound_session_id[5] ^= 1;
    assert!(matches!(
        verify_dcm_air_mock_proof_v1(&bindings, &session).unwrap_err(),
        DcmAirMockVerifierErrorV1::SessionIdMismatch { .. }
    ));
    let mut placeholder = artifact;
    placeholder.proof_placeholder_digest[31] ^= 1;
    assert!(matches!(
        verify_dcm_air_mock_proof_v1(&bindings, &placeholder).unwrap_err(),
        DcmAirMockVerifierErrorV1::ProofPlaceholderDigestMismatch { .. }
    ));
}
