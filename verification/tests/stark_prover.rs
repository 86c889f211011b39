use aura_intent_lineage_v1::{
    FieldElement521V1,
    FIELD_ELEMENT_521_BYTE_LEN_V1,
    FIELD_MODULUS_521_V1,
};
use aura_intent_lineage_v1::legacy::catmap_v1::{
    real_stark_assertion_count_v1,
    real_stark_boundary_v1,
    build_dcm_air_real_stark_trace_rows_v1,
    derive_dcm_air_commitment_root_521_v1,
    real_stark_trace_row_v1,
    DcmAirRealStarkProverErrorV1,
    advance_dcm_state_521_v1,
    assemble_dcm_air_real_stark_artifact_v1,
    build_dcm_claim_521_v1,
    check_dcm_air_real_stark_artifact_v1,
    dcm_air_public_inputs_from_claim_521_v1,
    derive_real_stark_internal_trace_length_v1,
    field_modulus_521_digits_le_v1,
    prove_dcm_air_stark_scaffold_v1,
    solve_mod_relation_v1,
    state_coordinate_digits_le_v1,
    u28_limbs_from_digits_le_v1,
    verify_dcm_air_stark_scaffold_v1,
    DcmAirPublicInputsV1,
    DcmAirRealStarkVerifierErrorV1,
    DcmAirStarkProverErrorV1,
    DcmAirStarkVerifierErrorV1,
    DcmAirTraceV1,
    DcmConfig521V1,
    DcmExecution521V1,
    DcmInput521V1,
    DcmState521V1,
    DCM_AIR_REAL_STARK_DIGIT_COUNT_V1,
    DCM_AIR_REAL_STARK_LIMB_BASE_V1,
    DCM_AIR_REAL_STARK_LIMB_COUNT_V1,
};

fn canonical_trace() -> DcmAirTraceV1 {
    DcmAirTraceV1::new(canonical_execution().states)
}

fn canonical_execution() -> DcmExecution521V1 {
    DcmExecution521V1::run(
        &DcmConfig521V1 { iteration_count: 2 },
        &DcmInput521V1 { x0: pinned_x0(), y0: small_value(1) },
    )
    .unwrap()
}

fn canonical_public_inputs() -> DcmAirPublicInputsV1 {
    let config = DcmConfig521V1 { iteration_count: 2 };
    let input = DcmInput521V1 { x0: pinned_x0(), y0: small_value(1) };
    let execution = canonical_execution();
    dcm_air_public_inputs_from_claim_521_v1(&build_dcm_claim_521_v1(&config, &input, &execution))
}

#[allow(dead_code)]
fn alternate_trace() -> DcmAirTraceV1 {
    DcmAirTraceV1::new(
        DcmExecution521V1::run(
            &DcmConfig521V1 { iteration_count: 3 },
            &DcmInput521V1 { x0: zero(), y0: small_value(1) },
        )
        .unwrap()
        .states,
    )
}

#[allow(dead_code)]
fn alternate_public_inputs() -> DcmAirPublicInputsV1 {
    let config = DcmConfig521V1 { iteration_count: 3 };
    let input = DcmInput521V1 { x0: zero(), y0: small_value(1) };
    let execution = DcmExecution521V1::run(&config, &input).unwrap();
    dcm_air_public_inputs_from_claim_521_v1(&build_dcm_claim_521_v1(&config, &input, &execution))
}

fn pinned_x0() -> FieldElement521V1 {
    let mut bytes = FIELD_MODULUS_521_V1;
    bytes[FIELD_ELEMENT_521_BYTE_LEN_V1 - 1] = 0xfe;
    FieldElement521V1::from_bytes(bytes).unwrap()
}

fn zero() -> FieldElement521V1 {
    FieldElement521V1::zero()
}

fn small_value(value: u8) -> FieldElement521V1 {
    let mut bytes = [0u8; FIELD_ELEMENT_521_BYTE_LEN_V1];
    bytes[FIELD_ELEMENT_521_BYTE_LEN_V1 - 1] = value;
    FieldElement521V1::from_bytes(bytes).unwrap()
}

fn mod_relation_holds_with_carries(
    lhs_x: &[u8; DCM_AIR_REAL_STARK_DIGIT_COUNT_V1],
    lhs_y: &[u8; DCM_AIR_REAL_STARK_DIGIT_COUNT_V1],
    next: &[u8; DCM_AIR_REAL_STARK_DIGIT_COUNT_V1],
    y_scale: u8,
    quotient: u8,
    carries: &[u8; DCM_AIR_REAL_STARK_LIMB_COUNT_V1],
) -> bool {
    let modulus = u28_limbs_from_digits_le_v1(&field_modulus_521_digits_le_v1());
    let lhs_x_limbs = u28_limbs_from_digits_le_v1(lhs_x);
    let lhs_y_limbs = u28_limbs_from_digits_le_v1(lhs_y);
    let next_limbs = u28_limbs_from_digits_le_v1(next);

    carries[0] == 0
        && (0..DCM_AIR_REAL_STARK_LIMB_COUNT_V1).all(|limb_index| {
            let carry_out = if limb_index + 1 < DCM_AIR_REAL_STARK_LIMB_COUNT_V1 {
                DCM_AIR_REAL_STARK_LIMB_BASE_V1 * u64::from(carries[limb_index + 1])
            } else {
                0
            };
            let lhs = u64::from(lhs_x_limbs[limb_index])
                + u64::from(y_scale) * u64::from(lhs_y_limbs[limb_index])
                + u64::from(carries[limb_index]);
            let rhs = u64::from(next_limbs[limb_index])
                + u64::from(quotient) * u64::from(modulus[limb_index])
                + carry_out;
            lhs == rhs
        })
}

#[test]
fn tampered_carry_propagation_breaks_non_native_limb_relations() {
    let current = DcmState521V1::from_u64(3, 7);
    let next = advance_dcm_state_521_v1(current);
    let (current_x_digits, current_y_digits) = state_coordinate_digits_le_v1(current);
    let (next_x_digits, next_y_digits) = state_coordinate_digits_le_v1(next);

    let (qx, x_carries) =
        solve_mod_relation_v1(&current_x_digits, &current_y_digits, &next_x_digits, 1, 1, 1)
            .expect("canonical x relation should have a valid quotient/carry witness");
    let (qy, y_carries) =
        solve_mod_relation_v1(&current_x_digits, &current_y_digits, &next_y_digits, 2, 2, 2)
            .expect("canonical y relation should have a valid quotient/carry witness");

    assert!(mod_relation_holds_with_carries(
        &current_x_digits,
        &current_y_digits,
        &next_x_digits,
        1,
        qx,
        &x_carries,
    ));
    assert!(mod_relation_holds_with_carries(
        &current_x_digits,
        &current_y_digits,
        &next_y_digits,
        2,
        qy,
        &y_carries,
    ));

    let mut bad_x_carries = x_carries;
    bad_x_carries[1] = bad_x_carries[1].wrapping_add(1);
    let mut bad_y_carries = y_carries;
    bad_y_carries[1] = bad_y_carries[1].wrapping_add(1);

    assert!(!mod_relation_holds_with_carries(
        &current_x_digits,
        &current_y_digits,
        &next_x_digits,
        1,
        qx,
        &bad_x_carries,
    ));
    assert!(!mod_relation_holds_with_carries(
        &current_x_digits,
        &current_y_digits,
        &next_y_digits,
        2,
        qy,
        &bad_y_carries,
    ));
}

#[test]
fn small_state_relations_need_no_quotient() {
    let current = DcmState521V1::from_u64(3, 7);
    let next = advance_dcm_state_521_v1(current);
    let (x, y) = state_coordinate_digits_le_v1(current);
    let (nx, ny) = state_coordinate_digits_le_v1(next);
    // 3 + 7 = 10 and 3 + 2 * 7 = 17: no reduction, so the quotient is zero.
    assert_eq!(solve_mod_relation_v1(&x, &y, &nx, 1, 1, 1).unwrap().0, 0);
    assert_eq!(solve_mod_relation_v1(&x, &y, &ny, 2, 2, 2).unwrap().0, 0);
    assert_eq!(nx[0], 10);
    assert_eq!(ny[0], 17);
}

#[test]
fn wrong_next_state_has_no_relation_witness() {
    let current = DcmState521V1::from_u64(3, 7);
    let (x, y) = state_coordinate_digits_le_v1(current);
    let (wrong, _) = state_coordinate_digits_le_v1(DcmState521V1::from_u64(11, 0));
    assert_eq!(solve_mod_relation_v1(&x, &y, &wrong, 1, 1, 1), None);
}

#[test]
fn modulus_digits_are_seven_bit_with_a_three_bit_top() {
    let digits = field_modulus_521_digits_le_v1();
    assert!(digits[..74].iter().all(|digit| *digit == 127));
    assert_eq!(digits[74], 7);
    let limbs = u28_limbs_from_digits_le_v1(&digits);
    assert_eq!(u64::from(limbs[0]), DCM_AIR_REAL_STARK_LIMB_BASE_V1 - 1);
    assert_eq!(limbs[18], 127 + 128 * 127 + 128 * 128 * 7);
}

#[test]
fn wrapping_relation_uses_quotient_one() {
    // x = p - 1 and y = 1 give x + y = p, which reduces to zero.
    let mut bytes = FIELD_MODULUS_521_V1;
    bytes[FIELD_ELEMENT_521_BYTE_LEN_V1 - 1] = 0xfe;
    let current = DcmState521V1 {
        x: FieldElement521V1::from_bytes(bytes).unwrap(),
        y: small_value(1),
    };
    let next = advance_dcm_state_521_v1(current);
    let (x, y) = state_coordinate_digits_le_v1(current);
    let (nx, _) = state_coordinate_digits_le_v1(next);
    assert!(nx.iter().all(|digit| *digit == 0));
    let (quotient, carries) = solve_mod_relation_v1(&x, &y, &nx, 1, 1, 1).unwrap();
    assert_eq!(quotient, 1);
    assert!(mod_relation_holds_with_carries(&x, &y, &nx, 1, quotient, &carries));
}

#[test]
fn internal_trace_length_rounds_up_to_a_power_of_two_of_at_least_eight() {
    assert_eq!(derive_real_stark_internal_trace_length_v1(0).unwrap(), 8);
    assert_eq!(derive_real_stark_internal_trace_length_v1(1).unwrap(), 8);
    assert_eq!(derive_real_stark_internal_trace_length_v1(8).unwrap(), 8);
    assert_eq!(derive_real_stark_internal_trace_length_v1(9).unwrap(), 16);
    assert_eq!(derive_real_stark_internal_trace_length_v1(1000).unwrap(), 1024);
    assert_eq!(derive_real_stark_internal_trace_length_v1(1024).unwrap(), 1024);
}

#[test]
fn scaffold_prove_then_verify_accepts() {
    let public_inputs = canonical_public_inputs();
    let artifact = prove_dcm_air_stark_scaffold_v1(&public_inputs, &canonical_trace()).unwrap();
    let acceptance = verify_dcm_air_stark_scaffold_v1(&public_inputs, &artifact).unwrap();
    assert_eq!(acceptance.verified_trace_commitment_root, artifact.trace_commitment_root);
    assert_eq!(acceptance.verified_proof_artifact_digest, artifact.proof_artifact_digest);
}

#[test]
fn scaffold_prover_requires_an_accepted_trace() {
    let public_inputs = canonical_public_inputs();
    let mut rows = canonical_execution().states;
    rows.swap(1, 2);
    let result = prove_dcm_air_stark_scaffold_v1(&public_inputs, &DcmAirTraceV1::new(rows));
    assert!(matches!(result, Err(DcmAirStarkProverErrorV1::AirEvaluationRequired(_))));
}

#[test]
fn scaffold_verifier_rejects_wrong_version_and_tampered_digest() {
    let public_inputs = canonical_public_inputs();
    let artifact = prove_dcm_air_stark_scaffold_v1(&public_inputs, &canonical_trace()).unwrap();

    let mut wrong_version = artifact.clone();
    wrong_version.proof_version = 9;
    assert_eq!(
        verify_dcm_air_stark_scaffold_v1(&public_inputs, &wrong_version),
        Err(DcmAirStarkVerifierErrorV1::UnsupportedProofVersion { expected: 1, actual: 9 })
    );

    let mut tampered = artifact.clone();
    tampered.public_input_digest[0] ^= 1;
    assert!(matches!(
        verify_dcm_air_stark_scaffold_v1(&public_inputs, &tampered),
        Err(DcmAirStarkVerifierErrorV1::PublicInputBindingMismatch { .. })
    ));

    let mut tampered_root = artifact;
    tampered_root.trace_commitment_root[5] ^= 0x80;
    assert!(verify_dcm_air_stark_scaffold_v1(&public_inputs, &tampered_root).is_err());
}

#[test]
fn real_stark_artifact_checks_accept_assembled_artifact() {
    let public_inputs = canonical_public_inputs();
    let artifact = assemble_dcm_air_real_stark_artifact_v1(&public_inputs, 3, 8, vec![1, 2, 3, 4]);
    assert_eq!(check_dcm_air_real_stark_artifact_v1(&public_inputs, &artifact), Ok(()));
    assert_eq!(artifact.trace_width, 193);
    assert_eq!(artifact.backend_constraint_count, 234);
}

#[test]
fn real_stark_artifact_checks_reject_each_tampering() {
    let public_inputs = canonical_public_inputs();
    let artifact = assemble_dcm_air_real_stark_artifact_v1(&public_inputs, 3, 8, vec![1, 2, 3, 4]);

    let mut backend = artifact.clone();
    backend.backend_kind = 2;
    assert_eq!(
        check_dcm_air_real_stark_artifact_v1(&public_inputs, &backend),
        Err(DcmAirRealStarkVerifierErrorV1::UnsupportedBackendKind { expected: 1, actual: 2 })
    );

    let wrong_length = assemble_dcm_air_real_stark_artifact_v1(&public_inputs, 3, 16, vec![1]);
    assert_eq!(
        check_dcm_air_real_stark_artifact_v1(&public_inputs, &wrong_length),
        Err(DcmAirRealStarkVerifierErrorV1::UnsupportedTraceShape { reason: "internal_trace_length_mismatch" })
    );

    let wrong_count = assemble_dcm_air_real_stark_artifact_v1(&public_inputs, 4, 8, vec![1]);
    assert_eq!(
        check_dcm_air_real_stark_artifact_v1(&public_inputs, &wrong_count),
        Err(DcmAirRealStarkVerifierErrorV1::UnsupportedTraceShape { reason: "trace_state_count_mismatch" })
    );

    let mut bytes = artifact.clone();
    bytes.proof_bytes.push(5);
    assert!(matches!(
        check_dcm_air_real_stark_artifact_v1(&public_inputs, &bytes),
        Err(DcmAirRealStarkVerifierErrorV1::ProofBytesDigestMismatch { .. })
    ));

    let mut binding = artifact;
    binding.proof_binding_digest[31] ^= 1;
    assert!(matches!(
        check_dcm_air_real_stark_artifact_v1(&public_inputs, &binding),
        Err(DcmAirRealStarkVerifierErrorV1::ProofBindingDigestMismatch { .. })
    ));
}

#[test]
fn real_stark_rows_pad_the_canonical_trace_to_eight() {
    let trace = canonical_trace();
    let rows = build_dcm_air_real_stark_trace_rows_v1(&trace).unwrap();
    assert_eq!(rows.len(), 8);
    assert!(rows[..3].iter().all(|row| row.active));
    assert!(rows[3..].iter().all(|row| !row.active && row.qx == 0 && row.qy == 0));
    assert!(rows[3..].iter().all(|row| row.x_digits == [0u8; 75] && row.y_digits == [0u8; 75]));
    // x0 = p - 1: the lowest digit is 126, the others 127 and the top 7.
    assert_eq!(rows[0].x_non_max_sum, Some(1));
    assert_eq!(rows[0].y_non_max_sum, None);
    assert_eq!(rows[5].x_non_max_sum, None);
    // The last active row has no successor, so no witnesses.
    assert_eq!(rows[2].x_carries, [0u8; 19]);
    // The sponge after the last state is the commitment root.
    let root = derive_dcm_air_commitment_root_521_v1(&DcmConfig521V1 { iteration_count: 2 }, &canonical_execution().states);
    assert_eq!(rows[2].commitment_lo.to_le_bytes(), root[..16]);
    assert_eq!(rows[2].commitment_hi.to_le_bytes(), root[16..]);
    assert_eq!(rows[7].commitment_lo, rows[2].commitment_lo);
    assert_ne!(rows[0].commitment_lo, rows[1].commitment_lo);
}

#[test]
fn real_stark_rows_refuse_a_broken_transition() {
    let mut states = canonical_execution().states;
    states.swap(1, 2);
    let result = build_dcm_air_real_stark_trace_rows_v1(&DcmAirTraceV1::new(states));
    assert!(matches!(
        result,
        Err(DcmAirRealStarkProverErrorV1::InvalidTransitionWitness {
            row_index: 0,
            relation: "x_next = x + y mod (2^521 - 1)",
        })
    ));
}

#[test]
fn real_stark_row_checks_y_after_x() {
    let current = DcmState521V1::from_u64(3, 7);
    let next = DcmState521V1::from_u64(10, 18);
    let result = real_stark_trace_row_v1(4, current, Some(next), true, (1, 2));
    assert!(matches!(
        result,
        Err(DcmAirRealStarkProverErrorV1::InvalidTransitionWitness {
            row_index: 4,
            relation: "y_next = x + 2y mod (2^521 - 1)",
        })
    ));
    let inactive = real_stark_trace_row_v1(4, current, Some(next), false, (1, 2)).unwrap();
    assert_eq!((inactive.commitment_lo, inactive.commitment_hi), (1, 2));
    assert_eq!(inactive.x_digits[0], 3);
    assert_eq!(inactive.y_digits[0], 7);
}

#[test]
fn real_stark_rows_of_an_empty_trace_are_eight_zero_rows() {
    let rows = build_dcm_air_real_stark_trace_rows_v1(&DcmAirTraceV1::new(Vec::new())).unwrap();
    assert_eq!(rows.len(), 8);
    assert!(rows.iter().all(|row| !row.active));
    assert!(rows.iter().all(|row| row.commitment_lo == rows[0].commitment_lo));
}

#[test]
fn a_wrapping_transition_with_a_borrow_has_no_carry_witness() {
    // x = p - 1 and y = 2^28: x + y wraps to 2^28 - 1, but the lowest limb
    // would need a negative carry, which the relation does not allow.
    let mut x_bytes = FIELD_MODULUS_521_V1;
    x_bytes[FIELD_ELEMENT_521_BYTE_LEN_V1 - 1] = 0xfe;
    let mut y_bytes = [0u8; FIELD_ELEMENT_521_BYTE_LEN_V1];
    y_bytes[FIELD_ELEMENT_521_BYTE_LEN_V1 - 4] = 0x10;
    let current = DcmState521V1 {
        x: FieldElement521V1::from_bytes(x_bytes).unwrap(),
        y: FieldElement521V1::from_bytes(y_bytes).unwrap(),
    };
    let next = advance_dcm_state_521_v1(current);
    let (x, y) = state_coordinate_digits_le_v1(current);
    let (nx, ny) = state_coordinate_digits_le_v1(next);
    assert_eq!(solve_mod_relation_v1(&x, &y, &nx, 1, 1, 1), None);
    assert_eq!(solve_mod_relation_v1(&x, &y, &ny, 2, 2, 2), None);
}

#[test]
fn real_stark_boundary_matches_the_first_and_last_rows() {
    let public_inputs = canonical_public_inputs();
    let boundary = real_stark_boundary_v1(&public_inputs);
    let rows = build_dcm_air_real_stark_trace_rows_v1(&canonical_trace()).unwrap();
    assert_eq!(boundary.active_last_row, 2);
    assert_eq!(boundary.initial_x_digits, rows[0].x_digits);
    assert_eq!(boundary.initial_y_digits, rows[0].y_digits);
    assert_eq!(boundary.final_x_digits, rows[2].x_digits);
    assert_eq!(boundary.final_y_digits, rows[2].y_digits);
    assert_eq!((boundary.initial_commitment_lo, boundary.initial_commitment_hi), (rows[0].commitment_lo, rows[0].commitment_hi));
    assert_eq!((boundary.root_lo, boundary.root_hi), (rows[2].commitment_lo, rows[2].commitment_hi));
}

#[test]
fn real_stark_assertion_counts() {
    assert_eq!(real_stark_assertion_count_v1(1, 8), 150 + 3 + 1);
    assert_eq!(real_stark_assertion_count_v1(3, 8), 300 + 6 + 1);
    assert_eq!(real_stark_assertion_count_v1(8, 8), 300 + 6);
}
