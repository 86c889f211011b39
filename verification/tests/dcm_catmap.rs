use sha2::{Digest, Sha256};
use aura_intent_lineage_v1::{
    FIELD_ELEMENT_521_BYTE_LEN_V1,
    FIELD_MODULUS_521_V1,
    FieldElement521V1,
    HASH_LEN_V1,
};
use aura_intent_lineage_v1::legacy::catmap_v1::{
    AURA_DCM_521_V1_STATE_LEAF_DOMAIN_SEPARATOR,
    AURA_DCM_521_V1_TRACE_COMMITMENT_DOMAIN_SEPARATOR,
    DcmConfig521V1,
    DcmConfigV1,
    DcmExecution521V1,
    DcmExecutionV1,
    DcmInput521V1,
    DcmInputV1,
    DcmState521V1,
    DcmStateV1,
    DcmTraceCommitment521ErrorV1,
    advance_dcm_state_521_v1,
    advance_dcm_state_v1,
    coordinate_recurrence_next_521_v1,
    coordinate_recurrence_next_v1,
    derive_trace_commitment_521_v1,
    fast_forward_dcm_state_521_v1,
    fast_forward_dcm_state_v1,
    rewind_dcm_state_521_v1,
    rewind_dcm_state_v1,
    state_leaf_hash_521_v1,
};

#[test]
fn u64_fast_forward_matches_materialized_execution() {
    let config = DcmConfigV1 {
        modulus: 97,
        iteration_count: 5,
    };
    let input = DcmInputV1 { x0: 3, y0: 7 };
    let execution = DcmExecutionV1::run(&config, &input).unwrap();

    assert_eq!(
        fast_forward_dcm_state_v1(
            input.initial_state(),
            config.iteration_count,
            config.modulus
        ),
        execution.final_state
    );
}

#[test]
fn u64_inverse_recovers_previous_state() {
    let state = DcmStateV1 { x: 27, y: 44 };
    let next = advance_dcm_state_v1(state, 97);

    assert_eq!(rewind_dcm_state_v1(next, 97), state);
}

#[test]
fn u64_coordinate_recurrence_matches_trace_coordinates() {
    let execution = DcmExecutionV1::run(
        &DcmConfigV1 {
            modulus: 97,
            iteration_count: 5,
        },
        &DcmInputV1 { x0: 3, y0: 7 },
    )
    .unwrap();

    assert_eq!(
        coordinate_recurrence_next_v1(execution.states[0].x, execution.states[1].x, 97),
        execution.states[2].x
    );
    assert_eq!(
        coordinate_recurrence_next_v1(execution.states[0].y, execution.states[1].y, 97),
        execution.states[2].y
    );
}

#[test]
fn identical_trace_commitments_match_for_521_bit_execution() {
    let execution = canonical_execution();
    let config = canonical_config();
    let input = canonical_input();

    let first = derive_trace_commitment_521_v1(&config, &input, &execution.states).unwrap();
    let second = derive_trace_commitment_521_v1(&config, &input, &execution.states).unwrap();

    assert_eq!(first, second);
    assert_eq!(execution.trace_commitment, first);
}

#[test]
fn mutating_single_state_changes_521_bit_trace_commitment() {
    let execution = canonical_execution();
    let config = canonical_config();
    let input = canonical_input();
    let mut mutated_states = execution.states.clone();
    mutated_states[1] = DcmState521V1 {
        x: small_value(9),
        y: small_value(9),
    };

    let mutated_commitment =
        derive_trace_commitment_521_v1(&config, &input, &mutated_states).unwrap_err();

    assert_eq!(
        mutated_commitment,
        DcmTraceCommitment521ErrorV1::TransitionMismatch {
            index: 0,
            expected: execution.states[1],
            actual: mutated_states[1],
        }
    );
}

#[test]
fn state_leaf_hash_521_uses_canonical_pair_encoding() {
    let state = DcmState521V1 {
        x: top_bit_value(10),
        y: small_value(1),
    };
    let state_bytes = state.canonical_bytes();

    assert_eq!(state_bytes.len(), FIELD_ELEMENT_521_BYTE_LEN_V1 * 2);

    let mut preimage = Vec::with_capacity(
        AURA_DCM_521_V1_STATE_LEAF_DOMAIN_SEPARATOR.len()
            + 8
            + FIELD_ELEMENT_521_BYTE_LEN_V1 * 2,
    );
    preimage.extend_from_slice(&AURA_DCM_521_V1_STATE_LEAF_DOMAIN_SEPARATOR);
    preimage.extend_from_slice(&7u64.to_le_bytes());
    preimage.extend_from_slice(&state_bytes);

    let expected = sha256_bytes(&preimage);
    let actual = state_leaf_hash_521_v1(7, &state);

    assert_eq!(expected, actual);
}

#[test]
fn fast_forward_521_matches_materialized_execution() {
    let config = canonical_config();
    let input = canonical_input();
    let execution = canonical_execution();

    assert_eq!(
        fast_forward_dcm_state_521_v1(input.initial_state(), config.iteration_count),
        execution.final_state
    );
}

#[test]
fn inverse_521_recovers_previous_state() {
    let state = canonical_input().initial_state();
    let next = advance_dcm_state_521_v1(state);

    assert_eq!(rewind_dcm_state_521_v1(next), state);
}

#[test]
fn coordinate_recurrence_521_matches_trace_coordinates() {
    let execution = canonical_execution();

    assert_eq!(
        coordinate_recurrence_next_521_v1(execution.states[0].x, execution.states[1].x),
        execution.states[2].x
    );
    assert_eq!(
        coordinate_recurrence_next_521_v1(execution.states[0].y, execution.states[1].y),
        execution.states[2].y
    );
}

#[test]
fn derive_trace_commitment_521_matches_manual_rebuild() {
    let config = canonical_config();
    let input = canonical_input();
    let execution = canonical_execution();
    let expected = manual_trace_commitment(&config, &input, &execution.states);

    assert_eq!(
        derive_trace_commitment_521_v1(&config, &input, &execution.states).unwrap(),
        expected
    );
    assert_eq!(execution.trace_commitment, expected);
}

fn canonical_config() -> DcmConfig521V1 {
    DcmConfig521V1 { iteration_count: 2 }
}

fn canonical_input() -> DcmInput521V1 {
    DcmInput521V1 {
        x0: max_minus_one(),
        y0: small_value(1),
    }
}

fn canonical_execution() -> DcmExecution521V1 {
    DcmExecution521V1::run(&canonical_config(), &canonical_input()).unwrap()
}

fn manual_trace_commitment(
    config: &DcmConfig521V1,
    input: &DcmInput521V1,
    states: &[DcmState521V1],
) -> [u8; HASH_LEN_V1] {
    let mut preimage = Vec::with_capacity(
        AURA_DCM_521_V1_TRACE_COMMITMENT_DOMAIN_SEPARATOR.len()
            + FIELD_MODULUS_521_V1.len()
            + 8 * 2
            + FIELD_ELEMENT_521_BYTE_LEN_V1 * 2
            + HASH_LEN_V1 * states.len(),
    );
    preimage.extend_from_slice(&AURA_DCM_521_V1_TRACE_COMMITMENT_DOMAIN_SEPARATOR);
    preimage.extend_from_slice(&FIELD_MODULUS_521_V1);
    preimage.extend_from_slice(&config.iteration_count.to_le_bytes());
    preimage.extend_from_slice(&input.x0.to_bytes());
    preimage.extend_from_slice(&input.y0.to_bytes());
    preimage.extend_from_slice(&(states.len() as u64).to_le_bytes());

    for (index, state) in states.iter().enumerate() {
        preimage.extend_from_slice(&state_leaf_hash_521_v1(index as u64, state));
    }

    sha256_bytes(&preimage)
}

fn small_value(value: u8) -> FieldElement521V1 {
    let mut bytes = [0u8; FIELD_ELEMENT_521_BYTE_LEN_V1];
    bytes[FIELD_ELEMENT_521_BYTE_LEN_V1 - 1] = value;
    FieldElement521V1::from_bytes(bytes).unwrap()
}

fn max_minus_one() -> FieldElement521V1 {
    let mut bytes = FIELD_MODULUS_521_V1;
    bytes[FIELD_ELEMENT_521_BYTE_LEN_V1 - 1] = 0xfe;
    FieldElement521V1::from_bytes(bytes).unwrap()
}

fn top_bit_value(low_byte: u8) -> FieldElement521V1 {
    let mut bytes = [0u8; FIELD_ELEMENT_521_BYTE_LEN_V1];
    bytes[0] = 0x01;
    bytes[FIELD_ELEMENT_521_BYTE_LEN_V1 - 1] = low_byte;
    FieldElement521V1::from_bytes(bytes).unwrap()
}

fn sha256_bytes(bytes: &[u8]) -> [u8; 32] {
    let digest = Sha256::digest(bytes);
    let mut hash = [0u8; 32];
    hash.copy_from_slice(&digest);
    hash
}

#[test]
fn trace_commitment_reports_length_initial_state_and_first_bad_transition() {
    let config = canonical_config();
    let input = canonical_input();
    let execution = canonical_execution();

    let short = &execution.states[..2];
    assert_eq!(
        derive_trace_commitment_521_v1(&config, &input, short),
        Err(DcmTraceCommitment521ErrorV1::TraceLengthMismatch { expected: 3, actual: 2 })
    );

    let mut wrong_start = execution.states.clone();
    wrong_start[0] = DcmState521V1 { x: small_value(5), y: small_value(6) };
    assert_eq!(
        derive_trace_commitment_521_v1(&config, &input, &wrong_start),
        Err(DcmTraceCommitment521ErrorV1::InitialStateMismatch {
            expected: DcmState521V1 { x: input.x0, y: input.y0 },
            actual: wrong_start[0],
        })
    );

    let mut two_bad = execution.states.clone();
    two_bad[1] = DcmState521V1 { x: small_value(7), y: small_value(8) };
    two_bad[2] = DcmState521V1 { x: small_value(9), y: small_value(10) };
    assert_eq!(
        derive_trace_commitment_521_v1(&config, &input, &two_bad),
        Err(DcmTraceCommitment521ErrorV1::TransitionMismatch {
            index: 0,
            expected: advance_dcm_state_521_v1(execution.states[0]),
            actual: two_bad[1],
        })
    );
}

#[test]
fn each_recorded_521_bit_state_is_the_advance_of_the_one_before() {
    let execution = canonical_execution();
    assert_eq!(execution.states.len(), 3);
    assert_eq!(execution.states[0], DcmState521V1 { x: max_minus_one(), y: small_value(1) });
    for index in 0..execution.states.len() - 1 {
        assert_eq!(execution.states[index + 1], advance_dcm_state_521_v1(execution.states[index]));
    }
    assert_eq!(execution.final_state, execution.states[2]);
}
