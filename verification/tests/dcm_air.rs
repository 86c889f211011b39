use aura_intent_lineage_v1::FieldElement521V1;
use aura_intent_lineage_v1::legacy::catmap_v1::{
    validate_dcm_air_v1, DcmAirErrorV1, DcmAirEvaluationSummaryV1, DcmAirPublicInputsV1,
    DcmAirTraceV1, DcmState521V1,
};

fn state(x: u64, y: u64) -> DcmState521V1 {
    DcmState521V1::from_u64(x, y)
}

fn public_inputs() -> DcmAirPublicInputsV1 {
    DcmAirPublicInputsV1 {
        initial_state: state(0, 1),
        iteration_count: 2,
        final_state: state(3, 5),
        commitment_root: [0u8; 32],
    }
}

#[test]
fn air_accepts_the_cat_map_trace() {
    let trace = DcmAirTraceV1::new(vec![state(0, 1), state(1, 2), state(3, 5)]);
    assert_eq!(
        validate_dcm_air_v1(&public_inputs(), &trace),
        Ok(DcmAirEvaluationSummaryV1 {
            row_count: 3,
            checked_transition_count: 2,
            first_row: state(0, 1),
            final_row: state(3, 5),
        })
    );
}

#[test]
fn air_reports_the_first_bad_transition_with_its_residuals() {
    let trace = DcmAirTraceV1::new(vec![state(0, 1), state(1, 3), state(3, 5)]);
    assert_eq!(
        validate_dcm_air_v1(&public_inputs(), &trace),
        Err(DcmAirErrorV1::TransitionConstraintViolation {
            row_index: 0,
            expected: state(1, 2),
            actual: state(1, 3),
            x_transition_residual: FieldElement521V1::zero(),
            y_transition_residual: FieldElement521V1::one(),
        })
    );
}

#[test]
fn air_reports_boundary_rows_before_transitions() {
    let wrong_first = DcmAirTraceV1::new(vec![state(0, 2), state(1, 3), state(3, 5)]);
    assert_eq!(
        validate_dcm_air_v1(&public_inputs(), &wrong_first),
        Err(DcmAirErrorV1::FirstRowMismatch { expected: state(0, 1), actual: state(0, 2) })
    );
    let wrong_last = DcmAirTraceV1::new(vec![state(0, 1), state(1, 3), state(3, 6)]);
    assert_eq!(
        validate_dcm_air_v1(&public_inputs(), &wrong_last),
        Err(DcmAirErrorV1::FinalRowMismatch { expected: state(3, 5), actual: state(3, 6) })
    );
}

#[test]
fn air_reports_empty_and_miscounted_traces() {
    assert_eq!(
        validate_dcm_air_v1(&public_inputs(), &DcmAirTraceV1::new(vec![])),
        Err(DcmAirErrorV1::EmptyTrace)
    );
    assert_eq!(
        validate_dcm_air_v1(&public_inputs(), &DcmAirTraceV1::new(vec![state(0, 1)])),
        Err(DcmAirErrorV1::RowCountMismatch { expected: 3, actual: 1 })
    );
}
