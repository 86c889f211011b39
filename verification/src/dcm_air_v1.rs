//! The legacy cat-map AIR: a trace of field states, its public inputs
//! `(initial_state, iteration_count, final_state, commitment_root)`,
//! evaluation frames, transition residuals, and a boundary and transition
//! evaluator.

use crate::cat_matrix_v1::{cat_step, lemma_cat_apply};
use crate::dcm_v1::{
    dcm521_pair, dcm521_same, dcm521_state_bytes, dcm521_steps_before, p521_int, DcmClaim521V1, DcmState521V1,
};
use crate::encoding_v1::{append_bytes, u64_le, u64_to_le_bytes};
use crate::field_521_v1::FieldElement521V1;
use vstd::arithmetic::div_mod::lemma_small_mod;
use vstd::prelude::*;

verus! {

pub const DCM_AIR_PUBLIC_INPUTS_521_CANONICAL_BYTE_LEN_V1: usize = 304;

pub const DCM_AIR_TRACE_WIDTH_V1: u8 = 2;

pub const DCM_AIR_TRANSITION_CONSTRAINT_COUNT_V1: u8 = 2;

/// A two-column trace: one field state per row.
#[derive(Clone, Debug, PartialEq, Eq)]
pub struct DcmAirTraceV1 {
    rows: Vec<DcmState521V1>,
}

impl View for DcmAirTraceV1 {
    type V = Seq<DcmState521V1>;

    closed spec fn view(&self) -> Seq<DcmState521V1> {
        self.rows@
    }
}

/// The public inputs of the AIR.
#[derive(Clone, Copy, Debug, PartialEq, Eq)]
pub struct DcmAirPublicInputsV1 {
    pub initial_state: DcmState521V1,
    pub iteration_count: u64,
    pub final_state: DcmState521V1,
    pub commitment_root: [u8; 32],
}

/// Two consecutive rows.
#[derive(Clone, Copy, Debug, PartialEq, Eq)]
pub struct DcmAirFrameV1 {
    pub current_row: DcmState521V1,
    pub next_row: DcmState521V1,
}

/// The residuals of the two transition constraints on a frame.
#[derive(Clone, Copy, Debug, PartialEq, Eq)]
pub struct DcmAirTransitionConstraintEvaluationV1 {
    pub x_transition_residual: FieldElement521V1,
    pub y_transition_residual: FieldElement521V1,
}

/// What an accepted trace reports.
#[derive(Clone, Copy, Debug, PartialEq, Eq)]
pub struct DcmAirEvaluationSummaryV1 {
    pub row_count: u64,
    pub checked_transition_count: u64,
    pub first_row: DcmState521V1,
    pub final_row: DcmState521V1,
}

/// The verdict of an evaluation.
#[derive(Clone, Copy, Debug, PartialEq, Eq)]
pub enum DcmAirEvaluationResultV1 {
    Accept(DcmAirEvaluationSummaryV1),
    Reject(DcmAirErrorV1),
}

/// Why a trace is rejected.
#[allow(inconsistent_fields)]
#[derive(Clone, Copy, Debug, PartialEq, Eq)]
pub enum DcmAirErrorV1 {
    EmptyTrace,
    RowCountMismatch { expected: u64, actual: u64 },
    FirstRowMismatch { expected: DcmState521V1, actual: DcmState521V1 },
    FinalRowMismatch { expected: DcmState521V1, actual: DcmState521V1 },
    TransitionConstraintViolation {
        row_index: u64,
        expected: DcmState521V1,
        actual: DcmState521V1,
        x_transition_residual: FieldElement521V1,
        y_transition_residual: FieldElement521V1,
    },
    IterationCountMismatch { expected: u64, actual: u64 },
    MissingRequiredValue { field: &'static str },
}

/// The encoding of the public inputs: initial state, iteration count, final
/// state, commitment root.
pub open spec fn dcm_air_public_inputs_bytes_spec(inputs: DcmAirPublicInputsV1) -> Seq<u8> {
    dcm521_state_bytes(inputs.initial_state) + u64_le(inputs.iteration_count) + dcm521_state_bytes(
        inputs.final_state,
    ) + inputs.commitment_root@
}

/// The encodings of a sequence of rows, one after another.
pub open spec fn dcm_rows_bytes(rows: Seq<DcmState521V1>) -> Seq<u8>
    decreases rows.len(),
{
    if rows.len() == 0 {
        Seq::empty()
    } else {
        dcm_rows_bytes(rows.drop_last()) + dcm521_state_bytes(rows.last())
    }
}

/// Whether each row is the cat-map step of the one before.
pub open spec fn dcm_air_transitions_hold(rows: Seq<DcmState521V1>) -> bool {
    forall|i: int|
        0 <= i < rows.len() - 1 ==> #[trigger] dcm521_pair(rows[i + 1]) == cat_step(
            dcm521_pair(rows[i]),
            p521_int(),
        )
}

/// A trace the AIR accepts for the public inputs.
pub open spec fn dcm_air_accepts(inputs: DcmAirPublicInputsV1, rows: Seq<DcmState521V1>) -> bool {
    &&& rows.len() > 0
    &&& inputs.iteration_count < u64::MAX
    &&& rows.len() == inputs.iteration_count + 1
    &&& dcm521_same(rows[0], inputs.initial_state)
    &&& dcm521_same(rows.last(), inputs.final_state)
    &&& dcm_air_transitions_hold(rows)
}

impl DcmAirTraceV1 {
    pub fn new(rows: Vec<DcmState521V1>) -> (trace: Self)
        ensures
            trace@ == rows@,
    {
        Self { rows }
    }

    pub(crate) fn rows(&self) -> (rows: &[DcmState521V1])
        ensures
            rows@ == self@,
    {
        self.rows.as_slice()
    }

    pub fn row_count(&self) -> (count: u64)
        ensures
            count == self@.len(),
    {
        self.rows.len() as u64
    }

    /// Row `index`, if there is one.
    pub fn row(&self, index: usize) -> (row: Option<DcmState521V1>)
        ensures
            index < self@.len() ==> row == Some(self@[index as int]),
            index >= self@.len() ==> row is None,
    {
        if index < self.rows.len() {
            Some(self.rows[index])
        } else {
            None
        }
    }

    /// Rows `row_index` and `row_index + 1`, if both exist.
    pub fn frame(&self, row_index: usize) -> (frame: Option<DcmAirFrameV1>)
        ensures
            row_index + 1 < self@.len() ==> frame == Some(
                DcmAirFrameV1 {
                    current_row: self@[row_index as int],
                    next_row: self@[row_index + 1],
                },
            ),
            row_index + 1 >= self@.len() ==> frame is None,
    {
        if row_index >= self.rows.len() {
            return None;
        }
        let next_index = row_index + 1;
        match (self.row(row_index), self.row(next_index)) {
            (Some(current_row), Some(next_row)) => Some(DcmAirFrameV1 { current_row, next_row }),
            _ => None,
        }
    }
}

impl DcmAirPublicInputsV1 {
    /// The 304-byte canonical encoding.
    pub fn canonical_bytes(&self) -> (bytes: Vec<u8>)
        ensures
            bytes@ == dcm_air_public_inputs_bytes_spec(*self),
    {
        let mut bytes: Vec<u8> = Vec::new();
        let initial = self.initial_state.canonical_bytes();
        append_bytes(&mut bytes, &initial);
        let count = u64_to_le_bytes(self.iteration_count);
        append_bytes(&mut bytes, &count);
        let final_bytes = self.final_state.canonical_bytes();
        append_bytes(&mut bytes, &final_bytes);
        append_bytes(&mut bytes, &self.commitment_root);
        bytes
    }
}

/// The public inputs a claim names.
pub fn dcm_air_public_inputs_from_claim_521_v1(claim: &DcmClaim521V1) -> (inputs: DcmAirPublicInputsV1)
    ensures
        inputs.initial_state == claim.initial_state,
        inputs.iteration_count == claim.config.iteration_count,
        inputs.final_state == claim.final_state,
        inputs.commitment_root == claim.commitment_root,
{
    DcmAirPublicInputsV1 {
        initial_state: claim.initial_state,
        iteration_count: claim.config.iteration_count,
        final_state: claim.final_state,
        commitment_root: claim.commitment_root,
    }
}

impl DcmAirTransitionConstraintEvaluationV1 {
    /// Both residuals are zero.
    pub fn is_satisfied(&self) -> (satisfied: bool)
        ensures
            satisfied == (self.x_transition_residual.value() == 0
                && self.y_transition_residual.value() == 0),
    {
        self.x_transition_residual.is_zero() && self.y_transition_residual.is_zero()
    }
}

/// The row the cat map gives after the current row of a frame.
pub fn expected_next_dcm_air_row_v1(frame: &DcmAirFrameV1) -> (next: DcmState521V1)
    ensures
        dcm521_pair(next) == cat_step(dcm521_pair(frame.current_row), p521_int()),
{
    let current = frame.current_row;
    let next = DcmState521V1 {
        x: current.x.add_mod(&current.y),
        y: current.x.add_mod(&current.y.add_mod(&current.y)),
    };
    proof {
        let p = p521_int();
        crate::limbs_521_v1::lemma_limb_weight_values();
        lemma_cat_apply(dcm521_pair(current));
        let x = current.x.value() as int;
        let y = current.y.value() as int;
        vstd::arithmetic::div_mod::lemma_add_mod_noop_right(x, y + y, p);
    }
    next
}

/// The transition residuals: the next row minus the expected one.
pub fn evaluate_dcm_air_transition_constraints_v1(frame: &DcmAirFrameV1) -> (evaluation: DcmAirTransitionConstraintEvaluationV1)
    ensures
        evaluation.x_transition_residual.value() == (frame.next_row.x.value() - cat_step(
            dcm521_pair(frame.current_row),
            p521_int(),
        ).0) % p521_int(),
        evaluation.y_transition_residual.value() == (frame.next_row.y.value() - cat_step(
            dcm521_pair(frame.current_row),
            p521_int(),
        ).1) % p521_int(),
        (evaluation.x_transition_residual.value() == 0 && evaluation.y_transition_residual.value()
            == 0) <==> dcm521_pair(frame.next_row) == cat_step(
            dcm521_pair(frame.current_row),
            p521_int(),
        ),
{
    let expected = expected_next_dcm_air_row_v1(frame);
    let evaluation = DcmAirTransitionConstraintEvaluationV1 {
        x_transition_residual: frame.next_row.x.sub_mod(&expected.x),
        y_transition_residual: frame.next_row.y.sub_mod(&expected.y),
    };
    proof {
        use_type_invariant(&frame.next_row.x);
        use_type_invariant(&frame.next_row.y);
        use_type_invariant(&expected.x);
        use_type_invariant(&expected.y);
        crate::limbs_521_v1::lemma_limb_weight_values();
        lemma_residual_zero(frame.next_row.x.value() as int, expected.x.value() as int, p521_int());
        lemma_residual_zero(frame.next_row.y.value() as int, expected.y.value() as int, p521_int());
    }
    evaluation
}

/// For reduced values, `(a - b) mod p` is zero exactly when `a = b`.
proof fn lemma_residual_zero(a: int, b: int, p: int)
    requires
        0 <= a < p,
        0 <= b < p,
    ensures
        (a - b) % p == 0 <==> a == b,
{
    if a >= b {
        lemma_small_mod((a - b) as nat, p as nat);
    } else {
        vstd::arithmetic::div_mod::lemma_mod_add_multiples_vanish(a - b, p);
        lemma_small_mod((a - b + p) as nat, p as nat);
    }
}

/// The 8-byte row count, then every row.
pub fn canonical_dcm_air_trace_bytes_v1(trace: &DcmAirTraceV1) -> (bytes: Vec<u8>)
    ensures
        bytes@ == u64_le(trace@.len() as u64) + dcm_rows_bytes(trace@),
{
    let count = u64_to_le_bytes(trace.row_count());
    let mut bytes: Vec<u8> = Vec::new();
    append_bytes(&mut bytes, &count);
    let rows = trace.rows();
    let ghost head = bytes@;
    let mut index: usize = 0;
    while index < rows.len()
        invariant
            0 <= index <= rows@.len(),
            rows@ == trace@,
            bytes@ == head + dcm_rows_bytes(rows@.take(index as int)),
        decreases rows@.len() - index,
    {
        let row = rows[index].canonical_bytes();
        append_bytes(&mut bytes, &row);
        proof {
            assert(rows@.take(index + 1).drop_last() =~= rows@.take(index as int));
        }
        index += 1;
    }
    proof {
        assert(rows@.take(rows@.len() as int) =~= rows@);
    }
    bytes
}

/// Checks the boundaries and every transition of a trace.
pub fn validate_dcm_air_v1(public_inputs: &DcmAirPublicInputsV1, trace: &DcmAirTraceV1) -> (result: Result<DcmAirEvaluationSummaryV1, DcmAirErrorV1>)
    ensures
        dcm_air_accepts(*public_inputs, trace@) <==> result is Ok,
        result matches Ok(summary) ==> summary.row_count == trace@.len()
            && summary.checked_transition_count == public_inputs.iteration_count
            && summary.first_row == trace@[0] && summary.final_row == trace@.last(),
        trace@.len() == 0 ==> result == Err::<DcmAirEvaluationSummaryV1, DcmAirErrorV1>(
            DcmAirErrorV1::EmptyTrace,
        ),
        trace@.len() > 0 && public_inputs.iteration_count == u64::MAX ==> result == Err::<
            DcmAirEvaluationSummaryV1,
            DcmAirErrorV1,
        >(
            DcmAirErrorV1::IterationCountMismatch {
                expected: public_inputs.iteration_count,
                actual: (trace@.len() - 1) as u64,
            },
        ),
        trace@.len() > 0 && public_inputs.iteration_count < u64::MAX && trace@.len()
            != public_inputs.iteration_count + 1 ==> result == Err::<
            DcmAirEvaluationSummaryV1,
            DcmAirErrorV1,
        >(
            DcmAirErrorV1::RowCountMismatch {
                expected: (public_inputs.iteration_count + 1) as u64,
                actual: trace@.len() as u64,
            },
        ),
        trace@.len() > 0 && public_inputs.iteration_count < u64::MAX && trace@.len()
            == public_inputs.iteration_count + 1 && !dcm521_same(
            trace@[0],
            public_inputs.initial_state,
        ) ==> result == Err::<DcmAirEvaluationSummaryV1, DcmAirErrorV1>(
            DcmAirErrorV1::FirstRowMismatch { expected: public_inputs.initial_state, actual: trace@[0] },
        ),
        trace@.len() > 0 && public_inputs.iteration_count < u64::MAX && trace@.len()
            == public_inputs.iteration_count + 1 && dcm521_same(
            trace@[0],
            public_inputs.initial_state,
        ) && !dcm521_same(trace@.last(), public_inputs.final_state) ==> result == Err::<
            DcmAirEvaluationSummaryV1,
            DcmAirErrorV1,
        >(
            DcmAirErrorV1::FinalRowMismatch {
                expected: public_inputs.final_state,
                actual: trace@.last(),
            },
        ),
        trace@.len() > 0 && public_inputs.iteration_count < u64::MAX && trace@.len()
            == public_inputs.iteration_count + 1 && dcm521_same(
            trace@[0],
            public_inputs.initial_state,
        ) && dcm521_same(trace@.last(), public_inputs.final_state) && !dcm_air_transitions_hold(
            trace@,
        ) ==> result is Err && result->Err_0 is TransitionConstraintViolation,
        result matches Err(
            DcmAirErrorV1::TransitionConstraintViolation {
                row_index,
                expected,
                actual,
                x_transition_residual,
                y_transition_residual,
            },
        ) ==> row_index + 1 < trace@.len() && dcm521_steps_before(trace@, row_index as int) && actual
            == trace@[row_index + 1] && dcm521_pair(expected) == cat_step(
            dcm521_pair(trace@[row_index as int]),
            p521_int(),
        ) && dcm521_pair(actual) != dcm521_pair(expected) && x_transition_residual.value() == (
        actual.x.value() - dcm521_pair(expected).0) % p521_int() && y_transition_residual.value() == (
        actual.y.value() - dcm521_pair(expected).1) % p521_int(),
{
    let actual_row_count = trace.row_count();
    if actual_row_count == 0 {
        return Err(DcmAirErrorV1::EmptyTrace);
    }
    if public_inputs.iteration_count == u64::MAX {
        return Err(
            DcmAirErrorV1::IterationCountMismatch {
                expected: public_inputs.iteration_count,
                actual: actual_row_count - 1,
            },
        );
    }
    let expected_row_count = public_inputs.iteration_count + 1;
    if actual_row_count != expected_row_count {
        return Err(
            DcmAirErrorV1::RowCountMismatch { expected: expected_row_count, actual: actual_row_count },
        );
    }
    let actual_iteration_count = actual_row_count - 1;
    let rows = trace.rows();
    let first_row = rows[0];
    if !first_row.same_as(&public_inputs.initial_state) {
        return Err(
            DcmAirErrorV1::FirstRowMismatch { expected: public_inputs.initial_state, actual: first_row },
        );
    }
    let final_row = rows[rows.len() - 1];
    if !final_row.same_as(&public_inputs.final_state) {
        return Err(
            DcmAirErrorV1::FinalRowMismatch { expected: public_inputs.final_state, actual: final_row },
        );
    }
    let mut row_index: usize = 0;
    while row_index + 1 < rows.len()
        invariant
            rows@ == trace@,
            rows@.len() == public_inputs.iteration_count + 1,
            public_inputs.iteration_count < u64::MAX,
            0 <= row_index < rows.len(),
            dcm521_same(rows@[0], public_inputs.initial_state),
            dcm521_same(rows@.last(), public_inputs.final_state),
            forall|i: int|
                0 <= i < row_index ==> #[trigger] dcm521_pair(rows@[i + 1]) == cat_step(
                    dcm521_pair(rows@[i]),
                    p521_int(),
                ),
        decreases rows@.len() - row_index,
    {
        let frame = DcmAirFrameV1 { current_row: rows[row_index], next_row: rows[row_index + 1] };
        let constraint_evaluation = evaluate_dcm_air_transition_constraints_v1(&frame);
        if !constraint_evaluation.is_satisfied() {
            return Err(
                DcmAirErrorV1::TransitionConstraintViolation {
                    row_index: row_index as u64,
                    expected: expected_next_dcm_air_row_v1(&frame),
                    actual: frame.next_row,
                    x_transition_residual: constraint_evaluation.x_transition_residual,
                    y_transition_residual: constraint_evaluation.y_transition_residual,
                },
            );
        }
        row_index += 1;
    }
    Ok(
        DcmAirEvaluationSummaryV1 {
            row_count: actual_row_count,
            checked_transition_count: actual_iteration_count,
            first_row,
            final_row,
        },
    )
}

/// The verdict of `validate_dcm_air_v1` as a value.
pub fn evaluate_dcm_air_v1(public_inputs: &DcmAirPublicInputsV1, trace: &DcmAirTraceV1) -> (result: DcmAirEvaluationResultV1)
    ensures
        dcm_air_accepts(*public_inputs, trace@) <==> result is Accept,
        result matches DcmAirEvaluationResultV1::Accept(summary) ==> summary.row_count
            == trace@.len() && summary.first_row == trace@[0] && summary.final_row
            == trace@.last(),
{
    match validate_dcm_air_v1(public_inputs, trace) {
        Ok(summary) => DcmAirEvaluationResultV1::Accept(summary),
        Err(error) => DcmAirEvaluationResultV1::Reject(error),
    }
}

/// The rows of a trace.
pub(crate) fn trace_rows(trace: &DcmAirTraceV1) -> (rows: &[DcmState521V1])
    ensures
        rows@ == trace@,
{
    trace.rows()
}

/// A copy of a trace.
pub(crate) fn copy_trace(trace: &DcmAirTraceV1) -> (copy: DcmAirTraceV1)
    ensures
        copy@ == trace@,
{
    let rows = trace.rows();
    let mut copied: Vec<DcmState521V1> = Vec::new();
    let mut index: usize = 0;
    while index < rows.len()
        invariant
            0 <= index <= rows@.len(),
            copied@ == rows@.take(index as int),
        decreases rows@.len() - index,
    {
        copied.push(rows[index]);
        proof {
            assert(copied@ =~= rows@.take(index + 1));
        }
        index += 1;
    }
    proof {
        assert(rows@.take(rows@.len() as int) =~= rows@);
    }
    DcmAirTraceV1::new(copied)
}

} // verus!
