//! AIR-facing validation for Storm: public inputs, the trace witness (the
//! trace and one record per step), its byte encoding, and validators that
//! check a trace or a witness against a claim.

use crate::encoding_v1::{append_bytes, copy_range_into, le_value, u64_from_le_bytes, u64_le, u64_to_le_bytes};
use crate::field_521_v1::{bytes_equal, fe_decode_error, lemma_fe_encoding, FieldElement521V1, FieldElementErrorV1};
use crate::storm_claim_v1::{
    build_storm_public_inputs_v1, claim_inputs, sha3_256_domain_separated_spec,
    storm_claim_error_of, storm_claim_header_valid, storm_claim_valid, StormClaim521V1, StormClaimErrorV1, AURA_STORM_CONTEXT_HASH_V1_DOMAIN_SEPARATOR,
    AURA_STORM_SIDE_A_HASH_V1_DOMAIN_SEPARATOR, AURA_STORM_SIDE_B_HASH_V1_DOMAIN_SEPARATOR,
};
use crate::storm_context_v1::{storm_context_bytes_valid, validate_context_bytes_v1, StormContextErrorV1};
use crate::storm_execution_v1::{
    a_spec, b_spec, derive_a, derive_b, derive_phi_n, derive_psi_n, execute_storm_v1,
    lemma_trace_root_of_matching_trace, phi_spec, psi_spec, state_values, storm_expected_trace_root,
    storm_state_at, storm_step, storm_step_spec, storm_trace_matches, StormExecutionInputsV1,
};
use crate::storm_state_v1::{
    decode_row_bytes, lemma_storm_row_injective, lemma_storm_row_layout, lemma_storm_row_round_trip,
    state_canonical, storm_row_decode_error, storm_row_spec, StormState521V1, StormStateEncodingErrorV1,
};
use crate::storm_trace_commitment_v1::compute_storm_trace_root;
use vstd::prelude::*;

verus! {

/// The public inputs of the AIR.
#[derive(Clone, Copy, Debug, PartialEq, Eq)]
pub struct StormAirPublicInputsV1 {
    pub version: u8,
    pub modulus_id: u8,
    pub iteration_count: u64,
    pub side_a_hash: [u8; 32],
    pub side_b_hash: [u8; 32],
    pub context_hash: [u8; 32],
    pub initial_state: StormState521V1,
    pub final_state: StormState521V1,
    pub trace_root: [u8; 32],
}

pub const STORM_AIR_PUBLIC_INPUTS_521_CANONICAL_BYTE_LEN_V1: usize = 402;

pub const STORM_TRACE_STEP_WITNESS_521_CANONICAL_BYTE_LEN_V1: usize = 404;

/// Everything a prover needs: the public inputs, the constants, the trace and
/// its root, and one record per step.
#[derive(Clone, Debug, PartialEq, Eq)]
pub struct StormTraceWitnessV1 {
    pub public_inputs: StormAirPublicInputsV1,
    pub a: FieldElement521V1,
    pub b: FieldElement521V1,
    pub trace_root: [u8; 32],
    pub trace: Vec<StormState521V1>,
    pub steps: Vec<StormTraceStepWitnessV1>,
}

/// One step: its index, the states before and after, and its forcing terms.
#[derive(Clone, Copy, Debug, PartialEq, Eq)]
pub struct StormTraceStepWitnessV1 {
    pub step_index: u64,
    pub state: StormState521V1,
    pub next_state: StormState521V1,
    pub phi_n: FieldElement521V1,
    pub psi_n: FieldElement521V1,
}

/// Why bytes are not a witness encoding.
#[allow(inconsistent_fields)]
#[derive(Clone, Copy, Debug, PartialEq, Eq)]
pub enum StormTraceWitnessEncodingErrorV1 {
    InvalidLength { field: &'static str, expected: usize, actual: usize },
    InvalidPublicInputs { field: &'static str },
    InvalidState { field: &'static str, error: StormStateEncodingErrorV1 },
    InvalidFieldElement { field: &'static str, error: FieldElementErrorV1 },
    TrailingBytes { remaining: usize },
}

/// Why a trace or a witness does not match a claim.
#[allow(inconsistent_fields)]
#[derive(Clone, Copy, Debug, PartialEq, Eq)]
pub enum StormAirValidationErrorV1 {
    InvalidClaim(StormClaimErrorV1),
    InvalidContext(StormContextErrorV1),
    TraceLengthMismatch { expected: u64, actual: u64 },
    StepCountMismatch { expected: u64, actual: u64 },
    InitialStateMismatch { expected: StormState521V1, actual: StormState521V1 },
    RepeatedState { first_index: u64, second_index: u64 },
    StepIndexMismatch { expected: u64, actual: u64 },
    StepStateMismatch { index: u64, field: &'static str },
    GeometryMismatch { field: &'static str },
    ForcingMismatch { index: u64, field: &'static str },
    PublicInputsMismatch { field: &'static str },
    TransitionMismatch { index: u64, expected: StormState521V1, actual: StormState521V1 },
    FinalStateMismatch { expected: StormState521V1, actual: StormState521V1 },
    TraceRootMismatch { expected: [u8; 32], actual: [u8; 32] },
}

/// The encoding of AIR public inputs, field by field.
pub open spec fn air_public_inputs_bytes_spec(inputs: StormAirPublicInputsV1) -> Seq<u8> {
    seq![inputs.version, inputs.modulus_id] + u64_le(inputs.iteration_count)
        + inputs.side_a_hash@ + inputs.side_b_hash@ + inputs.context_hash@ + storm_row_spec(
        inputs.initial_state,
    ) + storm_row_spec(inputs.final_state) + inputs.trace_root@
}

/// Two states with the same encodings.
pub open spec fn same_state(s: StormState521V1, t: StormState521V1) -> bool {
    s.x@ == t.x@ && s.y@ == t.y@
}

/// The AIR public inputs of a claim, field by field.
pub open spec fn air_public_inputs_of(claim: StormClaim521V1, inputs: StormAirPublicInputsV1) -> bool {
    &&& inputs.version == claim.version
    &&& inputs.modulus_id == claim.modulus_id
    &&& inputs.iteration_count == claim.iteration_count
    &&& inputs.side_a_hash@ == sha3_256_domain_separated_spec(
        AURA_STORM_SIDE_A_HASH_V1_DOMAIN_SEPARATOR@,
        claim.side_a@,
    )
    &&& inputs.side_b_hash@ == sha3_256_domain_separated_spec(
        AURA_STORM_SIDE_B_HASH_V1_DOMAIN_SEPARATOR@,
        claim.side_b@,
    )
    &&& inputs.context_hash@ == sha3_256_domain_separated_spec(
        AURA_STORM_CONTEXT_HASH_V1_DOMAIN_SEPARATOR@,
        claim.context_bytes_v1@,
    )
    &&& same_state(inputs.initial_state, claim.initial_state)
    &&& same_state(inputs.final_state, claim.final_state)
    &&& inputs.trace_root@ == claim.trace_root@
}

/// The step records of a trace: record `i` names step `i`, the states at `i`
/// and `i + 1`, and the forcing terms of step `i`.
pub open spec fn steps_match(claim: StormClaim521V1, trace: Seq<StormState521V1>, steps: Seq<StormTraceStepWitnessV1>) -> bool {
    &&& steps.len() + 1 == trace.len()
    &&& forall|i: int|
        0 <= i < steps.len() ==> {
            &&& (#[trigger] steps[i]).step_index == i
            &&& same_state(steps[i].state, trace[i])
            &&& same_state(steps[i].next_state, trace[i + 1])
            &&& steps[i].phi_n.value() == phi_spec(
                claim.side_a@,
                claim.side_b@,
                claim.context_bytes_v1@,
                i as u64,
            )
            &&& steps[i].psi_n.value() == psi_spec(
                claim.side_a@,
                claim.side_b@,
                claim.context_bytes_v1@,
                i as u64,
            )
        }
}

/// The first `n` step records are those of the trace, as `steps_match`
/// describes them.
pub open spec fn steps_match_before(claim: StormClaim521V1, trace: Seq<StormState521V1>, steps: Seq<StormTraceStepWitnessV1>, n: int) -> bool {
    forall|i: int|
        0 <= i < n ==> {
            &&& (#[trigger] steps[i]).step_index == i
            &&& same_state(steps[i].state, trace[i])
            &&& same_state(steps[i].next_state, trace[i + 1])
            &&& steps[i].phi_n.value() == phi_spec(
                claim.side_a@,
                claim.side_b@,
                claim.context_bytes_v1@,
                i as u64,
            )
            &&& steps[i].psi_n.value() == psi_spec(
                claim.side_a@,
                claim.side_b@,
                claim.context_bytes_v1@,
                i as u64,
            )
        }
}

impl StormAirPublicInputsV1 {
    /// The 402-byte canonical encoding.
    pub fn canonical_bytes(&self) -> (bytes: Vec<u8>)
        ensures
            bytes@ == air_public_inputs_bytes_spec(*self),
    {
        let mut bytes: Vec<u8> = Vec::new();
        bytes.push(self.version);
        bytes.push(self.modulus_id);
        let count = u64_to_le_bytes(self.iteration_count);
        append_bytes(&mut bytes, &count);
        append_bytes(&mut bytes, &self.side_a_hash);
        append_bytes(&mut bytes, &self.side_b_hash);
        append_bytes(&mut bytes, &self.context_hash);
        let initial = self.initial_state.encode_row_bytes();
        append_bytes(&mut bytes, &initial);
        let final_row = self.final_state.encode_row_bytes();
        append_bytes(&mut bytes, &final_row);
        append_bytes(&mut bytes, &self.trace_root);
        proof {
            assert(bytes@ =~= air_public_inputs_bytes_spec(*self));
        }
        bytes
    }

    /// Field-by-field equality of encodings.
    pub fn same_as(&self, other: &Self) -> (same: bool)
        ensures
            same == (self.version == other.version && self.modulus_id == other.modulus_id
                && self.iteration_count == other.iteration_count && self.side_a_hash@
                == other.side_a_hash@ && self.side_b_hash@ == other.side_b_hash@
                && self.context_hash@ == other.context_hash@ && same_state(
                self.initial_state,
                other.initial_state,
            ) && same_state(self.final_state, other.final_state) && self.trace_root@
                == other.trace_root@),
    {
        self.version == other.version && self.modulus_id == other.modulus_id
            && self.iteration_count == other.iteration_count && bytes_equal(
            &self.side_a_hash,
            &other.side_a_hash,
        ) && bytes_equal(&self.side_b_hash, &other.side_b_hash) && bytes_equal(
            &self.context_hash,
            &other.context_hash,
        ) && self.initial_state.same_as(&other.initial_state) && self.final_state.same_as(
            &other.final_state,
        ) && bytes_equal(&self.trace_root, &other.trace_root)
    }
}

/// The AIR public inputs of a claim.
pub fn build_storm_air_public_inputs_v1(claim: &StormClaim521V1) -> (inputs: StormAirPublicInputsV1)
    ensures
        air_public_inputs_of(*claim, inputs),
        inputs.initial_state == claim.initial_state,
        inputs.final_state == claim.final_state,
{
    let public_inputs = build_storm_public_inputs_v1(claim);
    StormAirPublicInputsV1 {
        version: public_inputs.version,
        modulus_id: public_inputs.modulus_id,
        iteration_count: public_inputs.iteration_count,
        side_a_hash: public_inputs.side_a_hash,
        side_b_hash: public_inputs.side_b_hash,
        context_hash: public_inputs.context_hash,
        initial_state: public_inputs.initial_state,
        final_state: public_inputs.final_state,
        trace_root: public_inputs.trace_root,
    }
}

/// Builds the witness of a valid claim by re-executing it.
pub fn build_storm_trace_witness_v1(claim: &StormClaim521V1) -> (result: Result<StormTraceWitnessV1, StormAirValidationErrorV1>)
    requires
        storm_claim_header_valid(*claim) ==> (claim.iteration_count as int) < usize::MAX,
    ensures
        result matches Err(StormAirValidationErrorV1::InvalidClaim(error)) ==> storm_claim_error_of(
            *claim,
            error,
        ),
        !storm_claim_valid(*claim) ==> (result matches Err(StormAirValidationErrorV1::InvalidClaim(_))),
        storm_claim_valid(*claim) ==> (result matches Ok(witness) && {
            &&& air_public_inputs_of(*claim, witness.public_inputs)
            &&& witness.a.value() == a_spec(claim.context_bytes_v1@)
            &&& witness.b.value() == b_spec(claim.context_bytes_v1@)
            &&& witness.trace_root@ == storm_expected_trace_root(claim_inputs(*claim))
            &&& storm_trace_matches(claim_inputs(*claim), witness.trace@)
            &&& steps_match(*claim, witness.trace@, witness.steps@)
        }),
{
    match claim.validate() {
        Ok(()) => {},
        Err(error) => {
            return Err(StormAirValidationErrorV1::InvalidClaim(error));
        },
    }
    match validate_context_bytes_v1(&claim.context_bytes_v1) {
        Ok(_) => {},
        Err(error) => {
            return Err(StormAirValidationErrorV1::InvalidContext(error));
        },
    }
    let inputs = StormExecutionInputsV1 {
        side_a: claim.side_a,
        side_b: claim.side_b,
        context_bytes_v1: claim.context_bytes_v1,
        iteration_count: claim.iteration_count,
    };
    proof {
        assert(inputs == claim_inputs(*claim));
    }
    let execution = execute_storm_v1(&inputs);
    let trace_root = compute_storm_trace_root(execution.trace.as_slice());
    proof {
        lemma_trace_root_of_matching_trace(inputs, execution.trace@);
    }
    let a = derive_a(&claim.context_bytes_v1);
    let b = derive_b(&claim.context_bytes_v1);
    let mut steps: Vec<StormTraceStepWitnessV1> = Vec::new();
    let count = execution.trace.len() - 1;
    let mut index: usize = 0;
    while index < count
        invariant
            count + 1 == execution.trace@.len(),
            0 <= index <= count,
            steps@.len() == index,
            forall|i: int|
                0 <= i < index ==> {
                    &&& (#[trigger] steps@[i]).step_index == i
                    &&& steps@[i].state == execution.trace@[i]
                    &&& steps@[i].next_state == execution.trace@[i + 1]
                    &&& steps@[i].phi_n.value() == phi_spec(
                        claim.side_a@,
                        claim.side_b@,
                        claim.context_bytes_v1@,
                        i as u64,
                    )
                    &&& steps@[i].psi_n.value() == psi_spec(
                        claim.side_a@,
                        claim.side_b@,
                        claim.context_bytes_v1@,
                        i as u64,
                    )
                },
        decreases count - index,
    {
        let step_index = index as u64;
        let step = StormTraceStepWitnessV1 {
            step_index,
            state: execution.trace[index],
            next_state: execution.trace[index + 1],
            phi_n: derive_phi_n(&claim.side_a, &claim.side_b, &claim.context_bytes_v1, step_index),
            psi_n: derive_psi_n(&claim.side_a, &claim.side_b, &claim.context_bytes_v1, step_index),
        };
        steps.push(step);
        index += 1;
    }
    let public_inputs = build_storm_air_public_inputs_v1(claim);
    Ok(StormTraceWitnessV1 { public_inputs, a, b, trace_root, trace: execution.trace, steps })
}

/// No two of the first `n` states of the trace have the same encoding.
pub open spec fn states_distinct_before(trace: Seq<StormState521V1>, n: int) -> bool {
    forall|i: int, j: int| 0 <= i < j < n ==> !same_state(#[trigger] trace[i], #[trigger] trace[j])
}

/// Whether the first `n` states of the trace are those of the execution the
/// claim names.
pub open spec fn trace_prefix_matches(claim: StormClaim521V1, trace: Seq<StormState521V1>, n: int) -> bool {
    forall|k: int|
        0 <= k < n ==> #[trigger] state_values(trace[k]) == storm_state_at(claim_inputs(claim), k as nat)
}

/// A trace the validator accepts for a claim: the claim is valid, and the
/// trace is exactly its execution, with no state repeated.
pub open spec fn storm_trace_valid_for(claim: StormClaim521V1, trace: Seq<StormState521V1>) -> bool {
    &&& storm_claim_valid(claim)
    &&& trace.len() == claim.iteration_count + 1
    &&& trace_prefix_matches(claim, trace, trace.len() as int)
    &&& states_distinct_before(trace, trace.len() as int)
}

/// The first repeated state of a trace, if any: `Some((i, j))` where state `j`
/// repeats state `i` and no earlier state repeats.
fn find_repeated_state(trace: &[StormState521V1]) -> (found: Option<(usize, usize)>)
    ensures
        found is None ==> states_distinct_before(trace@, trace@.len() as int),
        found matches Some((i, j)) ==> i < j < trace@.len() && same_state(trace@[i as int], trace@[j as int])
            && states_distinct_before(trace@, j as int) && forall|k: int|
            0 <= k < i ==> !same_state(#[trigger] trace@[k], trace@[j as int]),
{
    let mut j: usize = 0;
    while j < trace.len()
        invariant
            0 <= j <= trace@.len(),
            states_distinct_before(trace@, j as int),
        decreases trace@.len() - j,
    {
        let mut i: usize = 0;
        while i < j
            invariant
                0 <= i <= j < trace@.len(),
                states_distinct_before(trace@, j as int),
                forall|k: int| 0 <= k < i ==> !same_state(#[trigger] trace@[k], trace@[j as int]),
            decreases j - i,
        {
            if trace[i].same_as(&trace[j]) {
                return Some((i, j));
            }
            i += 1;
        }
        j += 1;
    }
    None
}

/// Two canonical states with the same encoding have the same values, and
/// conversely.
proof fn lemma_same_state_values(s: StormState521V1, t: StormState521V1)
    requires
        s.x.is_canonical(),
        s.y.is_canonical(),
        t.x.is_canonical(),
        t.y.is_canonical(),
    ensures
        same_state(s, t) <==> state_values(s) == state_values(t),
{
    lemma_fe_encoding(s.x);
    lemma_fe_encoding(s.y);
    lemma_fe_encoding(t.x);
    lemma_fe_encoding(t.y);
}

/// Checks a trace against a claim: the claim, the length, the initial state,
/// that no state repeats, every transition, the final state and the root.
pub fn validate_trace_against_claim(claim: &StormClaim521V1, trace: &[StormState521V1]) -> (result: Result<(), StormAirValidationErrorV1>)
    requires
        storm_claim_header_valid(*claim) ==> (claim.iteration_count as int) < usize::MAX,
    ensures
        result matches Err(StormAirValidationErrorV1::InvalidContext(_)) ==> !storm_context_bytes_valid(
            claim.context_bytes_v1@,
        ),
        result matches Err(StormAirValidationErrorV1::InvalidClaim(error)) ==> storm_claim_error_of(
            *claim,
            error,
        ),
        storm_trace_valid_for(*claim, trace@) <==> result is Ok,
        result is Ok ==> forall|k: int|
            0 <= k < trace@.len() ==> (#[trigger] trace@[k]).x.is_canonical()
                && trace@[k].y.is_canonical(),
        result matches Err(error) ==> error is InvalidClaim || error is InvalidContext
            || error is TraceLengthMismatch || error is InitialStateMismatch
            || error is RepeatedState || error is TransitionMismatch || error is FinalStateMismatch
            || error is TraceRootMismatch,
        !storm_claim_valid(*claim) ==> (result matches Err(StormAirValidationErrorV1::InvalidClaim(_))),
        storm_claim_valid(*claim) && trace@.len() != claim.iteration_count + 1 ==> result == Err::<
            (),
            StormAirValidationErrorV1,
        >(
            StormAirValidationErrorV1::TraceLengthMismatch {
                expected: (claim.iteration_count + 1) as u64,
                actual: trace@.len() as u64,
            },
        ),
        storm_claim_valid(*claim) && trace@.len() == claim.iteration_count + 1 && !same_state(
            trace@[0],
            claim.initial_state,
        ) ==> result == Err::<(), StormAirValidationErrorV1>(
            StormAirValidationErrorV1::InitialStateMismatch {
                expected: claim.initial_state,
                actual: trace@[0],
            },
        ),
        storm_claim_valid(*claim) && trace@.len() == claim.iteration_count + 1 && same_state(
            trace@[0],
            claim.initial_state,
        ) && !states_distinct_before(trace@, trace@.len() as int) ==> (result matches Err(
            StormAirValidationErrorV1::RepeatedState { .. },
        )),
        result matches Err(StormAirValidationErrorV1::RepeatedState { first_index, second_index })
            ==> first_index < second_index < trace@.len() && same_state(
            trace@[first_index as int],
            trace@[second_index as int],
        ) && states_distinct_before(trace@, second_index as int) && forall|k: int|
            0 <= k < first_index ==> !same_state(#[trigger] trace@[k], trace@[second_index as int]),
        result matches Err(StormAirValidationErrorV1::TransitionMismatch { index, expected, actual })
            ==> states_distinct_before(trace@, trace@.len() as int) && index < claim.iteration_count
            && trace_prefix_matches(*claim, trace@, index + 1)
            && state_values(expected) == storm_state_at(claim_inputs(*claim), (index + 1) as nat)
            && actual == trace@[index + 1] && state_values(actual) != state_values(expected),
{
    match claim.validate() {
        Ok(()) => {},
        Err(error) => {
            return Err(StormAirValidationErrorV1::InvalidClaim(error));
        },
    }
    match validate_context_bytes_v1(&claim.context_bytes_v1) {
        Ok(_) => {},
        Err(error) => {
            return Err(StormAirValidationErrorV1::InvalidContext(error));
        },
    }
    let expected_len = claim.iteration_count + 1;
    if trace.len() as u64 != expected_len {
        return Err(
            StormAirValidationErrorV1::TraceLengthMismatch {
                expected: expected_len,
                actual: trace.len() as u64,
            },
        );
    }
    let first = trace[0];
    proof {
        use_type_invariant(&first.x);
        use_type_invariant(&first.y);
        use_type_invariant(&claim.initial_state.x);
        use_type_invariant(&claim.initial_state.y);
        lemma_same_state_values(first, claim.initial_state);
    }
    if !first.same_as(&claim.initial_state) {
        return Err(
            StormAirValidationErrorV1::InitialStateMismatch {
                expected: claim.initial_state,
                actual: first,
            },
        );
    }
    match find_repeated_state(trace) {
        Some((first_index, second_index)) => {
            return Err(
                StormAirValidationErrorV1::RepeatedState {
                    first_index: first_index as u64,
                    second_index: second_index as u64,
                },
            );
        },
        None => {},
    }
    let a = derive_a(&claim.context_bytes_v1);
    let b = derive_b(&claim.context_bytes_v1);
    let ghost inputs = claim_inputs(*claim);
    let count = trace.len() - 1;
    let mut index: usize = 0;
    while index < count
        invariant
            count + 1 == trace@.len(),
            count == claim.iteration_count,
            0 <= index <= count,
            inputs == claim_inputs(*claim),
            storm_claim_valid(*claim),
            same_state(trace@[0], claim.initial_state),
            states_distinct_before(trace@, trace@.len() as int),
            a.value() == a_spec(claim.context_bytes_v1@),
            b.value() == b_spec(claim.context_bytes_v1@),
            trace_prefix_matches(*claim, trace@, index + 1),
            forall|k: int|
                0 <= k <= index ==> (#[trigger] trace@[k]).x.is_canonical()
                    && trace@[k].y.is_canonical(),
        decreases count - index,
    {
        let state = trace[index];
        let actual = trace[index + 1];
        let phi_n = derive_phi_n(&claim.side_a, &claim.side_b, &claim.context_bytes_v1, index as u64);
        let psi_n = derive_psi_n(&claim.side_a, &claim.side_b, &claim.context_bytes_v1, index as u64);
        let expected = storm_step(&state, &a, &b, &phi_n, &psi_n);
        proof {
            use_type_invariant(&actual.x);
            use_type_invariant(&actual.y);
            use_type_invariant(&expected.x);
            use_type_invariant(&expected.y);
            lemma_same_state_values(actual, expected);
            assert(state_values(trace@[index as int]) == storm_state_at(inputs, index as nat));
            assert(storm_state_at(inputs, (index + 1) as nat) == storm_step_spec(
                storm_state_at(inputs, index as nat).0,
                storm_state_at(inputs, index as nat).1,
                a_spec(claim.context_bytes_v1@),
                b_spec(claim.context_bytes_v1@),
                phi_spec(claim.side_a@, claim.side_b@, claim.context_bytes_v1@, index as u64),
                psi_spec(claim.side_a@, claim.side_b@, claim.context_bytes_v1@, index as u64),
            ));
        }
        if !actual.same_as(&expected) {
            return Err(
                StormAirValidationErrorV1::TransitionMismatch { index: index as u64, expected, actual },
            );
        }
        index += 1;
    }
    let last = trace[count];
    proof {
        use_type_invariant(&last.x);
        use_type_invariant(&last.y);
        use_type_invariant(&claim.final_state.x);
        use_type_invariant(&claim.final_state.y);
        lemma_same_state_values(last, claim.final_state);
        assert(state_values(trace@[count as int]) == storm_state_at(inputs, count as nat));
    }
    if !last.same_as(&claim.final_state) {
        return Err(
            StormAirValidationErrorV1::FinalStateMismatch { expected: claim.final_state, actual: last },
        );
    }
    proof {
        lemma_trace_root_of_matching_trace(inputs, trace@);
    }
    let expected_trace_root = compute_storm_trace_root(trace);
    if !bytes_equal(&expected_trace_root, &claim.trace_root) {
        return Err(
            StormAirValidationErrorV1::TraceRootMismatch {
                expected: claim.trace_root,
                actual: expected_trace_root,
            },
        );
    }
    Ok(())
}

/// The claim is valid, and the witness carries its public inputs and its two
/// constants.
pub open spec fn witness_constants_ok(claim: StormClaim521V1, witness: StormTraceWitnessV1) -> bool {
    &&& storm_claim_valid(claim)
    &&& air_public_inputs_of(claim, witness.public_inputs)
    &&& witness.a.value() == a_spec(claim.context_bytes_v1@)
    &&& witness.b.value() == b_spec(claim.context_bytes_v1@)
}

/// A witness the validator accepts for a claim.
pub open spec fn storm_witness_valid_for(claim: StormClaim521V1, witness: StormTraceWitnessV1) -> bool {
    &&& storm_trace_valid_for(claim, witness.trace@)
    &&& air_public_inputs_of(claim, witness.public_inputs)
    &&& witness.a.value() == a_spec(claim.context_bytes_v1@)
    &&& witness.b.value() == b_spec(claim.context_bytes_v1@)
    &&& witness.trace_root@ == storm_expected_trace_root(claim_inputs(claim))
    &&& steps_match(claim, witness.trace@, witness.steps@)
}

/// Checks a witness against a claim: the public inputs, the constants, the
/// trace, the root, and every step record.
pub fn validate_trace_witness_against_claim(claim: &StormClaim521V1, witness: &StormTraceWitnessV1) -> (result: Result<(), StormAirValidationErrorV1>)
    requires
        storm_claim_header_valid(*claim) ==> (claim.iteration_count as int) < usize::MAX,
    ensures
        result matches Err(StormAirValidationErrorV1::InvalidClaim(error)) ==> storm_claim_error_of(
            *claim,
            error,
        ),
        storm_witness_valid_for(*claim, *witness) <==> result is Ok,
        !storm_claim_valid(*claim) ==> (result matches Err(StormAirValidationErrorV1::InvalidClaim(_))),
        storm_claim_valid(*claim) && !air_public_inputs_of(*claim, witness.public_inputs) ==> result
            == Err::<(), StormAirValidationErrorV1>(
            StormAirValidationErrorV1::PublicInputsMismatch { field: "public_inputs" },
        ),
        storm_claim_valid(*claim) && air_public_inputs_of(*claim, witness.public_inputs)
            && witness.a.value() != a_spec(claim.context_bytes_v1@) ==> result == Err::<
            (),
            StormAirValidationErrorV1,
        >(StormAirValidationErrorV1::GeometryMismatch { field: "a" }),
        storm_claim_valid(*claim) && air_public_inputs_of(*claim, witness.public_inputs)
            && witness.a.value() == a_spec(claim.context_bytes_v1@) && witness.b.value() != b_spec(
            claim.context_bytes_v1@,
        ) ==> result == Err::<(), StormAirValidationErrorV1>(
            StormAirValidationErrorV1::GeometryMismatch { field: "b" },
        ),
        witness_constants_ok(*claim, *witness) && witness.trace@.len() != claim.iteration_count + 1
            ==> result == Err::<(), StormAirValidationErrorV1>(
            StormAirValidationErrorV1::TraceLengthMismatch {
                expected: (claim.iteration_count + 1) as u64,
                actual: witness.trace@.len() as u64,
            },
        ),
        witness_constants_ok(*claim, *witness) && !storm_trace_valid_for(*claim, witness.trace@) ==> (
        result matches Err(error) && (error is TraceLengthMismatch || error is InitialStateMismatch
            || error is RepeatedState || error is TransitionMismatch || error is FinalStateMismatch
            || error is TraceRootMismatch)),
        witness_constants_ok(*claim, *witness) && storm_trace_valid_for(*claim, witness.trace@)
            && witness.trace_root@ != storm_expected_trace_root(claim_inputs(*claim)) ==> (result matches Err(
            StormAirValidationErrorV1::TraceRootMismatch { expected, actual },
        ) && expected@ == storm_expected_trace_root(claim_inputs(*claim)) && actual
            == witness.trace_root),
        witness_constants_ok(*claim, *witness) && storm_trace_valid_for(*claim, witness.trace@)
            && witness.trace_root@ == storm_expected_trace_root(claim_inputs(*claim))
            && witness.steps@.len() != claim.iteration_count ==> result == Err::<
            (),
            StormAirValidationErrorV1,
        >(
            StormAirValidationErrorV1::StepCountMismatch {
                expected: claim.iteration_count,
                actual: witness.steps@.len() as u64,
            },
        ),
        witness_constants_ok(*claim, *witness) && storm_trace_valid_for(*claim, witness.trace@)
            && witness.trace_root@ == storm_expected_trace_root(claim_inputs(*claim))
            && witness.steps@.len() == claim.iteration_count && !steps_match(
            *claim,
            witness.trace@,
            witness.steps@,
        ) ==> (result matches Err(error) && (error is StepIndexMismatch || error is StepStateMismatch
            || error is ForcingMismatch)),
        result matches Err(StormAirValidationErrorV1::StepIndexMismatch { expected, actual }) ==> {
            &&& expected < witness.steps@.len()
            &&& steps_match_before(*claim, witness.trace@, witness.steps@, expected as int)
            &&& witness.steps@[expected as int].step_index == actual
            &&& actual != expected
        },
        result matches Err(StormAirValidationErrorV1::StepStateMismatch { index, field }) ==> {
            let i = index as int;
            let step = witness.steps@[i];
            &&& i < witness.steps@.len()
            &&& steps_match_before(*claim, witness.trace@, witness.steps@, i)
            &&& step.step_index == index
            &&& {
                ||| field == "state" && !same_state(step.state, witness.trace@[i])
                ||| field == "next_state" && same_state(step.state, witness.trace@[i]) && !same_state(
                    step.next_state,
                    witness.trace@[i + 1],
                )
            }
        },
        result matches Err(StormAirValidationErrorV1::ForcingMismatch { index, field }) ==> {
            let i = index as int;
            let step = witness.steps@[i];
            &&& i < witness.steps@.len()
            &&& steps_match_before(*claim, witness.trace@, witness.steps@, i)
            &&& step.step_index == index
            &&& same_state(step.state, witness.trace@[i])
            &&& same_state(step.next_state, witness.trace@[i + 1])
            &&& {
                ||| field == "phi_n" && step.phi_n.value() != phi_spec(
                    claim.side_a@,
                    claim.side_b@,
                    claim.context_bytes_v1@,
                    index,
                )
                ||| field == "psi_n" && step.phi_n.value() == phi_spec(
                    claim.side_a@,
                    claim.side_b@,
                    claim.context_bytes_v1@,
                    index,
                ) && step.psi_n.value() != psi_spec(
                    claim.side_a@,
                    claim.side_b@,
                    claim.context_bytes_v1@,
                    index,
                )
            }
        },
{
    match claim.validate() {
        Ok(()) => {},
        Err(error) => {
            return Err(StormAirValidationErrorV1::InvalidClaim(error));
        },
    }
    match validate_context_bytes_v1(&claim.context_bytes_v1) {
        Ok(_) => {},
        Err(error) => {
            return Err(StormAirValidationErrorV1::InvalidContext(error));
        },
    }
    let expected_public_inputs = build_storm_air_public_inputs_v1(claim);
    if !witness.public_inputs.same_as(&expected_public_inputs) {
        return Err(StormAirValidationErrorV1::PublicInputsMismatch { field: "public_inputs" });
    }
    let expected_a = derive_a(&claim.context_bytes_v1);
    proof {
        use_type_invariant(&witness.a);
        use_type_invariant(&expected_a);
        lemma_fe_encoding(witness.a);
        lemma_fe_encoding(expected_a);
    }
    if !witness.a.same_as(&expected_a) {
        return Err(StormAirValidationErrorV1::GeometryMismatch { field: "a" });
    }
    let expected_b = derive_b(&claim.context_bytes_v1);
    proof {
        use_type_invariant(&witness.b);
        use_type_invariant(&expected_b);
        lemma_fe_encoding(witness.b);
        lemma_fe_encoding(expected_b);
    }
    if !witness.b.same_as(&expected_b) {
        return Err(StormAirValidationErrorV1::GeometryMismatch { field: "b" });
    }
    match validate_trace_against_claim(claim, witness.trace.as_slice()) {
        Ok(()) => {},
        Err(error) => {
            return Err(error);
        },
    }
    let expected_trace_root = compute_storm_trace_root(witness.trace.as_slice());
    proof {
        assert forall|i: int| 0 <= i < witness.trace@.len() implies #[trigger] state_values(
            witness.trace@[i],
        ) == storm_state_at(claim_inputs(*claim), i as nat) by {}
        lemma_trace_root_of_matching_trace(claim_inputs(*claim), witness.trace@);
    }
    if !bytes_equal(&witness.trace_root, &expected_trace_root) {
        return Err(
            StormAirValidationErrorV1::TraceRootMismatch {
                expected: expected_trace_root,
                actual: witness.trace_root,
            },
        );
    }
    let expected_step_count = claim.iteration_count;
    if witness.steps.len() as u64 != expected_step_count {
        return Err(
            StormAirValidationErrorV1::StepCountMismatch {
                expected: expected_step_count,
                actual: witness.steps.len() as u64,
            },
        );
    }
    let mut index: usize = 0;
    while index < witness.steps.len()
        invariant
            0 <= index <= witness.steps@.len(),
            witness.steps@.len() == claim.iteration_count,
            witness.trace@.len() == claim.iteration_count + 1,
            storm_trace_valid_for(*claim, witness.trace@),
            forall|k: int|
                0 <= k < witness.trace@.len() ==> (#[trigger] witness.trace@[k]).x.is_canonical()
                    && witness.trace@[k].y.is_canonical(),
            air_public_inputs_of(*claim, witness.public_inputs),
            witness.a.value() == a_spec(claim.context_bytes_v1@),
            witness.b.value() == b_spec(claim.context_bytes_v1@),
            witness.trace_root@ == storm_expected_trace_root(claim_inputs(*claim)),
            storm_claim_valid(*claim),
            forall|i: int|
                0 <= i < index ==> {
                    &&& (#[trigger] witness.steps@[i]).step_index == i
                    &&& same_state(witness.steps@[i].state, witness.trace@[i])
                    &&& same_state(witness.steps@[i].next_state, witness.trace@[i + 1])
                    &&& witness.steps@[i].phi_n.value() == phi_spec(
                        claim.side_a@,
                        claim.side_b@,
                        claim.context_bytes_v1@,
                        i as u64,
                    )
                    &&& witness.steps@[i].psi_n.value() == psi_spec(
                        claim.side_a@,
                        claim.side_b@,
                        claim.context_bytes_v1@,
                        i as u64,
                    )
                },
        decreases witness.steps@.len() - index,
    {
        let step = witness.steps[index];
        let expected_index = index as u64;
        if step.step_index != expected_index {
            return Err(
                StormAirValidationErrorV1::StepIndexMismatch {
                    expected: expected_index,
                    actual: step.step_index,
                },
            );
        }
        if !step.state.same_as(&witness.trace[index]) {
            return Err(
                StormAirValidationErrorV1::StepStateMismatch { index: expected_index, field: "state" },
            );
        }
        if !step.next_state.same_as(&witness.trace[index + 1]) {
            return Err(
                StormAirValidationErrorV1::StepStateMismatch {
                    index: expected_index,
                    field: "next_state",
                },
            );
        }
        let expected_phi = derive_phi_n(&claim.side_a, &claim.side_b, &claim.context_bytes_v1, expected_index);
        proof {
            use_type_invariant(&step.phi_n);
            use_type_invariant(&expected_phi);
            lemma_fe_encoding(step.phi_n);
            lemma_fe_encoding(expected_phi);
        }
        if !step.phi_n.same_as(&expected_phi) {
            return Err(
                StormAirValidationErrorV1::ForcingMismatch { index: expected_index, field: "phi_n" },
            );
        }
        let expected_psi = derive_psi_n(&claim.side_a, &claim.side_b, &claim.context_bytes_v1, expected_index);
        proof {
            use_type_invariant(&step.psi_n);
            use_type_invariant(&expected_psi);
            lemma_fe_encoding(step.psi_n);
            lemma_fe_encoding(expected_psi);
        }
        if !step.psi_n.same_as(&expected_psi) {
            return Err(
                StormAirValidationErrorV1::ForcingMismatch { index: expected_index, field: "psi_n" },
            );
        }
        let expected_next = storm_step(&step.state, &witness.a, &witness.b, &step.phi_n, &step.psi_n);
        proof {
            use_type_invariant(&step.state.x);
            use_type_invariant(&step.state.y);
            use_type_invariant(&step.next_state.x);
            use_type_invariant(&step.next_state.y);
            use_type_invariant(&expected_next.x);
            use_type_invariant(&expected_next.y);
            let i = index as int;
            lemma_same_state_values(step.state, witness.trace@[i]);
            lemma_same_state_values(step.next_state, witness.trace@[i + 1]);
            lemma_same_state_values(step.next_state, expected_next);
            assert(state_values(witness.trace@[i]) == storm_state_at(claim_inputs(*claim), i as nat));
            assert(state_values(witness.trace@[i + 1]) == storm_state_at(
                claim_inputs(*claim),
                (i + 1) as nat,
            ));
        }
        if !step.next_state.same_as(&expected_next) {
            return Err(
                StormAirValidationErrorV1::TransitionMismatch {
                    index: expected_index,
                    expected: expected_next,
                    actual: step.next_state,
                },
            );
        }
        index += 1;
    }
    Ok(())
}

/// The row encodings of a sequence of states, one after another.
pub open spec fn states_bytes(states: Seq<StormState521V1>) -> Seq<u8>
    decreases states.len(),
{
    if states.len() == 0 {
        Seq::empty()
    } else {
        states_bytes(states.drop_last()) + storm_row_spec(states.last())
    }
}

/// The encoding of one step record.
pub open spec fn step_bytes(step: StormTraceStepWitnessV1) -> Seq<u8> {
    u64_le(step.step_index) + storm_row_spec(step.state) + storm_row_spec(step.next_state)
        + step.phi_n@ + step.psi_n@
}

/// The encodings of a sequence of step records, one after another.
pub open spec fn steps_bytes(steps: Seq<StormTraceStepWitnessV1>) -> Seq<u8>
    decreases steps.len(),
{
    if steps.len() == 0 {
        Seq::empty()
    } else {
        steps_bytes(steps.drop_last()) + step_bytes(steps.last())
    }
}

/// The encoding of a witness: public inputs, `a`, `b`, the root, the trace
/// with its length, and the steps with their count.
pub open spec fn witness_bytes_spec(witness: StormTraceWitnessV1) -> Seq<u8> {
    air_public_inputs_bytes_spec(witness.public_inputs) + witness.a@ + witness.b@
        + witness.trace_root@ + u64_le(witness.trace@.len() as u64) + states_bytes(witness.trace@)
        + u64_le(witness.steps@.len() as u64) + steps_bytes(witness.steps@)
}

/// Public inputs whose two states are canonical.
pub open spec fn inputs_canonical(inputs: StormAirPublicInputsV1) -> bool {
    state_canonical(inputs.initial_state) && state_canonical(inputs.final_state)
}

/// A step record whose states and forcing terms are canonical.
pub open spec fn step_canonical(step: StormTraceStepWitnessV1) -> bool {
    &&& state_canonical(step.state)
    &&& state_canonical(step.next_state)
    &&& step.phi_n.is_canonical()
    &&& step.psi_n.is_canonical()
}

/// A witness whose every field element is canonical.
pub open spec fn witness_canonical(witness: StormTraceWitnessV1) -> bool {
    &&& inputs_canonical(witness.public_inputs)
    &&& witness.a.is_canonical()
    &&& witness.b.is_canonical()
    &&& forall|i: int| 0 <= i < witness.trace@.len() ==> state_canonical(#[trigger] witness.trace@[i])
    &&& forall|i: int| 0 <= i < witness.steps@.len() ==> step_canonical(#[trigger] witness.steps@[i])
}

/// `bytes` is the encoding of the canonical witness `witness`.
pub open spec fn witness_encodes(witness: StormTraceWitnessV1, bytes: Seq<u8>) -> bool {
    witness_canonical(witness) && witness_bytes_spec(witness) == bytes
}

/// Two witnesses that agree field by field.
pub open spec fn witness_same(w1: StormTraceWitnessV1, w2: StormTraceWitnessV1) -> bool {
    &&& w1.public_inputs == w2.public_inputs
    &&& w1.a == w2.a
    &&& w1.b == w2.b
    &&& w1.trace_root == w2.trace_root
    &&& w1.trace@ == w2.trace@
    &&& w1.steps@ == w2.steps@
}

/// Row `i` of a run of 132-byte rows.
pub open spec fn row_chunk(bytes: Seq<u8>, i: int) -> Seq<u8> {
    bytes.subrange(132 * i, 132 * i + 132)
}

/// Record `j` of a run of 404-byte step records.
pub open spec fn step_chunk(bytes: Seq<u8>, j: int) -> Seq<u8> {
    bytes.subrange(404 * j, 404 * j + 404)
}

/// Trace row `i` of a witness encoding.
pub open spec fn trace_row_slice(bytes: Seq<u8>, i: int) -> Seq<u8> {
    bytes.subrange(574 + 132 * i, 706 + 132 * i)
}

/// Step record `j` of a witness encoding whose trace has `n` rows.
pub open spec fn step_slice(bytes: Seq<u8>, n: int, j: int) -> Seq<u8> {
    bytes.subrange(582 + 132 * n + 404 * j, 986 + 132 * n + 404 * j)
}

/// Where each field of public inputs stands in their 402-byte encoding.
pub proof fn lemma_air_public_inputs_layout(inputs: StormAirPublicInputsV1)
    requires
        inputs_canonical(inputs),
    ensures
        air_public_inputs_bytes_spec(inputs).len() == 402,
        air_public_inputs_bytes_spec(inputs)[0] == inputs.version,
        air_public_inputs_bytes_spec(inputs)[1] == inputs.modulus_id,
        air_public_inputs_bytes_spec(inputs).subrange(2, 10) == u64_le(inputs.iteration_count),
        air_public_inputs_bytes_spec(inputs).subrange(10, 42) == inputs.side_a_hash@,
        air_public_inputs_bytes_spec(inputs).subrange(42, 74) == inputs.side_b_hash@,
        air_public_inputs_bytes_spec(inputs).subrange(74, 106) == inputs.context_hash@,
        air_public_inputs_bytes_spec(inputs).subrange(106, 238) == storm_row_spec(inputs.initial_state),
        air_public_inputs_bytes_spec(inputs).subrange(238, 370) == storm_row_spec(inputs.final_state),
        air_public_inputs_bytes_spec(inputs).subrange(370, 402) == inputs.trace_root@,
{
    let b = air_public_inputs_bytes_spec(inputs);
    crate::encoding_v1::lemma_le_bytes_len(inputs.iteration_count as nat, 8);
    lemma_storm_row_layout(inputs.initial_state);
    lemma_storm_row_layout(inputs.final_state);
    assert(b.subrange(2, 10) =~= u64_le(inputs.iteration_count));
    assert(b.subrange(10, 42) =~= inputs.side_a_hash@);
    assert(b.subrange(42, 74) =~= inputs.side_b_hash@);
    assert(b.subrange(74, 106) =~= inputs.context_hash@);
    assert(b.subrange(106, 238) =~= storm_row_spec(inputs.initial_state));
    assert(b.subrange(238, 370) =~= storm_row_spec(inputs.final_state));
    assert(b.subrange(370, 402) =~= inputs.trace_root@);
}

/// Public inputs with canonical states are determined by their encoding.
pub proof fn lemma_air_public_inputs_injective(p1: StormAirPublicInputsV1, p2: StormAirPublicInputsV1)
    requires
        inputs_canonical(p1),
        inputs_canonical(p2),
        air_public_inputs_bytes_spec(p1) == air_public_inputs_bytes_spec(p2),
    ensures
        p1 == p2,
{
    lemma_air_public_inputs_layout(p1);
    lemma_air_public_inputs_layout(p2);
    crate::encoding_v1::lemma_u64_le_injective(p1.iteration_count, p2.iteration_count);
    assert(p1.side_a_hash =~= p2.side_a_hash);
    assert(p1.side_b_hash =~= p2.side_b_hash);
    assert(p1.context_hash =~= p2.context_hash);
    assert(p1.trace_root =~= p2.trace_root);
    lemma_storm_row_injective(p1.initial_state, p2.initial_state);
    lemma_storm_row_injective(p1.final_state, p2.final_state);
}

/// Where each field of a step record stands in its 404-byte encoding.
pub proof fn lemma_step_layout(step: StormTraceStepWitnessV1)
    requires
        step_canonical(step),
    ensures
        step_bytes(step).len() == 404,
        step_bytes(step).subrange(0, 8) == u64_le(step.step_index),
        step_bytes(step).subrange(8, 140) == storm_row_spec(step.state),
        step_bytes(step).subrange(140, 272) == storm_row_spec(step.next_state),
        step_bytes(step).subrange(272, 338) == step.phi_n@,
        step_bytes(step).subrange(338, 404) == step.psi_n@,
{
    let b = step_bytes(step);
    crate::encoding_v1::lemma_le_bytes_len(step.step_index as nat, 8);
    lemma_storm_row_layout(step.state);
    lemma_storm_row_layout(step.next_state);
    assert(b.subrange(0, 8) =~= u64_le(step.step_index));
    assert(b.subrange(8, 140) =~= storm_row_spec(step.state));
    assert(b.subrange(140, 272) =~= storm_row_spec(step.next_state));
    assert(b.subrange(272, 338) =~= step.phi_n@);
    assert(b.subrange(338, 404) =~= step.psi_n@);
}

/// Step records are determined by their encoding.
proof fn lemma_step_injective(s1: StormTraceStepWitnessV1, s2: StormTraceStepWitnessV1)
    requires
        step_canonical(s1),
        step_canonical(s2),
        step_bytes(s1) == step_bytes(s2),
    ensures
        s1 == s2,
{
    lemma_step_layout(s1);
    lemma_step_layout(s2);
    crate::encoding_v1::lemma_u64_le_injective(s1.step_index, s2.step_index);
    lemma_storm_row_injective(s1.state, s2.state);
    lemma_storm_row_injective(s1.next_state, s2.next_state);
    crate::field_521_v1::lemma_fe_view_injective(s1.phi_n, s2.phi_n);
    crate::field_521_v1::lemma_fe_view_injective(s1.psi_n, s2.psi_n);
}

/// The rows of canonical states: 132 bytes each, one after another.
proof fn lemma_states_bytes_layout(states: Seq<StormState521V1>)
    requires
        forall|i: int| 0 <= i < states.len() ==> state_canonical(#[trigger] states[i]),
    ensures
        states_bytes(states).len() == 132 * states.len(),
        forall|i: int|
            0 <= i < states.len() ==> #[trigger] row_chunk(states_bytes(states), i) == storm_row_spec(
                states[i],
            ),
    decreases states.len(),
{
    if states.len() > 0 {
        let prior = states.drop_last();
        lemma_states_bytes_layout(prior);
        lemma_storm_row_layout(states.last());
        assert forall|i: int| 0 <= i < states.len() implies #[trigger] row_chunk(
            states_bytes(states),
            i,
        ) == storm_row_spec(states[i]) by {
            if i < states.len() - 1 {
                assert(row_chunk(states_bytes(prior), i) == storm_row_spec(prior[i]));
                assert(row_chunk(states_bytes(states), i) =~= row_chunk(states_bytes(prior), i));
            } else {
                assert(row_chunk(states_bytes(states), i) =~= storm_row_spec(states.last()));
            }
        }
    }
}

/// The encodings of canonical step records: 404 bytes each, one after
/// another.
proof fn lemma_steps_bytes_layout(steps: Seq<StormTraceStepWitnessV1>)
    requires
        forall|i: int| 0 <= i < steps.len() ==> step_canonical(#[trigger] steps[i]),
    ensures
        steps_bytes(steps).len() == 404 * steps.len(),
        forall|j: int|
            0 <= j < steps.len() ==> #[trigger] step_chunk(steps_bytes(steps), j) == step_bytes(
                steps[j],
            ),
    decreases steps.len(),
{
    if steps.len() > 0 {
        let prior = steps.drop_last();
        lemma_steps_bytes_layout(prior);
        lemma_step_layout(steps.last());
        assert forall|j: int| 0 <= j < steps.len() implies #[trigger] step_chunk(
            steps_bytes(steps),
            j,
        ) == step_bytes(steps[j]) by {
            if j < steps.len() - 1 {
                assert(step_chunk(steps_bytes(prior), j) == step_bytes(prior[j]));
                assert(step_chunk(steps_bytes(steps), j) =~= step_chunk(steps_bytes(prior), j));
            } else {
                assert(step_chunk(steps_bytes(steps), j) =~= step_bytes(steps.last()));
            }
        }
    }
}

/// Where each part of a canonical witness stands in its encoding.
pub proof fn lemma_witness_layout(witness: StormTraceWitnessV1)
    requires
        witness_canonical(witness),
    ensures
        ({
            let b = witness_bytes_spec(witness);
            let n = witness.trace@.len() as int;
            let m = witness.steps@.len() as int;
            &&& b.len() == 582 + 132 * n + 404 * m
            &&& b.subrange(0, 402) == air_public_inputs_bytes_spec(witness.public_inputs)
            &&& b.subrange(402, 468) == witness.a@
            &&& b.subrange(468, 534) == witness.b@
            &&& b.subrange(534, 566) == witness.trace_root@
            &&& b.subrange(566, 574) == u64_le(n as u64)
            &&& forall|i: int|
                0 <= i < n ==> #[trigger] trace_row_slice(b, i) == storm_row_spec(witness.trace@[i])
            &&& b.subrange(574 + 132 * n, 582 + 132 * n) == u64_le(m as u64)
            &&& forall|j: int|
                0 <= j < m ==> #[trigger] step_slice(b, n, j) == step_bytes(witness.steps@[j])
        }),
{
    let b = witness_bytes_spec(witness);
    let n = witness.trace@.len() as int;
    let m = witness.steps@.len() as int;
    let head = air_public_inputs_bytes_spec(witness.public_inputs);
    let states = states_bytes(witness.trace@);
    let steps = steps_bytes(witness.steps@);
    lemma_air_public_inputs_layout(witness.public_inputs);
    lemma_states_bytes_layout(witness.trace@);
    lemma_steps_bytes_layout(witness.steps@);
    crate::encoding_v1::lemma_le_bytes_len(n as nat, 8);
    crate::encoding_v1::lemma_le_bytes_len(m as nat, 8);
    crate::encoding_v1::lemma_le_bytes_len((n as u64) as nat, 8);
    crate::encoding_v1::lemma_le_bytes_len((m as u64) as nat, 8);
    assert(b =~= head + witness.a@ + witness.b@ + witness.trace_root@ + u64_le(n as u64) + states
        + u64_le(m as u64) + steps);
    assert(b.subrange(0, 402) =~= head);
    assert(b.subrange(402, 468) =~= witness.a@);
    assert(b.subrange(468, 534) =~= witness.b@);
    assert(b.subrange(534, 566) =~= witness.trace_root@);
    assert(b.subrange(566, 574) =~= u64_le(n as u64));
    assert forall|i: int| 0 <= i < n implies #[trigger] trace_row_slice(b, i) == storm_row_spec(
        witness.trace@[i],
    ) by {
        assert(row_chunk(states, i) == storm_row_spec(witness.trace@[i]));
        assert(trace_row_slice(b, i) =~= row_chunk(states, i));
    }
    assert(b.subrange(574 + 132 * n, 582 + 132 * n) =~= u64_le(m as u64));
    assert forall|j: int| 0 <= j < m implies #[trigger] step_slice(b, n, j) == step_bytes(
        witness.steps@[j],
    ) by {
        assert(step_chunk(steps, j) == step_bytes(witness.steps@[j]));
        assert(step_slice(b, n, j) =~= step_chunk(steps, j));
    }
}

/// A witness encoding determines the witness: two canonical witnesses with
/// the same encoding agree field by field.
pub proof fn lemma_witness_bytes_injective(w1: StormTraceWitnessV1, w2: StormTraceWitnessV1)
    requires
        witness_canonical(w1),
        witness_canonical(w2),
        witness_bytes_spec(w1) == witness_bytes_spec(w2),
        witness_bytes_spec(w1).len() <= u64::MAX,
    ensures
        witness_same(w1, w2),
{
    lemma_witness_layout(w1);
    lemma_witness_layout(w2);
    let b = witness_bytes_spec(w1);
    let n1 = w1.trace@.len() as int;
    let n2 = w2.trace@.len() as int;
    let m1 = w1.steps@.len() as int;
    let m2 = w2.steps@.len() as int;
    lemma_air_public_inputs_injective(w1.public_inputs, w2.public_inputs);
    crate::field_521_v1::lemma_fe_view_injective(w1.a, w2.a);
    crate::field_521_v1::lemma_fe_view_injective(w1.b, w2.b);
    assert(w1.trace_root =~= w2.trace_root);
    crate::encoding_v1::lemma_u64_le_injective(n1 as u64, n2 as u64);
    assert(n1 == n2);
    crate::encoding_v1::lemma_u64_le_injective(m1 as u64, m2 as u64);
    assert(m1 == m2);
    assert forall|i: int| 0 <= i < n1 implies w1.trace@[i] == w2.trace@[i] by {
        assert(trace_row_slice(b, i) == storm_row_spec(w1.trace@[i]));
        assert(trace_row_slice(b, i) == storm_row_spec(w2.trace@[i]));
        lemma_storm_row_injective(w1.trace@[i], w2.trace@[i]);
    }
    assert(w1.trace@ =~= w2.trace@);
    assert forall|j: int| 0 <= j < m1 implies w1.steps@[j] == w2.steps@[j] by {
        assert(step_slice(b, n1, j) == step_bytes(w1.steps@[j]));
        assert(step_slice(b, n1, j) == step_bytes(w2.steps@[j]));
        lemma_step_injective(w1.steps@[j], w2.steps@[j]);
    }
    assert(w1.steps@ =~= w2.steps@);
}

/// A witness the validator accepts for a claim is canonical, and so is the
/// claim: every value either carries is reduced modulo `2^521 - 1`.
pub proof fn lemma_valid_witness_canonical(claim: StormClaim521V1, witness: StormTraceWitnessV1)
    requires
        storm_witness_valid_for(claim, witness),
    ensures
        witness_canonical(witness),
        crate::storm_claim_v1::claim_canonical(claim),
{
    let inputs = claim_inputs(claim);
    crate::limbs_521_v1::lemma_limb_weight_values();
    crate::storm_execution_v1::lemma_storm_state_at_reduced(inputs, 0);
    crate::storm_execution_v1::lemma_storm_state_at_reduced(inputs, claim.iteration_count as nat);
    crate::field_521_v1::lemma_fe_reduced_is_canonical(claim.initial_state.x);
    crate::field_521_v1::lemma_fe_reduced_is_canonical(claim.initial_state.y);
    crate::field_521_v1::lemma_fe_reduced_is_canonical(claim.final_state.x);
    crate::field_521_v1::lemma_fe_reduced_is_canonical(claim.final_state.y);
    crate::field_521_v1::lemma_fe_reduced_is_canonical(witness.public_inputs.initial_state.x);
    crate::field_521_v1::lemma_fe_reduced_is_canonical(witness.public_inputs.initial_state.y);
    crate::field_521_v1::lemma_fe_reduced_is_canonical(witness.public_inputs.final_state.x);
    crate::field_521_v1::lemma_fe_reduced_is_canonical(witness.public_inputs.final_state.y);
    crate::field_521_v1::lemma_fe_reduced_is_canonical(witness.a);
    crate::field_521_v1::lemma_fe_reduced_is_canonical(witness.b);
    assert forall|i: int| 0 <= i < witness.trace@.len() implies state_canonical(
        #[trigger] witness.trace@[i],
    ) by {
        assert(state_values(witness.trace@[i]) == storm_state_at(inputs, i as nat));
        crate::storm_execution_v1::lemma_storm_state_at_reduced(inputs, i as nat);
        crate::field_521_v1::lemma_fe_reduced_is_canonical(witness.trace@[i].x);
        crate::field_521_v1::lemma_fe_reduced_is_canonical(witness.trace@[i].y);
    }
    assert forall|j: int| 0 <= j < witness.steps@.len() implies step_canonical(
        #[trigger] witness.steps@[j],
    ) by {
        let step = witness.steps@[j];
        assert(state_canonical(witness.trace@[j]));
        assert(state_canonical(witness.trace@[j + 1]));
        crate::field_521_v1::lemma_fe_reduced_is_canonical(step.state.x);
        crate::field_521_v1::lemma_fe_reduced_is_canonical(step.state.y);
        crate::field_521_v1::lemma_fe_reduced_is_canonical(step.next_state.x);
        crate::field_521_v1::lemma_fe_reduced_is_canonical(step.next_state.y);
        crate::field_521_v1::lemma_fe_reduced_is_canonical(step.phi_n);
        crate::field_521_v1::lemma_fe_reduced_is_canonical(step.psi_n);
    }
}

/// The canonical encoding of a witness.
pub fn canonical_storm_trace_witness_bytes_v1(witness: &StormTraceWitnessV1) -> (bytes: Vec<u8>)
    ensures
        bytes@ == witness_bytes_spec(*witness),
{
    let mut bytes = witness.public_inputs.canonical_bytes();
    let a = witness.a.to_bytes();
    append_bytes(&mut bytes, &a);
    let b = witness.b.to_bytes();
    append_bytes(&mut bytes, &b);
    append_bytes(&mut bytes, &witness.trace_root);
    let trace_len = u64_to_le_bytes(witness.trace.len() as u64);
    append_bytes(&mut bytes, &trace_len);
    let ghost head = bytes@;
    let mut index: usize = 0;
    while index < witness.trace.len()
        invariant
            0 <= index <= witness.trace@.len(),
            bytes@ == head + states_bytes(witness.trace@.take(index as int)),
        decreases witness.trace@.len() - index,
    {
        let row = witness.trace[index].encode_row_bytes();
        append_bytes(&mut bytes, &row);
        proof {
            assert(witness.trace@.take(index + 1).drop_last() =~= witness.trace@.take(index as int));
        }
        index += 1;
    }
    proof {
        assert(witness.trace@.take(witness.trace@.len() as int) =~= witness.trace@);
    }
    let step_len = u64_to_le_bytes(witness.steps.len() as u64);
    append_bytes(&mut bytes, &step_len);
    let ghost middle = bytes@;
    let mut index: usize = 0;
    while index < witness.steps.len()
        invariant
            0 <= index <= witness.steps@.len(),
            bytes@ == middle + steps_bytes(witness.steps@.take(index as int)),
        decreases witness.steps@.len() - index,
    {
        let step = witness.steps[index];
        let step_index = u64_to_le_bytes(step.step_index);
        append_bytes(&mut bytes, &step_index);
        let state = step.state.encode_row_bytes();
        append_bytes(&mut bytes, &state);
        let next_state = step.next_state.encode_row_bytes();
        append_bytes(&mut bytes, &next_state);
        let phi = step.phi_n.to_bytes();
        append_bytes(&mut bytes, &phi);
        let psi = step.psi_n.to_bytes();
        append_bytes(&mut bytes, &psi);
        proof {
            assert(witness.steps@.take(index + 1).drop_last() =~= witness.steps@.take(index as int));
            assert(bytes@ =~= middle + steps_bytes(witness.steps@.take(index + 1)));
        }
        index += 1;
    }
    proof {
        assert(witness.steps@.take(witness.steps@.len() as int) =~= witness.steps@);
        assert(bytes@ =~= witness_bytes_spec(*witness));
    }
    bytes
}

/// The error of reading `n` bytes named `field` at `offset`: none when they
/// are there.
pub open spec fn read_error(bytes: Seq<u8>, field: &'static str, offset: int, n: int) -> Option<StormTraceWitnessEncodingErrorV1> {
    if offset + n > bytes.len() {
        Some(
            StormTraceWitnessEncodingErrorV1::InvalidLength {
                field,
                expected: n as usize,
                actual: (bytes.len() - offset) as usize,
            },
        )
    } else {
        None
    }
}

/// The error of reading a state at `offset`: a short read names `read_field`,
/// a non-canonical row names `field`.
pub open spec fn state_read_error(bytes: Seq<u8>, read_field: &'static str, field: &'static str, offset: int) -> Option<StormTraceWitnessEncodingErrorV1> {
    if offset + 132 > bytes.len() {
        read_error(bytes, read_field, offset, 132)
    } else if storm_row_decode_error(bytes.subrange(offset, offset + 132)) is Some {
        Some(
            StormTraceWitnessEncodingErrorV1::InvalidState {
                field,
                error: storm_row_decode_error(bytes.subrange(offset, offset + 132))->0,
            },
        )
    } else {
        None
    }
}

/// The error of reading a field element named `field` at `offset`.
pub open spec fn element_read_error(bytes: Seq<u8>, field: &'static str, offset: int) -> Option<StormTraceWitnessEncodingErrorV1> {
    if offset + 66 > bytes.len() {
        read_error(bytes, field, offset, 66)
    } else if fe_decode_error(bytes.subrange(offset, offset + 66)) is Some {
        Some(
            StormTraceWitnessEncodingErrorV1::InvalidFieldElement {
                field,
                error: fe_decode_error(bytes.subrange(offset, offset + 66))->0,
            },
        )
    } else {
        None
    }
}

/// The first of two errors.
pub open spec fn first_error(a: Option<StormTraceWitnessEncodingErrorV1>, b: Option<StormTraceWitnessEncodingErrorV1>) -> Option<StormTraceWitnessEncodingErrorV1> {
    if a is Some {
        a
    } else {
        b
    }
}

/// The first error of reading public inputs at `offset`.
pub open spec fn inputs_read_error(bytes: Seq<u8>, offset: int) -> Option<StormTraceWitnessEncodingErrorV1> {
    first_error(
        read_error(bytes, "public_inputs.version", offset, 1),
        first_error(
            read_error(bytes, "public_inputs.modulus_id", offset + 1, 1),
            first_error(
                read_error(bytes, "public_inputs.iteration_count", offset + 2, 8),
                first_error(
                    read_error(bytes, "public_inputs.side_a_hash", offset + 10, 32),
                    first_error(
                        read_error(bytes, "public_inputs.side_b_hash", offset + 42, 32),
                        first_error(
                            read_error(bytes, "public_inputs.context_hash", offset + 74, 32),
                            first_error(
                                state_read_error(bytes, "public_inputs.initial_state", "public_inputs.initial_state", offset + 106),
                                first_error(
                                    state_read_error(bytes, "public_inputs.final_state", "public_inputs.final_state", offset + 238),
                                    read_error(bytes, "public_inputs.trace_root", offset + 370, 32),
                                ),
                            ),
                        ),
                    ),
                ),
            ),
        ),
    )
}

/// The label of trace state `i`.
pub open spec fn trace_state_label(i: int) -> &'static str {
    if i == 0 {
        "trace_state_0"
    } else {
        "trace_state_n"
    }
}

/// The first error of reading trace states `i .. n`.
pub open spec fn trace_states_error(bytes: Seq<u8>, i: int, n: int) -> Option<StormTraceWitnessEncodingErrorV1>
    decreases n - i,
{
    if i >= n {
        None
    } else {
        first_error(
            state_read_error(bytes, "trace_state", trace_state_label(i), 574 + 132 * i),
            trace_states_error(bytes, i + 1, n),
        )
    }
}

/// The first error of reading the step record at `offset`.
pub open spec fn step_read_error(bytes: Seq<u8>, offset: int) -> Option<StormTraceWitnessEncodingErrorV1> {
    first_error(
        read_error(bytes, "step_index", offset, 8),
        first_error(
            state_read_error(bytes, "step_state", "step_state", offset + 8),
            first_error(
                state_read_error(bytes, "step_next_state", "step_next_state", offset + 140),
                first_error(
                    element_read_error(bytes, "phi_n", offset + 272),
                    element_read_error(bytes, "psi_n", offset + 338),
                ),
            ),
        ),
    )
}

/// The first error of reading step records `j .. m` after `n` trace states.
pub open spec fn steps_error(bytes: Seq<u8>, n: int, j: int, m: int) -> Option<StormTraceWitnessEncodingErrorV1>
    decreases m - j,
{
    if j >= m {
        None
    } else {
        first_error(step_read_error(bytes, 582 + 132 * n + 404 * j), steps_error(bytes, n, j + 1, m))
    }
}

/// The first error of reading the fixed-width head of a witness encoding:
/// the public inputs, `a`, `b`, the root and the trace length.
pub open spec fn witness_head_error(bytes: Seq<u8>) -> Option<StormTraceWitnessEncodingErrorV1> {
    first_error(
        inputs_read_error(bytes, 0),
        first_error(
            element_read_error(bytes, "a", 402),
            first_error(
                element_read_error(bytes, "b", 468),
                first_error(
                    read_error(bytes, "trace_root", 534, 32),
                    read_error(bytes, "trace_len", 566, 8),
                ),
            ),
        ),
    )
}

/// The error the witness decoder reports for `bytes`, if any: the first
/// field, in encoding order, that is missing or does not decode, else the
/// bytes left over.
pub open spec fn witness_decode_error(bytes: Seq<u8>) -> Option<StormTraceWitnessEncodingErrorV1> {
    if witness_head_error(bytes) is Some {
        witness_head_error(bytes)
    } else {
        let n = le_value(bytes.subrange(566, 574)) as int;
        let states = first_error(
            trace_states_error(bytes, 0, n),
            read_error(bytes, "step_len", 574 + 132 * n, 8),
        );
        if states is Some {
            states
        } else {
            let m = le_value(bytes.subrange(574 + 132 * n, 582 + 132 * n)) as int;
            let end = 582 + 132 * n + 404 * m;
            if steps_error(bytes, n, 0, m) is Some {
                steps_error(bytes, n, 0, m)
            } else if end != bytes.len() {
                Some(
                    StormTraceWitnessEncodingErrorV1::TrailingBytes {
                        remaining: (bytes.len() - end) as usize,
                    },
                )
            } else {
                None
            }
        }
    }
}

/// Reads `N` bytes at `offset` and advances it, or reports how few are left.
fn read_fixed_bytes_v1<const N: usize>(bytes: &[u8], offset: &mut usize, out: &mut [u8; N], field: &'static str) -> (result: Result<(), StormTraceWitnessEncodingErrorV1>)
    requires
        *old(offset) <= bytes@.len(),
    ensures
        *final(offset) <= bytes@.len(),
        result is Ok <==> *old(offset) + N <= bytes@.len(),
        result is Ok ==> *final(offset) == *old(offset) + N && final(out)@ == bytes@.subrange(
            *old(offset) as int,
            *old(offset) + N,
        ),
        result is Err ==> result == Err::<(), StormTraceWitnessEncodingErrorV1>(
            StormTraceWitnessEncodingErrorV1::InvalidLength {
                field,
                expected: N,
                actual: (bytes@.len() - *old(offset)) as usize,
            },
        ),
{
    let remaining = bytes.len() - *offset;
    if remaining < N {
        return Err(StormTraceWitnessEncodingErrorV1::InvalidLength { field, expected: N, actual: remaining });
    }
    copy_range_into(out, bytes, *offset);
    *offset = *offset + N;
    Ok(())
}

/// Reads a field element at `offset`.
fn decode_field_element_from_bytes_v1(bytes: &[u8], offset: &mut usize, field: &'static str) -> (result: Result<FieldElement521V1, StormTraceWitnessEncodingErrorV1>)
    requires
        *old(offset) <= bytes@.len(),
    ensures
        *final(offset) <= bytes@.len(),
        result is Ok <==> *old(offset) + 66 <= bytes@.len() && fe_decode_error(
            bytes@.subrange(*old(offset) as int, *old(offset) + 66),
        ) is None,
        result matches Ok(element) ==> *final(offset) == *old(offset) + 66 && element@
            == bytes@.subrange(*old(offset) as int, *old(offset) + 66) && element.is_canonical(),
        result matches Err(error) ==> element_read_error(bytes@, field, *old(offset) as int)
            == Some(error),
{
    let mut raw = [0u8; 66];
    match read_fixed_bytes_v1(bytes, offset, &mut raw, field) {
        Ok(()) => {},
        Err(error) => {
            return Err(error);
        },
    }
    match FieldElement521V1::from_bytes(raw) {
        Ok(element) => {
            proof {
                use_type_invariant(&element);
            }
            Ok(element)
        },
        Err(error) => Err(StormTraceWitnessEncodingErrorV1::InvalidFieldElement { field, error }),
    }
}

/// Reads a little-endian `u64` at `offset`.
fn decode_u64_from_bytes_v1(bytes: &[u8], offset: &mut usize, field: &'static str) -> (result: Result<u64, StormTraceWitnessEncodingErrorV1>)
    requires
        *old(offset) <= bytes@.len(),
    ensures
        *final(offset) <= bytes@.len(),
        result is Ok <==> *old(offset) + 8 <= bytes@.len(),
        result matches Ok(value) ==> *final(offset) == *old(offset) + 8 && u64_le(value)
            == bytes@.subrange(*old(offset) as int, *old(offset) + 8),
        result matches Err(error) ==> read_error(bytes@, field, *old(offset) as int, 8) == Some(
            error,
        ),
{
    let mut raw = [0u8; 8];
    match read_fixed_bytes_v1(bytes, offset, &mut raw, field) {
        Ok(()) => {},
        Err(error) => {
            return Err(error);
        },
    }
    Ok(u64_from_le_bytes(&raw))
}

/// Reads a state row at `offset`.
fn decode_state_from_bytes_v1(bytes: &[u8], offset: &mut usize, read_field: &'static str, field: &'static str) -> (result: Result<StormState521V1, StormTraceWitnessEncodingErrorV1>)
    requires
        *old(offset) <= bytes@.len(),
    ensures
        *final(offset) <= bytes@.len(),
        result is Ok <==> *old(offset) + 132 <= bytes@.len() && storm_row_decode_error(
            bytes@.subrange(*old(offset) as int, *old(offset) + 132),
        ) is None,
        result matches Ok(state) ==> *final(offset) == *old(offset) + 132 && storm_row_spec(state)
            == bytes@.subrange(*old(offset) as int, *old(offset) + 132) && state_canonical(state),
        result matches Err(error) ==> state_read_error(bytes@, read_field, field, *old(offset) as int) == Some(
            error,
        ),
{
    let mut raw = [0u8; 132];
    match read_fixed_bytes_v1(bytes, offset, &mut raw, read_field) {
        Ok(()) => {},
        Err(error) => {
            return Err(error);
        },
    }
    match decode_row_bytes(&raw) {
        Ok(state) => {
            proof {
                use_type_invariant(&state.x);
                use_type_invariant(&state.y);
            }
            Ok(state)
        },
        Err(error) => Err(StormTraceWitnessEncodingErrorV1::InvalidState { field, error }),
    }
}

/// Reads AIR public inputs at `offset`.
fn decode_storm_air_public_inputs_from_bytes_v1(bytes: &[u8], offset: &mut usize) -> (result: Result<StormAirPublicInputsV1, StormTraceWitnessEncodingErrorV1>)
    requires
        *old(offset) <= bytes@.len(),
    ensures
        *final(offset) <= bytes@.len(),
        result is Ok <==> *old(offset) + 402 <= bytes@.len() && storm_row_decode_error(
            bytes@.subrange(*old(offset) + 106, *old(offset) + 238),
        ) is None && storm_row_decode_error(
            bytes@.subrange(*old(offset) + 238, *old(offset) + 370),
        ) is None,
        result matches Ok(inputs) ==> *final(offset) == *old(offset) + 402
            && air_public_inputs_bytes_spec(inputs) == bytes@.subrange(
            *old(offset) as int,
            *old(offset) + 402,
        ) && inputs_canonical(inputs),
        result matches Err(error) ==> inputs_read_error(bytes@, *old(offset) as int) == Some(error),
        result is Ok ==> inputs_read_error(bytes@, *old(offset) as int) is None,
{
    let ghost start = *offset as int;
    let mut version = [0u8; 1];
    match read_fixed_bytes_v1(bytes, offset, &mut version, "public_inputs.version") {
        Ok(()) => {},
        Err(error) => {
            return Err(error);
        },
    }
    let mut modulus_id = [0u8; 1];
    match read_fixed_bytes_v1(bytes, offset, &mut modulus_id, "public_inputs.modulus_id") {
        Ok(()) => {},
        Err(error) => {
            return Err(error);
        },
    }
    let iteration_count = match decode_u64_from_bytes_v1(bytes, offset, "public_inputs.iteration_count") {
        Ok(value) => value,
        Err(error) => {
            return Err(error);
        },
    };
    let mut side_a_hash = [0u8; 32];
    match read_fixed_bytes_v1(bytes, offset, &mut side_a_hash, "public_inputs.side_a_hash") {
        Ok(()) => {},
        Err(error) => {
            return Err(error);
        },
    }
    let mut side_b_hash = [0u8; 32];
    match read_fixed_bytes_v1(bytes, offset, &mut side_b_hash, "public_inputs.side_b_hash") {
        Ok(()) => {},
        Err(error) => {
            return Err(error);
        },
    }
    let mut context_hash = [0u8; 32];
    match read_fixed_bytes_v1(bytes, offset, &mut context_hash, "public_inputs.context_hash") {
        Ok(()) => {},
        Err(error) => {
            return Err(error);
        },
    }
    let initial_state = match decode_state_from_bytes_v1(bytes, offset, "public_inputs.initial_state", "public_inputs.initial_state") {
        Ok(state) => state,
        Err(error) => {
            return Err(error);
        },
    };
    let final_state = match decode_state_from_bytes_v1(bytes, offset, "public_inputs.final_state", "public_inputs.final_state") {
        Ok(state) => state,
        Err(error) => {
            return Err(error);
        },
    };
    let mut trace_root = [0u8; 32];
    match read_fixed_bytes_v1(bytes, offset, &mut trace_root, "public_inputs.trace_root") {
        Ok(()) => {},
        Err(error) => {
            return Err(error);
        },
    }
    let inputs = StormAirPublicInputsV1 {
        version: version[0],
        modulus_id: modulus_id[0],
        iteration_count,
        side_a_hash,
        side_b_hash,
        context_hash,
        initial_state,
        final_state,
        trace_root,
    };
    proof {
        let b = bytes@;
        assert(seq![inputs.version, inputs.modulus_id] =~= b.subrange(start, start + 2));
        assert(b.subrange(start, start + 402) =~= b.subrange(start, start + 2) + b.subrange(
            start + 2,
            start + 10,
        ) + b.subrange(start + 10, start + 42) + b.subrange(start + 42, start + 74) + b.subrange(
            start + 74,
            start + 106,
        ) + b.subrange(start + 106, start + 238) + b.subrange(start + 238, start + 370)
            + b.subrange(start + 370, start + 402));
        assert(air_public_inputs_bytes_spec(inputs) =~= bytes@.subrange(start, start + 402));
    }
    Ok(inputs)
}

/// The four checked parts of a step record decode.
pub open spec fn step_slice_decodes(record: Seq<u8>) -> bool {
    &&& storm_row_decode_error(record.subrange(8, 140)) is None
    &&& storm_row_decode_error(record.subrange(140, 272)) is None
    &&& fe_decode_error(record.subrange(272, 338)) is None
    &&& fe_decode_error(record.subrange(338, 404)) is None
}

/// What the witness decoder needs of bytes to succeed, for a trace of `n`
/// rows and `m` step records: the length, the counts, and every state and
/// field element decodes.
pub open spec fn witness_decodable(bytes: Seq<u8>, n: int, m: int) -> bool {
    &&& 0 <= n
    &&& 0 <= m
    &&& bytes.len() == 582 + 132 * n + 404 * m
    &&& storm_row_decode_error(bytes.subrange(106, 238)) is None
    &&& storm_row_decode_error(bytes.subrange(238, 370)) is None
    &&& fe_decode_error(bytes.subrange(402, 468)) is None
    &&& fe_decode_error(bytes.subrange(468, 534)) is None
    &&& bytes.subrange(566, 574) == u64_le(n as u64)
    &&& forall|i: int|
        0 <= i < n ==> storm_row_decode_error(#[trigger] trace_row_slice(bytes, i)) is None
    &&& bytes.subrange(574 + 132 * n, 582 + 132 * n) == u64_le(m as u64)
    &&& forall|j: int| 0 <= j < m ==> step_slice_decodes(#[trigger] step_slice(bytes, n, j))
}

/// The encoding of a canonical witness has everything the decoder needs.
proof fn lemma_witness_encoding_decodable(witness: StormTraceWitnessV1)
    requires
        witness_canonical(witness),
    ensures
        witness_decodable(
            witness_bytes_spec(witness),
            witness.trace@.len() as int,
            witness.steps@.len() as int,
        ),
{
    let b = witness_bytes_spec(witness);
    let n = witness.trace@.len() as int;
    lemma_witness_layout(witness);
    lemma_air_public_inputs_layout(witness.public_inputs);
    assert(b.subrange(106, 238) =~= b.subrange(0, 402).subrange(106, 238));
    assert(b.subrange(238, 370) =~= b.subrange(0, 402).subrange(238, 370));
    lemma_storm_row_round_trip(witness.public_inputs.initial_state);
    lemma_storm_row_round_trip(witness.public_inputs.final_state);
    crate::field_521_v1::lemma_fe_bytes_round_trip(witness.a);
    crate::field_521_v1::lemma_fe_bytes_round_trip(witness.b);
    assert forall|i: int| 0 <= i < n implies storm_row_decode_error(
        #[trigger] trace_row_slice(b, i),
    ) is None by {
        lemma_storm_row_round_trip(witness.trace@[i]);
    }
    assert forall|j: int| 0 <= j < witness.steps@.len() implies step_slice_decodes(
        #[trigger] step_slice(b, n, j),
    ) by {
        let step = witness.steps@[j];
        lemma_step_layout(step);
        lemma_storm_row_round_trip(step.state);
        lemma_storm_row_round_trip(step.next_state);
        crate::field_521_v1::lemma_fe_bytes_round_trip(step.phi_n);
        crate::field_521_v1::lemma_fe_bytes_round_trip(step.psi_n);
    }
}

/// Decodes a witness encoding; every field element and state must be
/// canonical and no byte may be left over. Exactly the encodings of canonical
/// witnesses decode, each to the witness it encodes.
#[verifier::rlimit(60)]
pub fn decode_storm_trace_witness_bytes_v1(bytes: &[u8]) -> (result: Result<StormTraceWitnessV1, StormTraceWitnessEncodingErrorV1>)
    ensures
        result matches Ok(witness) ==> witness_encodes(witness, bytes@),
        result is Ok <==> exists|witness: StormTraceWitnessV1| #[trigger]
            witness_encodes(witness, bytes@),
        forall|witness: StormTraceWitnessV1| #[trigger]
            witness_encodes(witness, bytes@) ==> (result matches Ok(decoded) && witness_same(
                decoded,
                witness,
            )),
        witness_decode_error(bytes@) is Some ==> result == Err::<
            StormTraceWitnessV1,
            StormTraceWitnessEncodingErrorV1,
        >(witness_decode_error(bytes@)->0),
        witness_decode_error(bytes@) is None ==> result is Ok,
{
    let ghost decodable = exists|w: StormTraceWitnessV1| #[trigger] witness_encodes(w, bytes@);
    let ghost target = choose|w: StormTraceWitnessV1| #[trigger] witness_encodes(w, bytes@);
    let ghost n = target.trace@.len() as int;
    let ghost m = target.steps@.len() as int;
    proof {
        assert(decodable ==> witness_decodable(bytes@, n, m)) by {
            if decodable {
                lemma_witness_encoding_decodable(target);
            }
        }
    }
    let total = bytes.len();
    let mut offset: usize = 0;
    let public_inputs = match decode_storm_air_public_inputs_from_bytes_v1(bytes, &mut offset) {
        Ok(inputs) => inputs,
        Err(error) => {
            return Err(error);
        },
    };
    let a = match decode_field_element_from_bytes_v1(bytes, &mut offset, "a") {
        Ok(element) => element,
        Err(error) => {
            return Err(error);
        },
    };
    let b = match decode_field_element_from_bytes_v1(bytes, &mut offset, "b") {
        Ok(element) => element,
        Err(error) => {
            return Err(error);
        },
    };
    let mut trace_root = [0u8; 32];
    match read_fixed_bytes_v1(bytes, &mut offset, &mut trace_root, "trace_root") {
        Ok(()) => {},
        Err(error) => {
            return Err(error);
        },
    }
    let trace_len = match decode_u64_from_bytes_v1(bytes, &mut offset, "trace_len") {
        Ok(value) => value,
        Err(error) => {
            return Err(error);
        },
    };
    proof {
        assert(decodable ==> trace_len == n) by {
            if decodable {
                crate::encoding_v1::lemma_u64_le_injective(trace_len, n as u64);
            }
        }
        crate::encoding_v1::lemma_u64_le_value(trace_len);
        assert(witness_head_error(bytes@) is None);
    }
    let ghost head = bytes@.subrange(0, offset as int);
    proof {
        assert(head =~= air_public_inputs_bytes_spec(public_inputs) + a@ + b@ + trace_root@ + u64_le(
            trace_len,
        ));
    }
    let mut trace: Vec<StormState521V1> = Vec::new();
    let mut count: u64 = 0;
    while count < trace_len
        invariant
            0 <= count <= trace_len,
            offset <= bytes@.len(),
            offset == 574 + 132 * count,
            trace@.len() == count,
            head.len() == 574,
            bytes@.subrange(0, offset as int) == head + states_bytes(trace@),
            forall|i: int| 0 <= i < trace@.len() ==> state_canonical(#[trigger] trace@[i]),
            decodable == (exists|w: StormTraceWitnessV1| #[trigger] witness_encodes(w, bytes@)),
            decodable ==> witness_decodable(bytes@, n, m) && trace_len == n,
            witness_head_error(bytes@) is None,
            le_value(bytes@.subrange(566, 574)) == trace_len,
            trace_states_error(bytes@, 0, trace_len as int) == trace_states_error(
                bytes@,
                count as int,
                trace_len as int,
            ),
        decreases trace_len - count,
    {
        let field = if count == 0 {
            "trace_state_0"
        } else {
            "trace_state_n"
        };
        let ghost before = offset as int;
        proof {
            assert(decodable ==> storm_row_decode_error(trace_row_slice(bytes@, count as int)) is None);
            assert(trace_row_slice(bytes@, count as int) == bytes@.subrange(before, before + 132));
            assert(decodable ==> before + 132 <= bytes@.len());
            assert(field == trace_state_label(count as int));
        }
        let state = match decode_state_from_bytes_v1(bytes, &mut offset, "trace_state", field) {
            Ok(state) => state,
            Err(error) => {
                return Err(error);
            },
        };
        let ghost prior = trace@;
        trace.push(state);
        proof {
            assert(trace@.drop_last() =~= prior);
            assert(bytes@.subrange(0, offset as int) =~= bytes@.subrange(0, before) + bytes@.subrange(
                before,
                offset as int,
            ));
        }
        count += 1;
    }
    let step_len = match decode_u64_from_bytes_v1(bytes, &mut offset, "step_len") {
        Ok(value) => value,
        Err(error) => {
            return Err(error);
        },
    };
    proof {
        assert(decodable ==> step_len == m) by {
            if decodable {
                crate::encoding_v1::lemma_u64_le_injective(step_len, m as u64);
            }
        }
        crate::encoding_v1::lemma_u64_le_value(step_len);
    }
    let ghost middle = bytes@.subrange(0, offset as int);
    proof {
        assert(middle =~= head + states_bytes(trace@) + u64_le(step_len));
    }
    let mut steps: Vec<StormTraceStepWitnessV1> = Vec::new();
    let mut count: u64 = 0;
    while count < step_len
        invariant
            0 <= count <= step_len,
            offset <= bytes@.len(),
            offset == 582 + 132 * trace_len + 404 * count,
            steps@.len() == count,
            middle.len() == 582 + 132 * trace_len,
            bytes@.subrange(0, offset as int) == middle + steps_bytes(steps@),
            forall|j: int| 0 <= j < steps@.len() ==> step_canonical(#[trigger] steps@[j]),
            decodable == (exists|w: StormTraceWitnessV1| #[trigger] witness_encodes(w, bytes@)),
            decodable ==> witness_decodable(bytes@, n, m) && trace_len == n && step_len == m,
            witness_head_error(bytes@) is None,
            le_value(bytes@.subrange(566, 574)) == trace_len,
            trace_states_error(bytes@, 0, trace_len as int) is None,
            read_error(bytes@, "step_len", 574 + 132 * trace_len, 8) is None,
            le_value(bytes@.subrange(574 + 132 * trace_len, 582 + 132 * trace_len)) == step_len,
            steps_error(bytes@, trace_len as int, 0, step_len as int) == steps_error(
                bytes@,
                trace_len as int,
                count as int,
                step_len as int,
            ),
        decreases step_len - count,
    {
        let ghost before = offset as int;
        proof {
            let record = step_slice(bytes@, trace_len as int, count as int);
            assert(decodable ==> step_slice_decodes(record));
            if before + 404 <= bytes@.len() {
                assert(bytes@.subrange(before + 8, before + 140) =~= record.subrange(8, 140));
                assert(bytes@.subrange(before + 140, before + 272) =~= record.subrange(140, 272));
                assert(bytes@.subrange(before + 272, before + 338) =~= record.subrange(272, 338));
                assert(bytes@.subrange(before + 338, before + 404) =~= record.subrange(338, 404));
            }
        }
        let step_index = match decode_u64_from_bytes_v1(bytes, &mut offset, "step_index") {
            Ok(value) => value,
            Err(error) => {
                return Err(error);
            },
        };
        let state = match decode_state_from_bytes_v1(bytes, &mut offset, "step_state", "step_state") {
            Ok(state) => state,
            Err(error) => {
                return Err(error);
            },
        };
        let next_state = match decode_state_from_bytes_v1(bytes, &mut offset, "step_next_state", "step_next_state") {
            Ok(state) => state,
            Err(error) => {
                return Err(error);
            },
        };
        let phi_n = match decode_field_element_from_bytes_v1(bytes, &mut offset, "phi_n") {
            Ok(element) => element,
            Err(error) => {
                return Err(error);
            },
        };
        let psi_n = match decode_field_element_from_bytes_v1(bytes, &mut offset, "psi_n") {
            Ok(element) => element,
            Err(error) => {
                return Err(error);
            },
        };
        let step = StormTraceStepWitnessV1 { step_index, state, next_state, phi_n, psi_n };
        let ghost prior = steps@;
        steps.push(step);
        proof {
            assert(steps@.drop_last() =~= prior);
            assert(bytes@.subrange(before, offset as int) =~= step_bytes(step));
            assert(bytes@.subrange(0, offset as int) =~= bytes@.subrange(0, before) + bytes@.subrange(
                before,
                offset as int,
            ));
        }
        count += 1;
    }
    if offset != bytes.len() {
        return Err(StormTraceWitnessEncodingErrorV1::TrailingBytes { remaining: bytes.len() - offset });
    }
    let witness = StormTraceWitnessV1 { public_inputs, a, b, trace_root, trace, steps };
    proof {
        assert(bytes@.subrange(0, offset as int) =~= bytes@);
        assert(witness_bytes_spec(witness) =~= bytes@);
        assert(witness_encodes(witness, bytes@));
        assert forall|w: StormTraceWitnessV1| #[trigger] witness_encodes(w, bytes@) implies witness_same(
            witness,
            w,
        ) by {
            lemma_witness_bytes_injective(witness, w);
        }
    }
    Ok(witness)
}


/// The public inputs of a claim carry SHA3-256 of `"AURA_STORM_SIDE_A_HASH_V1" || side_a`,
/// of `"AURA_STORM_SIDE_B_HASH_V1" || side_b` and of
/// `"AURA_STORM_CONTEXT_HASH_V1" || context`, beside the claim's version,
/// modulus, count, boundary states and root.
pub proof fn lemma_air_public_inputs_hash_the_claim(claim: StormClaim521V1, inputs: StormAirPublicInputsV1)
    requires
        air_public_inputs_of(claim, inputs),
    ensures
        inputs.side_a_hash@ == crate::digest_v1::sha3_256_spec(seq![0x41u8, 0x55, 0x52, 0x41, 0x5f, 0x53, 0x54, 0x4f, 0x52, 0x4d, 0x5f, 0x53, 0x49, 0x44, 0x45, 0x5f, 0x41, 0x5f, 0x48, 0x41, 0x53, 0x48, 0x5f, 0x56, 0x31] + claim.side_a@),
        inputs.side_b_hash@ == crate::digest_v1::sha3_256_spec(seq![0x41u8, 0x55, 0x52, 0x41, 0x5f, 0x53, 0x54, 0x4f, 0x52, 0x4d, 0x5f, 0x53, 0x49, 0x44, 0x45, 0x5f, 0x42, 0x5f, 0x48, 0x41, 0x53, 0x48, 0x5f, 0x56, 0x31] + claim.side_b@),
        inputs.context_hash@ == crate::digest_v1::sha3_256_spec(seq![0x41u8, 0x55, 0x52, 0x41, 0x5f, 0x53, 0x54, 0x4f, 0x52, 0x4d, 0x5f, 0x43, 0x4f, 0x4e, 0x54, 0x45, 0x58, 0x54, 0x5f, 0x48, 0x41, 0x53, 0x48, 0x5f, 0x56, 0x31] + claim.context_bytes_v1@),
        inputs.version == claim.version,
        inputs.modulus_id == claim.modulus_id,
        inputs.iteration_count == claim.iteration_count,
{
    assert(AURA_STORM_SIDE_A_HASH_V1_DOMAIN_SEPARATOR@ =~= seq![0x41u8, 0x55, 0x52, 0x41, 0x5f, 0x53, 0x54, 0x4f, 0x52, 0x4d, 0x5f, 0x53, 0x49, 0x44, 0x45, 0x5f, 0x41, 0x5f, 0x48, 0x41, 0x53, 0x48, 0x5f, 0x56, 0x31]);
    assert(AURA_STORM_SIDE_B_HASH_V1_DOMAIN_SEPARATOR@ =~= seq![0x41u8, 0x55, 0x52, 0x41, 0x5f, 0x53, 0x54, 0x4f, 0x52, 0x4d, 0x5f, 0x53, 0x49, 0x44, 0x45, 0x5f, 0x42, 0x5f, 0x48, 0x41, 0x53, 0x48, 0x5f, 0x56, 0x31]);
    assert(AURA_STORM_CONTEXT_HASH_V1_DOMAIN_SEPARATOR@ =~= seq![0x41u8, 0x55, 0x52, 0x41, 0x5f, 0x53, 0x54, 0x4f, 0x52, 0x4d, 0x5f, 0x43, 0x4f, 0x4e, 0x54, 0x45, 0x58, 0x54, 0x5f, 0x48, 0x41, 0x53, 0x48, 0x5f, 0x56, 0x31]);
}


} // verus!
