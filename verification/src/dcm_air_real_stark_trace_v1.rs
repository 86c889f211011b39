//! The rows of the execution trace that the Winterfell prover of the cat-map
//! AIR commits to: for each state, its base-128 digits, whether the row is
//! active, the quotients and carries that witness the two transition
//! relations modulo `2^521 - 1`, the sums whose inverses show a coordinate is
//! not the maximal digit pattern, and the running commitment sponge. Rows
//! past the last state are inactive zero rows up to the internal trace length.

use crate::dcm_air_real_stark_v1::{
    derive_real_stark_internal_trace_length_v1, internal_trace_length_spec,
    DcmAirRealStarkProverErrorV1,
};
use crate::dcm_air_v1::{trace_rows, DcmAirPublicInputsV1, DcmAirTraceV1};
use crate::dcm_commitment_root_v1::{
    absorb_commitment_from_state_v1, commitment_elements_spec, commitment_seed_v1,
    derive_dcm_air_commitment_root_elements_521_v1, digits_spec, stark_modulus,
};
use crate::encoding_v1::{copy_range_into, le_value, u128_from_le_bytes};
use crate::dcm_v1::DcmState521V1;
use crate::stark_prover_v1::{
    carries_view, limb_relation_solvable, limb_witness, limbs_of, modulus_digits_spec,
    solve_mod_relation_v1, state_coordinate_digits_le_v1,
};
use vstd::prelude::*;

verus! {

/// One row of the Winterfell trace, as plain values.
#[derive(Clone, Copy, Debug, PartialEq, Eq)]
pub struct DcmAirRealStarkTraceRowV1 {
    pub x_digits: [u8; 75],
    pub y_digits: [u8; 75],
    pub active: bool,
    pub qx: u8,
    pub qy: u8,
    pub x_carries: [u8; 19],
    pub y_carries: [u8; 19],
    /// The sum whose field inverse fills the `x` non-max column; none when
    /// that column is zero.
    pub x_non_max_sum: Option<u64>,
    pub y_non_max_sum: Option<u64>,
    pub commitment_lo: u128,
    pub commitment_hi: u128,
}

/// The 75 base-128 digits of a value, least significant first, as bytes.
pub open spec fn digit_bytes(value: nat) -> Seq<u8> {
    Seq::new(75, |i: int| digits_spec(value)[i] as u8)
}

/// The coordinate values of a state.
pub open spec fn state_values(state: DcmState521V1) -> (nat, nat) {
    (state.x.value(), state.y.value())
}

/// `(q, carries)` witnesses `x + s y = next + q (2^521 - 1)` limb by limb
/// with `q` and every carry at most `s`, and no smaller quotient has a
/// witness.
pub open spec fn relation_solution(x: Seq<u8>, y: Seq<u8>, next: Seq<u8>, scale: int, quotient: int, carries: Seq<u8>) -> bool {
    &&& 0 <= quotient <= scale
    &&& limb_witness(
        limbs_of(x),
        limbs_of(y),
        limbs_of(next),
        limbs_of(modulus_digits_spec()),
        scale,
        quotient,
        scale,
        carries_view(carries),
    )
    &&& forall|q: int|
        0 <= q < quotient ==> !#[trigger] limb_relation_solvable(
            limbs_of(x),
            limbs_of(y),
            limbs_of(next),
            limbs_of(modulus_digits_spec()),
            scale,
            q,
            scale,
        )
}

/// Some quotient at most `s` has witnessing carries at most `s`.
pub open spec fn relation_solvable(x: Seq<u8>, y: Seq<u8>, next: Seq<u8>, scale: int) -> bool {
    exists|q: int|
        0 <= q <= scale && #[trigger] limb_relation_solvable(
            limbs_of(x),
            limbs_of(y),
            limbs_of(next),
            limbs_of(modulus_digits_spec()),
            scale,
            q,
            scale,
        )
}

/// `127 - d`, or zero for a digit above 127.
pub open spec fn non_max_delta(digit: u8) -> nat {
    if digit <= 127 {
        (127 - digit) as nat
    } else {
        0
    }
}

/// The sum of the squared distances of the first `n` digits from 127.
pub open spec fn non_max_sum_spec(digits: Seq<u8>, n: nat) -> nat
    decreases n,
{
    if n == 0 {
        0
    } else {
        let d = non_max_delta(digits[n - 1]);
        non_max_sum_spec(digits, (n - 1) as nat) + d * d
    }
}

/// The non-max sum of an active coordinate whose top digit is 7: the
/// squared distances of the lower 74 digits from 127. None otherwise.
pub open spec fn non_max_column_spec(digits: Seq<u8>, active: bool) -> Option<nat> {
    if !active || digits[74] != 7 {
        None
    } else {
        Some(non_max_sum_spec(digits, 74))
    }
}

/// An optional `u64` read as an optional natural number.
pub open spec fn opt_nat(value: Option<u64>) -> Option<nat> {
    match value {
        Some(v) => Some(v as nat),
        None => None,
    }
}

/// The relation label of the `x` transition.
pub open spec fn x_relation_label() -> &'static str {
    "x_next = x + y mod (2^521 - 1)"
}

/// The relation label of the `y` transition.
pub open spec fn y_relation_label() -> &'static str {
    "y_next = x + 2y mod (2^521 - 1)"
}

/// The error a row reports: the first of its two transition relations that
/// has no witness, when the row is active and has a successor.
pub open spec fn row_error(row_index: u64, current: (nat, nat), next: Option<(nat, nat)>, active: bool) -> Option<DcmAirRealStarkProverErrorV1> {
    if active && next is Some {
        let n = next->0;
        if !relation_solvable(digit_bytes(current.0), digit_bytes(current.1), digit_bytes(n.0), 1) {
            Some(
                DcmAirRealStarkProverErrorV1::InvalidTransitionWitness {
                    row_index,
                    relation: x_relation_label(),
                },
            )
        } else if !relation_solvable(
            digit_bytes(current.0),
            digit_bytes(current.1),
            digit_bytes(n.1),
            2,
        ) {
            Some(
                DcmAirRealStarkProverErrorV1::InvalidTransitionWitness {
                    row_index,
                    relation: y_relation_label(),
                },
            )
        } else {
            None
        }
    } else {
        None
    }
}

/// A row holds the digits of `current`, the activity flag, the non-max sums,
/// the given sponge state, and either the least witnesses of both
/// transitions to `next` (active rows with a successor) or zeros.
pub open spec fn row_matches(row: DcmAirRealStarkTraceRowV1, current: (nat, nat), next: Option<(nat, nat)>, active: bool, commitment: (int, int)) -> bool {
    &&& row.x_digits@ == digit_bytes(current.0)
    &&& row.y_digits@ == digit_bytes(current.1)
    &&& row.active == active
    &&& opt_nat(row.x_non_max_sum) == non_max_column_spec(digit_bytes(current.0), active)
    &&& opt_nat(row.y_non_max_sum) == non_max_column_spec(digit_bytes(current.1), active)
    &&& row.commitment_lo as int == commitment.0
    &&& row.commitment_hi as int == commitment.1
    &&& if active && next is Some {
        let n = next->0;
        &&& relation_solution(
            digit_bytes(current.0),
            digit_bytes(current.1),
            digit_bytes(n.0),
            1,
            row.qx as int,
            row.x_carries@,
        )
        &&& relation_solution(
            digit_bytes(current.0),
            digit_bytes(current.1),
            digit_bytes(n.1),
            2,
            row.qy as int,
            row.y_carries@,
        )
    } else {
        &&& row.qx == 0
        &&& row.qy == 0
        &&& row.x_carries@ == Seq::new(19, |i: int| 0u8)
        &&& row.y_carries@ == Seq::new(19, |i: int| 0u8)
    }
}

/// The digits of a state's coordinates.
fn coordinate_digits_v1(state: DcmState521V1) -> (digits: ([u8; 75], [u8; 75]))
    ensures
        digits.0@ == digit_bytes(state.x.value()),
        digits.1@ == digit_bytes(state.y.value()),
{
    let digits = state_coordinate_digits_le_v1(state);
    proof {
        assert(digits.0@ =~= digit_bytes(state.x.value()));
        assert(digits.1@ =~= digit_bytes(state.y.value()));
    }
    digits
}

/// The least witness of one transition relation, or none.
fn relation_witness_v1(x: &[u8; 75], y: &[u8; 75], next: &[u8; 75], scale: u8) -> (result: Option<(u8, [u8; 19])>)
    ensures
        result is None <==> !relation_solvable(x@, y@, next@, scale as int),
        result matches Some((quotient, carries)) ==> relation_solution(
            x@,
            y@,
            next@,
            scale as int,
            quotient as int,
            carries@,
        ),
{
    let result = solve_mod_relation_v1(x, y, next, scale, scale, scale);
    proof {
        if let Some((quotient, carries)) = result {
            assert(limb_relation_solvable(
                limbs_of(x@),
                limbs_of(y@),
                limbs_of(next@),
                limbs_of(modulus_digits_spec()),
                scale as int,
                quotient as int,
                scale as int,
            ));
        }
    }
    result
}

/// The non-max sum of a coordinate's digits.
fn non_max_sum_v1(digits: &[u8; 75], active: bool) -> (result: Option<u64>)
    ensures
        opt_nat(result) == non_max_column_spec(digits@, active),
{
    if !active || digits[74] != 7 {
        return None;
    }
    let mut sum: u64 = 0;
    let mut index: usize = 0;
    while index < 74
        invariant
            0 <= index <= 74,
            sum == non_max_sum_spec(digits@, index as nat),
            sum <= index * 16129,
        decreases 74 - index,
    {
        let digit = digits[index];
        let delta: u64 = if digit <= 127 {
            (127 - digit) as u64
        } else {
            0
        };
        assert(delta * delta <= 16129) by (nonlinear_arith)
            requires
                delta <= 127,
        ;
        sum = sum + delta * delta;
        index += 1;
    }
    Some(sum)
}

/// One row of the Winterfell trace: the digits of `current_row`, the
/// activity flag, the non-max sums, the sponge state, and, for an active row
/// with a successor, the least witnesses of both transitions. A transition
/// without a witness is refused, the `x` relation first.
pub fn real_stark_trace_row_v1(row_index: u64, current_row: DcmState521V1, next_row: Option<DcmState521V1>, active: bool, commitment_state: (u128, u128)) -> (result: Result<DcmAirRealStarkTraceRowV1, DcmAirRealStarkProverErrorV1>)
    ensures
        ({
            let next = match next_row {
                Some(n) => Some(state_values(n)),
                None => None,
            };
            &&& row_error(row_index, state_values(current_row), next, active) is Some ==> result
                == Err::<DcmAirRealStarkTraceRowV1, DcmAirRealStarkProverErrorV1>(
                row_error(row_index, state_values(current_row), next, active)->0,
            )
            &&& row_error(row_index, state_values(current_row), next, active) is None ==> (
            result matches Ok(row) && row_matches(
                row,
                state_values(current_row),
                next,
                active,
                (commitment_state.0 as int, commitment_state.1 as int),
            ))
        }),
{
    let (current_x_digits, current_y_digits) = coordinate_digits_v1(current_row);
    let x_non_max_sum = non_max_sum_v1(&current_x_digits, active);
    let y_non_max_sum = non_max_sum_v1(&current_y_digits, active);
    let mut qx: u8 = 0;
    let mut qy: u8 = 0;
    let mut x_carries = [0u8; 19];
    let mut y_carries = [0u8; 19];
    if active {
        if let Some(next) = next_row {
            let (next_x_digits, next_y_digits) = coordinate_digits_v1(next);
            match relation_witness_v1(&current_x_digits, &current_y_digits, &next_x_digits, 1) {
                Some((quotient, carries)) => {
                    qx = quotient;
                    x_carries = carries;
                },
                None => {
                    return Err(
                        DcmAirRealStarkProverErrorV1::InvalidTransitionWitness {
                            row_index,
                            relation: "x_next = x + y mod (2^521 - 1)",
                        },
                    );
                },
            }
            match relation_witness_v1(&current_x_digits, &current_y_digits, &next_y_digits, 2) {
                Some((quotient, carries)) => {
                    qy = quotient;
                    y_carries = carries;
                },
                None => {
                    return Err(
                        DcmAirRealStarkProverErrorV1::InvalidTransitionWitness {
                            row_index,
                            relation: "y_next = x + 2y mod (2^521 - 1)",
                        },
                    );
                },
            }
        }
    }
    proof {
        if !(active && next_row is Some) {
            assert(x_carries@ =~= Seq::new(19, |i: int| 0u8));
            assert(y_carries@ =~= Seq::new(19, |i: int| 0u8));
        }
    }
    Ok(
        DcmAirRealStarkTraceRowV1 {
            x_digits: current_x_digits,
            y_digits: current_y_digits,
            active,
            qx,
            qy,
            x_carries,
            y_carries,
            x_non_max_sum,
            y_non_max_sum,
            commitment_lo: commitment_state.0,
            commitment_hi: commitment_state.1,
        },
    )
}

/// The successor of row `i`, if any.
pub open spec fn row_next(rows: Seq<DcmState521V1>, i: int) -> Option<(nat, nat)> {
    if i + 1 < rows.len() {
        Some(state_values(rows[i + 1]))
    } else {
        None
    }
}

/// The error active row `i` of a trace reports, if any.
pub open spec fn trace_row_error(rows: Seq<DcmState521V1>, i: int) -> Option<DcmAirRealStarkProverErrorV1> {
    row_error(i as u64, state_values(rows[i]), row_next(rows, i), true)
}

/// The iteration count of a trace: one less than its row count, at least zero.
pub open spec fn trace_iteration_count(rows: Seq<DcmState521V1>) -> u64 {
    if rows.len() == 0 {
        0
    } else {
        (rows.len() - 1) as u64
    }
}

/// The Winterfell rows of a trace: as many as the internal trace length;
/// row `i` of the trace is active, absorbed into the sponge after the rows
/// before it, and witnesses its transitions to row `i + 1`; the rows after
/// the last are inactive zero rows that carry the final sponge state.
pub open spec fn trace_rows_built(rows: Seq<DcmState521V1>, out: Seq<DcmAirRealStarkTraceRowV1>) -> bool {
    let iterations = trace_iteration_count(rows);
    &&& internal_trace_length_spec(rows.len(), out.len())
    &&& forall|i: int|
        0 <= i < rows.len() ==> row_matches(
            #[trigger] out[i],
            state_values(rows[i]),
            row_next(rows, i),
            true,
            commitment_elements_spec(iterations, rows.take(i + 1)),
        )
    &&& forall|i: int|
        rows.len() <= i < out.len() ==> row_matches(
            #[trigger] out[i],
            (0, 0),
            None,
            false,
            commitment_elements_spec(iterations, rows),
        )
}

proof fn lemma_internal_length_covers_rows(count: nat, length: nat)
    requires
        internal_trace_length_spec(count, length),
    ensures
        count <= length,
{
    let n = crate::dcm_air_real_stark_v1::active_rows_spec(count);
    let p = choose|p: nat|
        #[trigger] crate::dcm_air_real_stark_v1::power_of_two_ceiling(p, n) && length == (if p
            < 8 {
            8
        } else {
            p
        });
    let k = choose|k: nat|
        #[trigger] vstd::arithmetic::power2::pow2(k) == p && n <= p && (k == 0
            || vstd::arithmetic::power2::pow2((k - 1) as nat) < n);
}

/// The Winterfell rows of a trace, padded to the internal trace length. The
/// first active row with a transition that has no witness is refused.
pub fn build_dcm_air_real_stark_trace_rows_v1(trace: &DcmAirTraceV1) -> (result: Result<Vec<DcmAirRealStarkTraceRowV1>, DcmAirRealStarkProverErrorV1>)
    requires
        trace@.len() <= (usize::MAX as int + 1) / 2,
    ensures
        result is Ok <==> forall|i: int|
            0 <= i < trace@.len() ==> #[trigger] trace_row_error(trace@, i) is None,
        result matches Ok(out) ==> trace_rows_built(trace@, out@),
        result matches Err(error) ==> exists|i: int|
            0 <= i < trace@.len() && (forall|j: int|
                0 <= j < i ==> #[trigger] trace_row_error(trace@, j) is None)
                && #[trigger] trace_row_error(trace@, i) == Some(error),
{
    let rows = trace_rows(trace);
    let count = trace.row_count();
    let trace_length = match derive_real_stark_internal_trace_length_v1(count) {
        Ok(length) => length,
        Err(error) => {
            return Err(error);
        },
    };
    let iteration_count: u64 = if count == 0 {
        0
    } else {
        count - 1
    };
    let ghost iterations = trace_iteration_count(trace@);
    let mut commitment = commitment_seed_v1(iteration_count);
    let mut out: Vec<DcmAirRealStarkTraceRowV1> = Vec::new();
    let mut index: usize = 0;
    proof {
        assert(rows@.take(0) =~= Seq::<DcmState521V1>::empty());
    }
    while index < rows.len()
        invariant
            rows@ == trace@,
            iteration_count == iterations,
            iterations == trace_iteration_count(trace@),
            0 <= index <= rows@.len(),
            out@.len() == index,
            commitment.0 < stark_modulus(),
            commitment.1 < stark_modulus(),
            (commitment.0 as int, commitment.1 as int) == commitment_elements_spec(
                iterations,
                rows@.take(index as int),
            ),
            forall|i: int| 0 <= i < index ==> #[trigger] trace_row_error(trace@, i) is None,
            forall|i: int|
                0 <= i < index ==> row_matches(
                    #[trigger] out@[i],
                    state_values(trace@[i]),
                    row_next(trace@, i),
                    true,
                    commitment_elements_spec(iterations, trace@.take(i + 1)),
                ),
        decreases rows@.len() - index,
    {
        let current = rows[index];
        proof {
            assert(rows@.take(index + 1).drop_last() =~= rows@.take(index as int));
        }
        commitment = absorb_commitment_from_state_v1(commitment, current);
        let next = if index + 1 < rows.len() {
            Some(rows[index + 1])
        } else {
            None
        };
        let ghost next_values = match next {
            Some(n) => Some(state_values(n)),
            None => None,
        };
        proof {
            assert(next_values == row_next(trace@, index as int));
        }
        match real_stark_trace_row_v1(index as u64, current, next, true, commitment) {
            Ok(row) => {
                let ghost before = out@;
                out.push(row);
                proof {
                    assert forall|i: int| 0 <= i < index + 1 implies row_matches(
                        #[trigger] out@[i],
                        state_values(trace@[i]),
                        row_next(trace@, i),
                        true,
                        commitment_elements_spec(iterations, trace@.take(i + 1)),
                    ) by {
                        if i < index {
                            assert(out@[i] == before[i]);
                        }
                    }
                    assert(trace_row_error(trace@, index as int) is None);
                }
            },
            Err(error) => {
                proof {
                    assert(trace_row_error(trace@, index as int) == Some(error));
                }
                return Err(error);
            },
        }
        index += 1;
    }
    proof {
        assert(rows@.take(rows@.len() as int) =~= rows@);
        lemma_internal_length_covers_rows(count as nat, trace_length as nat);
    }
    let zero = DcmState521V1::from_u64(0, 0);
    while out.len() < trace_length
        invariant
            rows@ == trace@,
            iterations == trace_iteration_count(trace@),
            rows@.len() <= out@.len() <= trace_length,
            internal_trace_length_spec(trace@.len(), trace_length as nat),
            state_values(zero) == (0nat, 0nat),
            commitment.0 < stark_modulus(),
            commitment.1 < stark_modulus(),
            (commitment.0 as int, commitment.1 as int) == commitment_elements_spec(
                iterations,
                trace@,
            ),
            forall|i: int| 0 <= i < trace@.len() ==> #[trigger] trace_row_error(trace@, i) is None,
            forall|i: int|
                0 <= i < trace@.len() ==> row_matches(
                    #[trigger] out@[i],
                    state_values(trace@[i]),
                    row_next(trace@, i),
                    true,
                    commitment_elements_spec(iterations, trace@.take(i + 1)),
                ),
            forall|i: int|
                trace@.len() <= i < out@.len() ==> row_matches(
                    #[trigger] out@[i],
                    (0, 0),
                    None,
                    false,
                    commitment_elements_spec(iterations, trace@),
                ),
        decreases trace_length - out@.len(),
    {
        let row_index = out.len();
        match real_stark_trace_row_v1(row_index as u64, zero, None, false, commitment) {
            Ok(row) => {
                let ghost before = out@;
                out.push(row);
                proof {
                    assert forall|i: int| 0 <= i < trace@.len() implies row_matches(
                        #[trigger] out@[i],
                        state_values(trace@[i]),
                        row_next(trace@, i),
                        true,
                        commitment_elements_spec(iterations, trace@.take(i + 1)),
                    ) by {
                        assert(out@[i] == before[i]);
                    }
                    assert forall|i: int| trace@.len() <= i < out@.len() implies row_matches(
                        #[trigger] out@[i],
                        (0, 0),
                        None,
                        false,
                        commitment_elements_spec(iterations, trace@),
                    ) by {
                        if i < row_index {
                            assert(out@[i] == before[i]);
                        }
                    }
                }
            },
            Err(error) => {
                return Err(error);
            },
        }
    }
    Ok(out)
}

/// The values the boundary assertions of the Winterfell AIR pin: the digits
/// of the initial and final states, the sponge after the initial state, the
/// two halves of the public commitment root, and the last active row.
#[derive(Clone, Copy, Debug, PartialEq, Eq)]
pub struct DcmAirRealStarkBoundaryV1 {
    pub initial_x_digits: [u8; 75],
    pub initial_y_digits: [u8; 75],
    pub final_x_digits: [u8; 75],
    pub final_y_digits: [u8; 75],
    pub initial_commitment_lo: u128,
    pub initial_commitment_hi: u128,
    pub root_lo: u128,
    pub root_hi: u128,
    pub active_last_row: u64,
}

/// The boundary values of the public inputs: the last active row is the
/// iteration count, and each half of the root is read little-endian.
pub fn real_stark_boundary_v1(public_inputs: &DcmAirPublicInputsV1) -> (boundary: DcmAirRealStarkBoundaryV1)
    ensures
        boundary.initial_x_digits@ == digit_bytes(public_inputs.initial_state.x.value()),
        boundary.initial_y_digits@ == digit_bytes(public_inputs.initial_state.y.value()),
        boundary.final_x_digits@ == digit_bytes(public_inputs.final_state.x.value()),
        boundary.final_y_digits@ == digit_bytes(public_inputs.final_state.y.value()),
        (boundary.initial_commitment_lo as int, boundary.initial_commitment_hi as int)
            == commitment_elements_spec(public_inputs.iteration_count, seq![public_inputs.initial_state]),
        boundary.root_lo as nat == le_value(public_inputs.commitment_root@.subrange(0, 16)),
        boundary.root_hi as nat == le_value(public_inputs.commitment_root@.subrange(16, 32)),
        boundary.active_last_row == public_inputs.iteration_count,
{
    let (initial_x_digits, initial_y_digits) = coordinate_digits_v1(public_inputs.initial_state);
    let (final_x_digits, final_y_digits) = coordinate_digits_v1(public_inputs.final_state);
    let mut initial: Vec<DcmState521V1> = Vec::new();
    initial.push(public_inputs.initial_state);
    proof {
        assert(initial@ =~= seq![public_inputs.initial_state]);
    }
    let initial_commitment = derive_dcm_air_commitment_root_elements_521_v1(
        public_inputs.iteration_count,
        initial.as_slice(),
    );
    let mut lo_bytes = [0u8; 16];
    copy_range_into(&mut lo_bytes, &public_inputs.commitment_root, 0);
    let mut hi_bytes = [0u8; 16];
    copy_range_into(&mut hi_bytes, &public_inputs.commitment_root, 16);
    DcmAirRealStarkBoundaryV1 {
        initial_x_digits,
        initial_y_digits,
        final_x_digits,
        final_y_digits,
        initial_commitment_lo: initial_commitment.0,
        initial_commitment_hi: initial_commitment.1,
        root_lo: u128_from_le_bytes(&lo_bytes),
        root_hi: u128_from_le_bytes(&hi_bytes),
        active_last_row: public_inputs.iteration_count,
    }
}

/// The number of boundary assertions: the digits of the first row, and of
/// the last active row when it is another; the first row's activity flag and
/// sponge; the last active row's sponge and flag when it is another row; and
/// the flag of the first padding row, if there is one.
pub open spec fn real_stark_assertion_count_spec(active_row_count: int, trace_length: int) -> int {
    (if active_row_count == 1 {
        150int
    } else {
        300int
    }) + 3 + (if active_row_count > 1 {
        3int
    } else {
        0int
    }) + (if active_row_count < trace_length {
        1int
    } else {
        0int
    })
}

/// The number of boundary assertions for the given active rows and trace
/// length.
pub fn real_stark_assertion_count_v1(active_row_count: u64, trace_length: u64) -> (count: usize)
    ensures
        count == real_stark_assertion_count_spec(active_row_count as int, trace_length as int),
{
    let digit_assertion_count: usize = if active_row_count == 1 {
        150
    } else {
        300
    };
    let mut assertion_count = digit_assertion_count + 3;
    if active_row_count > 1 {
        assertion_count += 3;
    }
    if active_row_count < trace_length {
        assertion_count += 1;
    }
    assertion_count
}

} // verus!
