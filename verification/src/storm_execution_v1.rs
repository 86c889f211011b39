//! Storm execution: the initial state, the constants and the per-step inputs
//! are derived by domain-separated `H_521`, and each step maps
//! `(x, y)` to `(x^2 - y^2 + a + phi_n, 2xy + b + psi_n)` modulo `2^521 - 1`.

use crate::encoding_v1::{append_bytes, u64_le, u64_to_le_bytes};
use crate::field_521_v1::{lemma_fe_encoding, FieldElement521V1};
use crate::digest_v1::sha3_512_spec;
use crate::limbs_521_v1::{be_value, p521};
use crate::storm_context_v1::{
    storm_context_bytes_valid, storm_context_error_spec, validate_context_bytes_v1,
    StormContextErrorV1,
};
use crate::storm_hash521_v1::{aura_hash521_v1, hash521_spec};
use crate::storm_state_v1::{storm_row_of_values, storm_row_spec, StormState521V1};
use crate::storm_trace_commitment_v1::{merkle_root_spec, row_leaves, storm_trace_root_spec};
use vstd::arithmetic::div_mod::{lemma_add_mod_noop, lemma_small_mod, lemma_sub_mod_noop};
use vstd::prelude::*;

verus! {

pub const STORM_SIDE_INPUT_LEN_V1: usize = 110;

/// `"AURA_X0_V1"`.
pub const AURA_X0_V1_DOMAIN_SEPARATOR: [u8; 10] = [0x41, 0x55, 0x52, 0x41, 0x5f, 0x58, 0x30, 0x5f, 0x56, 0x31];

/// `"AURA_Y0_V1"`.
pub const AURA_Y0_V1_DOMAIN_SEPARATOR: [u8; 10] = [0x41, 0x55, 0x52, 0x41, 0x5f, 0x59, 0x30, 0x5f, 0x56, 0x31];

/// `"AURA_C_A_V1"`.
pub const AURA_C_A_V1_DOMAIN_SEPARATOR: [u8; 11] = [0x41, 0x55, 0x52, 0x41, 0x5f, 0x43, 0x5f, 0x41, 0x5f, 0x56, 0x31];

/// `"AURA_C_B_V1"`.
pub const AURA_C_B_V1_DOMAIN_SEPARATOR: [u8; 11] = [0x41, 0x55, 0x52, 0x41, 0x5f, 0x43, 0x5f, 0x42, 0x5f, 0x56, 0x31];

/// `"AURA_STORM_X_V1"`.
pub const AURA_STORM_X_V1_DOMAIN_SEPARATOR: [u8; 15] = [0x41, 0x55, 0x52, 0x41, 0x5f, 0x53, 0x54, 0x4f, 0x52, 0x4d, 0x5f, 0x58, 0x5f, 0x56, 0x31];

/// `"AURA_STORM_Y_V1"`.
pub const AURA_STORM_Y_V1_DOMAIN_SEPARATOR: [u8; 15] = [0x41, 0x55, 0x52, 0x41, 0x5f, 0x53, 0x54, 0x4f, 0x52, 0x4d, 0x5f, 0x59, 0x5f, 0x56, 0x31];

/// What a Storm execution starts from.
#[derive(Clone, Copy, Debug, PartialEq, Eq)]
pub struct StormExecutionInputsV1 {
    pub side_a: [u8; 110],
    pub side_b: [u8; 110],
    pub context_bytes_v1: [u8; 209],
    pub iteration_count: u64,
}

/// A Storm execution: its boundary states, its constants and its full trace.
#[derive(Clone, Debug, PartialEq, Eq)]
pub struct StormExecutionResultV1 {
    pub initial_state: StormState521V1,
    pub final_state: StormState521V1,
    pub a: FieldElement521V1,
    pub b: FieldElement521V1,
    pub trace: Vec<StormState521V1>,
}

/// Why execution inputs are refused.
#[derive(Clone, Copy, Debug, PartialEq, Eq)]
pub enum StormExecutionErrorV1 {
    IterationCountTooLarge { actual: u64 },
    InvalidContext(StormContextErrorV1),
}

/// `H_521(domain || payload)`.
pub open spec fn derive_spec(domain: Seq<u8>, payload: Seq<u8>) -> nat {
    hash521_spec(domain + payload)
}

pub open spec fn x0_spec(side_a: Seq<u8>) -> nat {
    derive_spec(AURA_X0_V1_DOMAIN_SEPARATOR@, side_a)
}

pub open spec fn y0_spec(side_b: Seq<u8>) -> nat {
    derive_spec(AURA_Y0_V1_DOMAIN_SEPARATOR@, side_b)
}

pub open spec fn a_spec(context: Seq<u8>) -> nat {
    derive_spec(AURA_C_A_V1_DOMAIN_SEPARATOR@, context)
}

pub open spec fn b_spec(context: Seq<u8>) -> nat {
    derive_spec(AURA_C_B_V1_DOMAIN_SEPARATOR@, context)
}

/// The per-step payload: both sides, the context and the step number.
pub open spec fn step_payload(side_a: Seq<u8>, side_b: Seq<u8>, context: Seq<u8>, n: u64) -> Seq<u8> {
    side_a + side_b + context + u64_le(n)
}

pub open spec fn phi_spec(side_a: Seq<u8>, side_b: Seq<u8>, context: Seq<u8>, n: u64) -> nat {
    derive_spec(AURA_STORM_X_V1_DOMAIN_SEPARATOR@, step_payload(side_a, side_b, context, n))
}

pub open spec fn psi_spec(side_a: Seq<u8>, side_b: Seq<u8>, context: Seq<u8>, n: u64) -> nat {
    derive_spec(AURA_STORM_Y_V1_DOMAIN_SEPARATOR@, step_payload(side_a, side_b, context, n))
}

/// One Storm step on values: `(x^2 - y^2 + a + phi, 2xy + b + psi)` modulo
/// `2^521 - 1`.
pub open spec fn storm_step_spec(x: nat, y: nat, a: nat, b: nat, phi: nat, psi: nat) -> (nat, nat) {
    let p = p521() as int;
    (
        ((x * x - y * y + a + phi) as int % p) as nat,
        ((2 * x * y + b + psi) as int % p) as nat,
    )
}

/// The values of a state.
pub open spec fn state_values(state: StormState521V1) -> (nat, nat) {
    (state.x.value(), state.y.value())
}

/// The state after `n` steps of the execution the inputs describe.
pub open spec fn storm_state_at(inputs: StormExecutionInputsV1, n: nat) -> (nat, nat)
    decreases n,
{
    if n == 0 {
        (x0_spec(inputs.side_a@), y0_spec(inputs.side_b@))
    } else {
        let prior = storm_state_at(inputs, (n - 1) as nat);
        let step = (n - 1) as u64;
        storm_step_spec(
            prior.0,
            prior.1,
            a_spec(inputs.context_bytes_v1@),
            b_spec(inputs.context_bytes_v1@),
            phi_spec(inputs.side_a@, inputs.side_b@, inputs.context_bytes_v1@, step),
            psi_spec(inputs.side_a@, inputs.side_b@, inputs.context_bytes_v1@, step),
        )
    }
}

/// Inputs that `validate` accepts: the trace length `iteration_count + 1`
/// fits in `usize`, and the context is canonical.
pub open spec fn storm_inputs_valid(inputs: StormExecutionInputsV1) -> bool {
    &&& (inputs.iteration_count as int) < usize::MAX
    &&& storm_context_bytes_valid(inputs.context_bytes_v1@)
}

/// The trace the inputs describe, `iteration_count + 1` states long, each in
/// canonical form.
pub open spec fn storm_trace_matches(inputs: StormExecutionInputsV1, trace: Seq<StormState521V1>) -> bool {
    &&& trace.len() == inputs.iteration_count + 1
    &&& forall|i: int|
        0 <= i < trace.len() ==> #[trigger] state_values(trace[i]) == storm_state_at(inputs, i as nat)
    &&& forall|i: int|
        0 <= i < trace.len() ==> (#[trigger] trace[i]).x.is_canonical() && trace[i].y.is_canonical()
}

/// The row encodings of the trace the inputs describe.
pub open spec fn storm_expected_rows(inputs: StormExecutionInputsV1) -> Seq<Seq<u8>> {
    Seq::new(
        (inputs.iteration_count + 1) as nat,
        |i: int| storm_row_of_values(storm_state_at(inputs, i as nat)),
    )
}

/// The trace root of the execution the inputs describe.
pub open spec fn storm_expected_trace_root(inputs: StormExecutionInputsV1) -> Seq<u8> {
    merkle_root_spec(row_leaves(storm_expected_rows(inputs)))
}

/// The commitment to a trace that matches the inputs is the commitment the
/// inputs determine.
pub proof fn lemma_trace_root_of_matching_trace(inputs: StormExecutionInputsV1, trace: Seq<StormState521V1>)
    requires
        storm_trace_matches(inputs, trace),
    ensures
        storm_trace_root_spec(trace) == storm_expected_trace_root(inputs),
{
    let rows = trace.map_values(|s: StormState521V1| storm_row_spec(s));
    assert forall|i: int| 0 <= i < rows.len() implies rows[i] == storm_expected_rows(inputs)[i] by {
        let s = trace[i];
        assert(state_values(s) == storm_state_at(inputs, i as nat));
        lemma_fe_encoding(s.x);
        lemma_fe_encoding(s.y);
    }
    assert(rows =~= storm_expected_rows(inputs));
}

impl StormExecutionInputsV1 {
    /// Checks the iteration count, then the context.
    pub fn validate(&self) -> (result: Result<(), StormExecutionErrorV1>)
        ensures
            (self.iteration_count as int) >= usize::MAX ==> result == Err::<(), StormExecutionErrorV1>(
                StormExecutionErrorV1::IterationCountTooLarge { actual: self.iteration_count },
            ),
            (self.iteration_count as int) < usize::MAX && !storm_context_bytes_valid(
                self.context_bytes_v1@,
            ) ==> (result matches Err(StormExecutionErrorV1::InvalidContext(error))
                && storm_context_error_spec(error, self.context_bytes_v1@)),
            storm_inputs_valid(*self) <==> result is Ok,
    {
        if self.iteration_count as u128 >= usize::MAX as u128 {
            return Err(StormExecutionErrorV1::IterationCountTooLarge { actual: self.iteration_count });
        }
        match validate_context_bytes_v1(&self.context_bytes_v1) {
            Ok(_) => Ok(()),
            Err(error) => Err(StormExecutionErrorV1::InvalidContext(error)),
        }
    }
}

/// `H_521(domain || payload)`.
fn hash_domain_and_fixed_payload(domain_separator: &[u8], payload: &[u8]) -> (hash: FieldElement521V1)
    ensures
        hash.value() == derive_spec(domain_separator@, payload@),
{
    let mut message: Vec<u8> = Vec::new();
    append_bytes(&mut message, domain_separator);
    append_bytes(&mut message, payload);
    aura_hash521_v1(message.as_slice())
}

/// `x_0 = H_521("AURA_X0_V1" || side_a)`.
pub fn derive_x0(side_a: &[u8; 110]) -> (x0: FieldElement521V1)
    ensures
        x0.value() == x0_spec(side_a@),
        x0.value() == be_value(sha3_512_spec(seq![0x41u8, 0x55, 0x52, 0x41, 0x5f, 0x58, 0x30, 0x5f, 0x56, 0x31] + side_a@)) % p521(),
{
    proof {
        lemma_storm_derivations_hash_their_separators(side_a@, Seq::empty(), Seq::empty(), 0);
    }
    let domain = AURA_X0_V1_DOMAIN_SEPARATOR;
    hash_domain_and_fixed_payload(&domain, side_a)
}

/// `y_0 = H_521("AURA_Y0_V1" || side_b)`.
pub fn derive_y0(side_b: &[u8; 110]) -> (y0: FieldElement521V1)
    ensures
        y0.value() == y0_spec(side_b@),
        y0.value() == be_value(sha3_512_spec(seq![0x41u8, 0x55, 0x52, 0x41, 0x5f, 0x59, 0x30, 0x5f, 0x56, 0x31] + side_b@)) % p521(),
{
    proof {
        lemma_storm_derivations_hash_their_separators(Seq::empty(), side_b@, Seq::empty(), 0);
    }
    let domain = AURA_Y0_V1_DOMAIN_SEPARATOR;
    hash_domain_and_fixed_payload(&domain, side_b)
}

/// `a = H_521("AURA_C_A_V1" || context)`.
pub fn derive_a(context_bytes: &[u8; 209]) -> (a: FieldElement521V1)
    ensures
        a.value() == a_spec(context_bytes@),
        a.value() == be_value(sha3_512_spec(seq![0x41u8, 0x55, 0x52, 0x41, 0x5f, 0x43, 0x5f, 0x41, 0x5f, 0x56, 0x31] + context_bytes@)) % p521(),
{
    proof {
        lemma_storm_derivations_hash_their_separators(Seq::empty(), Seq::empty(), context_bytes@, 0);
    }
    let domain = AURA_C_A_V1_DOMAIN_SEPARATOR;
    hash_domain_and_fixed_payload(&domain, context_bytes)
}

/// `b = H_521("AURA_C_B_V1" || context)`.
pub fn derive_b(context_bytes: &[u8; 209]) -> (b: FieldElement521V1)
    ensures
        b.value() == b_spec(context_bytes@),
        b.value() == be_value(sha3_512_spec(seq![0x41u8, 0x55, 0x52, 0x41, 0x5f, 0x43, 0x5f, 0x42, 0x5f, 0x56, 0x31] + context_bytes@)) % p521(),
{
    proof {
        lemma_storm_derivations_hash_their_separators(Seq::empty(), Seq::empty(), context_bytes@, 0);
    }
    let domain = AURA_C_B_V1_DOMAIN_SEPARATOR;
    hash_domain_and_fixed_payload(&domain, context_bytes)
}

/// The step number in eight little-endian bytes.
pub fn encode_step_u64_le(n: u64) -> (bytes: [u8; 8])
    ensures
        bytes@ == u64_le(n),
{
    u64_to_le_bytes(n)
}

/// `side_a || side_b || context || le64(n)`.
fn step_payload_bytes(side_a: &[u8; 110], side_b: &[u8; 110], context_bytes: &[u8; 209], n: u64) -> (payload: Vec<u8>)
    ensures
        payload@ == step_payload(side_a@, side_b@, context_bytes@, n),
{
    let mut payload: Vec<u8> = Vec::new();
    append_bytes(&mut payload, side_a);
    append_bytes(&mut payload, side_b);
    append_bytes(&mut payload, context_bytes);
    let step_bytes = encode_step_u64_le(n);
    append_bytes(&mut payload, &step_bytes);
    payload
}

/// `phi_n = H_521("AURA_STORM_X_V1" || side_a || side_b || context || le64(n))`.
pub fn derive_phi_n(side_a: &[u8; 110], side_b: &[u8; 110], context_bytes: &[u8; 209], n: u64) -> (phi: FieldElement521V1)
    ensures
        phi.value() == phi_spec(side_a@, side_b@, context_bytes@, n),
        phi.value() == be_value(sha3_512_spec(seq![0x41u8, 0x55, 0x52, 0x41, 0x5f, 0x53, 0x54, 0x4f, 0x52, 0x4d, 0x5f, 0x58, 0x5f, 0x56, 0x31] + side_a@ + side_b@ + context_bytes@ + u64_le(n))) % p521(),
{
    proof {
        lemma_storm_derivations_hash_their_separators(side_a@, side_b@, context_bytes@, n);
    }
    let payload = step_payload_bytes(side_a, side_b, context_bytes, n);
    let domain = AURA_STORM_X_V1_DOMAIN_SEPARATOR;
    hash_domain_and_fixed_payload(&domain, payload.as_slice())
}

/// `psi_n = H_521("AURA_STORM_Y_V1" || side_a || side_b || context || le64(n))`.
pub fn derive_psi_n(side_a: &[u8; 110], side_b: &[u8; 110], context_bytes: &[u8; 209], n: u64) -> (psi: FieldElement521V1)
    ensures
        psi.value() == psi_spec(side_a@, side_b@, context_bytes@, n),
        psi.value() == be_value(sha3_512_spec(seq![0x41u8, 0x55, 0x52, 0x41, 0x5f, 0x53, 0x54, 0x4f, 0x52, 0x4d, 0x5f, 0x59, 0x5f, 0x56, 0x31] + side_a@ + side_b@ + context_bytes@ + u64_le(n))) % p521(),
{
    proof {
        lemma_storm_derivations_hash_their_separators(side_a@, side_b@, context_bytes@, n);
    }
    let payload = step_payload_bytes(side_a, side_b, context_bytes, n);
    let domain = AURA_STORM_Y_V1_DOMAIN_SEPARATOR;
    hash_domain_and_fixed_payload(&domain, payload.as_slice())
}

/// The reductions the step performs one operation at a time give the single
/// reduction of the whole polynomial.
proof fn lemma_step_reductions(x: nat, y: nat, a: nat, b: nat, phi: nat, psi: nat)
    requires
        a < p521(),
        b < p521(),
        phi < p521(),
        psi < p521(),
    ensures
        ({
            let p = p521() as int;
            let xx = (x * x) as int % p;
            let yy = (y * y) as int % p;
            let xy = (x * y) as int % p;
            let new_x = (((xx - yy) % p + a) % p + phi) % p;
            let new_y = (((xy + xy) % p + b) % p + psi) % p;
            (new_x as nat, new_y as nat) == storm_step_spec(x, y, a, b, phi, psi)
        }),
{
    let p = p521() as int;
    crate::limbs_521_v1::lemma_limb_weight_values();
    let xx = (x * x) as int;
    let yy = (y * y) as int;
    let xy = (x * y) as int;
    lemma_small_mod(a, p as nat);
    lemma_small_mod(b, p as nat);
    lemma_small_mod(phi, p as nat);
    lemma_small_mod(psi, p as nat);
    lemma_sub_mod_noop(xx, yy, p);
    lemma_add_mod_noop(xx - yy, a as int, p);
    lemma_add_mod_noop(xx - yy + a, phi as int, p);
    lemma_add_mod_noop(xy, xy, p);
    lemma_add_mod_noop(xy + xy, b as int, p);
    lemma_add_mod_noop(xy + xy + b, psi as int, p);
    assert(2 * x * y == xy + xy) by (nonlinear_arith)
        requires xy == x * y;
    vstd::arithmetic::div_mod::lemma_mod_twice(xx - yy, p);
    vstd::arithmetic::div_mod::lemma_mod_twice(xx - yy + a, p);
    vstd::arithmetic::div_mod::lemma_mod_twice(xy + xy, p);
    vstd::arithmetic::div_mod::lemma_mod_twice(xy + xy + b, p);
}

/// One Storm step.
pub fn storm_step(state: &StormState521V1, a: &FieldElement521V1, b: &FieldElement521V1, phi_n: &FieldElement521V1, psi_n: &FieldElement521V1) -> (next: StormState521V1)
    ensures
        state_values(next) == storm_step_spec(
            state.x.value(),
            state.y.value(),
            a.value(),
            b.value(),
            phi_n.value(),
            psi_n.value(),
        ),
{
    proof {
        use_type_invariant(a);
        use_type_invariant(b);
        use_type_invariant(phi_n);
        use_type_invariant(psi_n);
        lemma_step_reductions(
            state.x.value(),
            state.y.value(),
            a.value(),
            b.value(),
            phi_n.value(),
            psi_n.value(),
        );
    }
    let x_squared = state.x.square_mod();
    let y_squared = state.y.square_mod();
    let xy = state.x.mul_mod(&state.y);
    let two_xy = xy.add_mod(&xy);
    StormState521V1 {
        x: x_squared.sub_mod(&y_squared).add_mod(a).add_mod(phi_n),
        y: two_xy.add_mod(b).add_mod(psi_n),
    }
}

/// The full trace: the initial state and one state per step.
pub fn build_storm_trace(inputs: &StormExecutionInputsV1) -> (trace: Vec<StormState521V1>)
    requires
        storm_inputs_valid(*inputs),
    ensures
        storm_trace_matches(*inputs, trace@),
{
    let a = derive_a(&inputs.context_bytes_v1);
    let b = derive_b(&inputs.context_bytes_v1);
    let initial_state = StormState521V1 { x: derive_x0(&inputs.side_a), y: derive_y0(&inputs.side_b) };
    let mut trace: Vec<StormState521V1> = Vec::new();
    let mut state = initial_state;
    proof {
        use_type_invariant(&state.x);
        use_type_invariant(&state.y);
    }
    trace.push(state);
    let mut step: u64 = 0;
    while step < inputs.iteration_count
        invariant
            step <= inputs.iteration_count,
            trace@.len() == step + 1,
            a.value() == a_spec(inputs.context_bytes_v1@),
            b.value() == b_spec(inputs.context_bytes_v1@),
            state_values(state) == storm_state_at(*inputs, step as nat),
            forall|i: int|
                0 <= i < trace@.len() ==> #[trigger] state_values(trace@[i]) == storm_state_at(
                    *inputs,
                    i as nat,
                ),
            forall|i: int|
                0 <= i < trace@.len() ==> (#[trigger] trace@[i]).x.is_canonical()
                    && trace@[i].y.is_canonical(),
        decreases inputs.iteration_count - step,
    {
        let phi_n = derive_phi_n(&inputs.side_a, &inputs.side_b, &inputs.context_bytes_v1, step);
        let psi_n = derive_psi_n(&inputs.side_a, &inputs.side_b, &inputs.context_bytes_v1, step);
        state = storm_step(&state, &a, &b, &phi_n, &psi_n);
        proof {
            use_type_invariant(&state.x);
            use_type_invariant(&state.y);
        }
        trace.push(state);
        step += 1;
    }
    trace
}

/// Runs the execution and reports its boundary states and constants.
pub fn execute_storm_v1(inputs: &StormExecutionInputsV1) -> (result: StormExecutionResultV1)
    requires
        storm_inputs_valid(*inputs),
    ensures
        storm_trace_matches(*inputs, result.trace@),
        result.initial_state == result.trace@[0],
        result.final_state == result.trace@[inputs.iteration_count as int],
        result.a.value() == a_spec(inputs.context_bytes_v1@),
        result.b.value() == b_spec(inputs.context_bytes_v1@),
{
    let trace = build_storm_trace(inputs);
    let initial_state = trace[0];
    let final_state = trace[trace.len() - 1];
    StormExecutionResultV1 {
        initial_state,
        final_state,
        a: derive_a(&inputs.context_bytes_v1),
        b: derive_b(&inputs.context_bytes_v1),
        trace,
    }
}

/// Every state of an execution is reduced modulo `2^521 - 1`.
pub proof fn lemma_storm_state_at_reduced(inputs: StormExecutionInputsV1, n: nat)
    ensures
        storm_state_at(inputs, n).0 < p521(),
        storm_state_at(inputs, n).1 < p521(),
{
    crate::limbs_521_v1::lemma_limb_weight_values();
}


/// Every Storm derivation is one SHA3-512 digest, read big-endian and reduced
/// modulo `2^521 - 1`, of its own ASCII separator followed by its payload:
/// `x_0` hashes `"AURA_X0_V1" || side_a`, `y_0` hashes `"AURA_Y0_V1" || side_b`,
/// `a` and `b` hash `"AURA_C_A_V1"` and `"AURA_C_B_V1"` before the context,
/// and `phi_n` and `psi_n` hash `"AURA_STORM_X_V1"` and `"AURA_STORM_Y_V1"`
/// before `side_a || side_b || context || le64(n)`.
pub proof fn lemma_storm_derivations_hash_their_separators(
    side_a: Seq<u8>,
    side_b: Seq<u8>,
    context: Seq<u8>,
    n: u64,
)
    ensures
        x0_spec(side_a) == be_value(sha3_512_spec(seq![0x41u8, 0x55, 0x52, 0x41, 0x5f, 0x58, 0x30, 0x5f, 0x56, 0x31] + side_a)) % p521(),
        y0_spec(side_b) == be_value(sha3_512_spec(seq![0x41u8, 0x55, 0x52, 0x41, 0x5f, 0x59, 0x30, 0x5f, 0x56, 0x31] + side_b)) % p521(),
        a_spec(context) == be_value(sha3_512_spec(seq![0x41u8, 0x55, 0x52, 0x41, 0x5f, 0x43, 0x5f, 0x41, 0x5f, 0x56, 0x31] + context)) % p521(),
        b_spec(context) == be_value(sha3_512_spec(seq![0x41u8, 0x55, 0x52, 0x41, 0x5f, 0x43, 0x5f, 0x42, 0x5f, 0x56, 0x31] + context)) % p521(),
        phi_spec(side_a, side_b, context, n) == be_value(
            sha3_512_spec(seq![0x41u8, 0x55, 0x52, 0x41, 0x5f, 0x53, 0x54, 0x4f, 0x52, 0x4d, 0x5f, 0x58, 0x5f, 0x56, 0x31] + side_a + side_b + context + u64_le(n)),
        ) % p521(),
        psi_spec(side_a, side_b, context, n) == be_value(
            sha3_512_spec(seq![0x41u8, 0x55, 0x52, 0x41, 0x5f, 0x53, 0x54, 0x4f, 0x52, 0x4d, 0x5f, 0x59, 0x5f, 0x56, 0x31] + side_a + side_b + context + u64_le(n)),
        ) % p521(),
{
    crate::storm_hash521_v1::lemma_hash521_is_reduced_sha3_512(seq![0x41u8, 0x55, 0x52, 0x41, 0x5f, 0x58, 0x30, 0x5f, 0x56, 0x31] + side_a);
    crate::storm_hash521_v1::lemma_hash521_is_reduced_sha3_512(seq![0x41u8, 0x55, 0x52, 0x41, 0x5f, 0x59, 0x30, 0x5f, 0x56, 0x31] + side_b);
    crate::storm_hash521_v1::lemma_hash521_is_reduced_sha3_512(seq![0x41u8, 0x55, 0x52, 0x41, 0x5f, 0x43, 0x5f, 0x41, 0x5f, 0x56, 0x31] + context);
    crate::storm_hash521_v1::lemma_hash521_is_reduced_sha3_512(seq![0x41u8, 0x55, 0x52, 0x41, 0x5f, 0x43, 0x5f, 0x42, 0x5f, 0x56, 0x31] + context);
    crate::storm_hash521_v1::lemma_hash521_is_reduced_sha3_512(
        seq![0x41u8, 0x55, 0x52, 0x41, 0x5f, 0x53, 0x54, 0x4f, 0x52, 0x4d, 0x5f, 0x58, 0x5f, 0x56, 0x31] + side_a + side_b + context + u64_le(n),
    );
    crate::storm_hash521_v1::lemma_hash521_is_reduced_sha3_512(
        seq![0x41u8, 0x55, 0x52, 0x41, 0x5f, 0x53, 0x54, 0x4f, 0x52, 0x4d, 0x5f, 0x59, 0x5f, 0x56, 0x31] + side_a + side_b + context + u64_le(n),
    );
    assert(AURA_X0_V1_DOMAIN_SEPARATOR@ =~= seq![0x41u8, 0x55, 0x52, 0x41, 0x5f, 0x58, 0x30, 0x5f, 0x56, 0x31]);
    assert(AURA_Y0_V1_DOMAIN_SEPARATOR@ =~= seq![0x41u8, 0x55, 0x52, 0x41, 0x5f, 0x59, 0x30, 0x5f, 0x56, 0x31]);
    assert(AURA_C_A_V1_DOMAIN_SEPARATOR@ =~= seq![0x41u8, 0x55, 0x52, 0x41, 0x5f, 0x43, 0x5f, 0x41, 0x5f, 0x56, 0x31]);
    assert(AURA_C_B_V1_DOMAIN_SEPARATOR@ =~= seq![0x41u8, 0x55, 0x52, 0x41, 0x5f, 0x43, 0x5f, 0x42, 0x5f, 0x56, 0x31]);
    assert(AURA_STORM_X_V1_DOMAIN_SEPARATOR@ =~= seq![0x41u8, 0x55, 0x52, 0x41, 0x5f, 0x53, 0x54, 0x4f, 0x52, 0x4d, 0x5f, 0x58, 0x5f, 0x56, 0x31]);
    assert(AURA_STORM_Y_V1_DOMAIN_SEPARATOR@ =~= seq![0x41u8, 0x55, 0x52, 0x41, 0x5f, 0x53, 0x54, 0x4f, 0x52, 0x4d, 0x5f, 0x59, 0x5f, 0x56, 0x31]);
    assert(seq![0x41u8, 0x55, 0x52, 0x41, 0x5f, 0x53, 0x54, 0x4f, 0x52, 0x4d, 0x5f, 0x58, 0x5f, 0x56, 0x31] + side_a + side_b + context + u64_le(n) =~= seq![0x41u8, 0x55, 0x52, 0x41, 0x5f, 0x53, 0x54, 0x4f, 0x52, 0x4d, 0x5f, 0x58, 0x5f, 0x56, 0x31] + step_payload(
        side_a,
        side_b,
        context,
        n,
    ));
    assert(seq![0x41u8, 0x55, 0x52, 0x41, 0x5f, 0x53, 0x54, 0x4f, 0x52, 0x4d, 0x5f, 0x59, 0x5f, 0x56, 0x31] + side_a + side_b + context + u64_le(n) =~= seq![0x41u8, 0x55, 0x52, 0x41, 0x5f, 0x53, 0x54, 0x4f, 0x52, 0x4d, 0x5f, 0x59, 0x5f, 0x56, 0x31] + step_payload(
        side_a,
        side_b,
        context,
        n,
    ));
}

/// The paired derivations never hash the same bytes: for any sides and
/// context, `x_0` and `y_0` of equal sides, `a` and `b`, and `phi_n` and
/// `psi_n` of the same step are digests of different preimages.
pub proof fn lemma_storm_paired_derivations_differ(side: Seq<u8>, context: Seq<u8>, payload: Seq<u8>)
    ensures
        AURA_X0_V1_DOMAIN_SEPARATOR@ + side != AURA_Y0_V1_DOMAIN_SEPARATOR@ + side,
        AURA_C_A_V1_DOMAIN_SEPARATOR@ + context != AURA_C_B_V1_DOMAIN_SEPARATOR@ + context,
        AURA_STORM_X_V1_DOMAIN_SEPARATOR@ + payload != AURA_STORM_Y_V1_DOMAIN_SEPARATOR@ + payload,
{
    assert((AURA_X0_V1_DOMAIN_SEPARATOR@ + side)[5] != (AURA_Y0_V1_DOMAIN_SEPARATOR@ + side)[5]);
    assert((AURA_C_A_V1_DOMAIN_SEPARATOR@ + context)[7] != (AURA_C_B_V1_DOMAIN_SEPARATOR@
        + context)[7]);
    assert((AURA_STORM_X_V1_DOMAIN_SEPARATOR@ + payload)[11] != (AURA_STORM_Y_V1_DOMAIN_SEPARATOR@
        + payload)[11]);
}


/// A Storm step is complex squaring plus the constants and forcing terms:
/// the new `x` is congruent to `x^2 - y^2 + a + phi` and the new `y` to
/// `2xy + b + psi` modulo `2^521 - 1`, and both are reduced.
pub proof fn lemma_storm_step_congruences(x: nat, y: nat, a: nat, b: nat, phi: nat, psi: nat)
    ensures
        ({
            let p = p521() as int;
            let next = storm_step_spec(x, y, a, b, phi, psi);
            &&& next.0 < p521()
            &&& next.1 < p521()
            &&& (next.0 as int - (x * x - y * y + a + phi)) % p == 0
            &&& (next.1 as int - (2 * x * y + b + psi)) % p == 0
        }),
{
    let p = p521() as int;
    crate::limbs_521_v1::lemma_limb_weight_values();
    let t0: int = x * x - y * y + a + phi;
    let t1: int = (2 * x * y + b + psi) as int;
    vstd::arithmetic::div_mod::lemma_fundamental_div_mod(t0, p);
    vstd::arithmetic::div_mod::lemma_fundamental_div_mod(t1, p);
    vstd::arithmetic::div_mod::lemma_mod_multiples_basic(-(t0 / p), p);
    vstd::arithmetic::div_mod::lemma_mod_multiples_basic(-(t1 / p), p);
    assert(t0 % p - t0 == -(t0 / p) * p) by (nonlinear_arith)
        requires
            t0 == p * (t0 / p) + t0 % p,
    ;
    assert(t1 % p - t1 == -(t1 / p) * p) by (nonlinear_arith)
        requires
            t1 == p * (t1 / p) + t1 % p,
    ;
}


/// A Storm execution starts at `(x_0(side_a), y_0(side_b))`, and the state
/// after step `n` is the complex square of the state before it plus `a` and
/// `phi_n` in `x` and `b` and `psi_n` in `y`, modulo `2^521 - 1`, where the
/// forcing terms of step `n` are derived from `n` itself.
pub proof fn lemma_storm_execution_recurrence(inputs: StormExecutionInputsV1, n: u64)
    ensures
        storm_state_at(inputs, 0) == (x0_spec(inputs.side_a@), y0_spec(inputs.side_b@)),
        ({
            let p = p521() as int;
            let ctx = inputs.context_bytes_v1@;
            let s = storm_state_at(inputs, n as nat);
            let t = storm_state_at(inputs, (n + 1) as nat);
            &&& t.0 < p521()
            &&& t.1 < p521()
            &&& (t.0 as int - (s.0 * s.0 - s.1 * s.1 + a_spec(ctx) + phi_spec(
                inputs.side_a@,
                inputs.side_b@,
                ctx,
                n,
            ))) % p == 0
            &&& (t.1 as int - (2 * s.0 * s.1 + b_spec(ctx) + psi_spec(
                inputs.side_a@,
                inputs.side_b@,
                ctx,
                n,
            ))) % p == 0
        }),
{
    let ctx = inputs.context_bytes_v1@;
    let s = storm_state_at(inputs, n as nat);
    assert(((n + 1) as nat - 1) as u64 == n);
    lemma_storm_step_congruences(
        s.0,
        s.1,
        a_spec(ctx),
        b_spec(ctx),
        phi_spec(inputs.side_a@, inputs.side_b@, ctx, n),
        psi_spec(inputs.side_a@, inputs.side_b@, ctx, n),
    );
}

} // verus!
