//! The legacy cat-map execution: the map `(x, y) -> (x + y, x + 2y)` with its
//! inverse, fast forward and rewind by square-and-multiply, the coordinate
//! recurrence `c_{n+2} = 3 c_{n+1} - c_n`, and SHA-256 trace commitments, both
//! over a `u64` modulus and over the field of integers modulo `2^521 - 1`.

use crate::cat_matrix_v1::{
    cat_back_iterate, cat_back_step, cat_inverse_matrix, cat_iterate, cat_matrix, cat_step,
    lemma_cat_back_iterate_is_power, lemma_cat_iterate_is_power, lemma_mat_apply_mod_matrix, lemma_mat_mul_identity, lemma_mat_pow_congruent,
    lemma_square_multiply_step, mat_apply, mat_identity,
    mat_mod, mat_mul, mat_pow, vec_mod, vec_reduced, Mat2, Vec2,
};
use crate::dcm_commitment_root_v1::{commitment_root_spec, derive_dcm_air_commitment_root_521_v1};
use crate::digest_v1::{sha256_bytes, sha256_spec};
use crate::encoding_v1::{append_bytes, u64_le, u64_to_le_bytes};
use crate::field_521_v1::{lemma_fe_encoding, FieldElement521V1, FIELD_MODULUS_521_V1};
use crate::limbs_521_v1::p521;
use vstd::arithmetic::div_mod::{lemma_add_mod_noop, lemma_mod_twice, lemma_small_mod, lemma_sub_mod_noop};
use vstd::prelude::*;

verus! {

/// `"AURA_CAT_V1_STATE_LEAF"`.
pub const AURA_DCM_V1_STATE_LEAF_DOMAIN_SEPARATOR: [u8; 22] = [0x41, 0x55, 0x52, 0x41, 0x5f, 0x43, 0x41, 0x54, 0x5f, 0x56, 0x31, 0x5f, 0x53, 0x54, 0x41, 0x54, 0x45, 0x5f, 0x4c, 0x45, 0x41, 0x46];

/// `"AURA_CAT_V1_TRACE_COMMITMENT"`.
pub const AURA_DCM_V1_TRACE_COMMITMENT_DOMAIN_SEPARATOR: [u8; 28] = [0x41, 0x55, 0x52, 0x41, 0x5f, 0x43, 0x41, 0x54, 0x5f, 0x56, 0x31, 0x5f, 0x54, 0x52, 0x41, 0x43, 0x45, 0x5f, 0x43, 0x4f, 0x4d, 0x4d, 0x49, 0x54, 0x4d, 0x45, 0x4e, 0x54];

/// `"AURA_CAT_V1_COMMITMENT_ROOT"`.
pub const AURA_DCM_V1_COMMITMENT_ROOT_DOMAIN_SEPARATOR: [u8; 27] = [0x41, 0x55, 0x52, 0x41, 0x5f, 0x43, 0x41, 0x54, 0x5f, 0x56, 0x31, 0x5f, 0x43, 0x4f, 0x4d, 0x4d, 0x49, 0x54, 0x4d, 0x45, 0x4e, 0x54, 0x5f, 0x52, 0x4f, 0x4f, 0x54];

/// `"AURA_CAT_521_V1_STATE_LEAF"`.
pub const AURA_DCM_521_V1_STATE_LEAF_DOMAIN_SEPARATOR: [u8; 26] = [0x41, 0x55, 0x52, 0x41, 0x5f, 0x43, 0x41, 0x54, 0x5f, 0x35, 0x32, 0x31, 0x5f, 0x56, 0x31, 0x5f, 0x53, 0x54, 0x41, 0x54, 0x45, 0x5f, 0x4c, 0x45, 0x41, 0x46];

/// `"AURA_CAT_521_V1_TRACE_COMMITMENT"`.
pub const AURA_DCM_521_V1_TRACE_COMMITMENT_DOMAIN_SEPARATOR: [u8; 32] = [0x41, 0x55, 0x52, 0x41, 0x5f, 0x43, 0x41, 0x54, 0x5f, 0x35, 0x32, 0x31, 0x5f, 0x56, 0x31, 0x5f, 0x54, 0x52, 0x41, 0x43, 0x45, 0x5f, 0x43, 0x4f, 0x4d, 0x4d, 0x49, 0x54, 0x4d, 0x45, 0x4e, 0x54];

/// `"AURA_CAT_521_V1_COMMITMENT_ROOT"`.
pub const AURA_DCM_521_V1_COMMITMENT_ROOT_DOMAIN_SEPARATOR: [u8; 31] = [0x41, 0x55, 0x52, 0x41, 0x5f, 0x43, 0x41, 0x54, 0x5f, 0x35, 0x32, 0x31, 0x5f, 0x56, 0x31, 0x5f, 0x43, 0x4f, 0x4d, 0x4d, 0x49, 0x54, 0x4d, 0x45, 0x4e, 0x54, 0x5f, 0x52, 0x4f, 0x4f, 0x54];

pub const DCM_STATE_521_CANONICAL_BYTE_LEN_V1: usize = 132;

pub const DCM_CLAIM_521_CANONICAL_BYTE_LEN_V1: usize = 370;

/// A state of the `u64` cat map.
#[derive(Clone, Copy, Debug, PartialEq, Eq, Structural)]
pub struct DcmStateV1 {
    pub x: u64,
    pub y: u64,
}

/// The pair a `u64` state stands for.
pub open spec fn dcm_pair(state: DcmStateV1) -> Vec2 {
    (state.x as int, state.y as int)
}

impl DcmStateV1 {
    /// `x` then `y`, each in eight little-endian bytes.
    pub fn canonical_bytes(&self) -> (bytes: [u8; 16])
        ensures
            bytes@ == u64_le(self.x) + u64_le(self.y),
    {
        let x_bytes = u64_to_le_bytes(self.x);
        let y_bytes = u64_to_le_bytes(self.y);
        let mut buffer: Vec<u8> = Vec::new();
        append_bytes(&mut buffer, &x_bytes);
        append_bytes(&mut buffer, &y_bytes);
        let mut bytes = [0u8; 16];
        crate::encoding_v1::copy_range_into(&mut bytes, buffer.as_slice(), 0);
        proof {
            crate::encoding_v1::lemma_le_bytes_len(self.x as nat, 8);
            crate::encoding_v1::lemma_le_bytes_len(self.y as nat, 8);
            assert(buffer@.subrange(0, 16) =~= buffer@);
        }
        bytes
    }
}

/// `(lhs + rhs) mod modulus`.
fn mod_add_u64(lhs: u64, rhs: u64, modulus: u64) -> (sum: u64)
    requires
        modulus > 0,
    ensures
        sum == (lhs + rhs) % (modulus as int),
{
    ((lhs as u128 + rhs as u128) % modulus as u128) as u64
}

/// `(lhs + modulus - rhs) mod modulus`, defined when `rhs <= lhs + modulus`.
fn mod_sub_u64(lhs: u64, rhs: u64, modulus: u64) -> (difference: u64)
    requires
        modulus > 0,
        rhs <= lhs + modulus,
    ensures
        difference == (lhs - rhs) % (modulus as int),
{
    proof {
        vstd::arithmetic::div_mod::lemma_mod_add_multiples_vanish(lhs - rhs, modulus as int);
    }
    ((lhs as u128 + modulus as u128 - rhs as u128) % modulus as u128) as u64
}

/// `(lhs * rhs) mod modulus`.
fn mod_mul_u64(lhs: u64, rhs: u64, modulus: u64) -> (product: u64)
    requires
        modulus > 0,
    ensures
        product == (lhs * rhs) % (modulus as int),
{
    proof {
        assert(lhs * rhs <= 0xffff_ffff_ffff_ffff * 0xffff_ffff_ffff_ffff) by (nonlinear_arith)
            requires lhs <= 0xffff_ffff_ffff_ffff, rhs <= 0xffff_ffff_ffff_ffff;
    }
    ((lhs as u128 * rhs as u128) % modulus as u128) as u64
}

/// One step: `(x + y, x + 2y) mod modulus`.
pub fn advance_dcm_state_v1(state: DcmStateV1, modulus: u64) -> (next: DcmStateV1)
    requires
        modulus > 0,
    ensures
        dcm_pair(next) == cat_step(dcm_pair(state), modulus as int),
{
    let ghost m = modulus as int;
    let doubled = mod_add_u64(state.y, state.y, modulus);
    proof {
        vstd::arithmetic::div_mod::lemma_add_mod_noop_right(state.x as int, state.y + state.y, m);
        crate::cat_matrix_v1::lemma_cat_apply(dcm_pair(state));
    }
    let next = DcmStateV1 {
        x: mod_add_u64(state.x, state.y, modulus),
        y: mod_add_u64(state.x, doubled, modulus),
    };
    proof {
        assert(doubled == (state.y + state.y) % m);
        assert(next.y == (state.x + doubled) % m);
        assert(next.y == (state.x + 2 * state.y) % m);
        assert(next.x == (state.x + state.y) % m);
    }
    next
}

/// One step back: `(2x - y, y - x) mod modulus`, for states where the
/// intermediate differences stay non-negative (in particular reduced states).
pub fn rewind_dcm_state_v1(state: DcmStateV1, modulus: u64) -> (previous: DcmStateV1)
    requires
        modulus > 0,
        state.y <= (state.x + state.x) % (modulus as int) + modulus,
        state.x <= state.y + modulus,
    ensures
        dcm_pair(previous) == cat_back_step(dcm_pair(state), modulus as int),
{
    let ghost m = modulus as int;
    let doubled = mod_add_u64(state.x, state.x, modulus);
    let previous = DcmStateV1 {
        x: mod_sub_u64(doubled, state.y, modulus),
        y: mod_sub_u64(state.y, state.x, modulus),
    };
    proof {
        crate::cat_matrix_v1::lemma_cat_apply(dcm_pair(state));
        vstd::arithmetic::div_mod::lemma_sub_mod_noop_right(doubled as int, state.y as int, m);
        lemma_sub_mod_noop(state.x + state.x, state.y as int, m);
        assert(previous.x == (2 * state.x - state.y) % m);
    }
    previous
}

/// A `u64` matrix `[[a11, a12], [a21, a22]]`.
#[derive(Clone, Copy)]
struct DcmMatrixV1 {
    a11: u64,
    a12: u64,
    a21: u64,
    a22: u64,
}

/// The integer matrix a `u64` matrix stands for.
spec fn matrix_view_u64(matrix: DcmMatrixV1) -> Mat2 {
    (matrix.a11 as int, matrix.a12 as int, matrix.a21 as int, matrix.a22 as int)
}

/// `((p q mod m) + (r s mod m)) mod m`, which is `(p q + r s) mod m`.
fn mod_dot_u64(p: u64, q: u64, r: u64, s: u64, modulus: u64) -> (dot: u64)
    requires
        modulus > 0,
    ensures
        dot == (p * q + r * s) % (modulus as int),
{
    let left = mod_mul_u64(p, q, modulus);
    let right = mod_mul_u64(r, s, modulus);
    proof {
        lemma_add_mod_noop(p * q, r * s, modulus as int);
    }
    mod_add_u64(left, right, modulus)
}

impl DcmMatrixV1 {
    fn identity() -> (matrix: Self)
        ensures
            matrix_view_u64(matrix) == mat_identity(),
    {
        Self { a11: 1, a12: 0, a21: 0, a22: 1 }
    }

    /// The product modulo `modulus`.
    fn multiply(self, rhs: Self, modulus: u64) -> (product: Self)
        requires
            modulus > 0,
        ensures
            matrix_view_u64(product) == mat_mod(
                mat_mul(matrix_view_u64(self), matrix_view_u64(rhs)),
                modulus as int,
            ),
    {
        Self {
            a11: mod_dot_u64(self.a11, rhs.a11, self.a12, rhs.a21, modulus),
            a12: mod_dot_u64(self.a11, rhs.a12, self.a12, rhs.a22, modulus),
            a21: mod_dot_u64(self.a21, rhs.a11, self.a22, rhs.a21, modulus),
            a22: mod_dot_u64(self.a21, rhs.a12, self.a22, rhs.a22, modulus),
        }
    }

    /// The image of a state modulo `modulus`.
    fn apply(self, state: DcmStateV1, modulus: u64) -> (image: DcmStateV1)
        requires
            modulus > 0,
        ensures
            dcm_pair(image) == vec_mod(
                mat_apply(matrix_view_u64(self), dcm_pair(state)),
                modulus as int,
            ),
    {
        DcmStateV1 {
            x: mod_dot_u64(self.a11, state.x, self.a12, state.y, modulus),
            y: mod_dot_u64(self.a21, state.x, self.a22, state.y, modulus),
        }
    }
}

fn cat_matrix_u64(modulus: u64) -> (matrix: DcmMatrixV1)
    ensures
        matrix_view_u64(matrix) == cat_matrix(),
{
    DcmMatrixV1 { a11: 1, a12: 1, a21: 1, a22: 2 }
}

fn cat_inverse_matrix_u64(modulus: u64) -> (matrix: DcmMatrixV1)
    requires
        modulus > 0,
    ensures
        mat_mod(matrix_view_u64(matrix), modulus as int) == mat_mod(
            cat_inverse_matrix(),
            modulus as int,
        ),
{
    let minus_one = mod_sub_u64(0, 1, modulus);
    proof {
        lemma_mod_twice(2, modulus as int);
        lemma_mod_twice(-1, modulus as int);
    }
    DcmMatrixV1 { a11: 2 % modulus, a12: minus_one, a21: minus_one, a22: 1 }
}

/// `base^exponent` modulo `modulus`, by square-and-multiply.
fn matrix_pow_u64(base: DcmMatrixV1, exponent: u64, modulus: u64) -> (power: DcmMatrixV1)
    requires
        modulus > 0,
    ensures
        mat_mod(matrix_view_u64(power), modulus as int) == mat_mod(
            mat_pow(matrix_view_u64(base), exponent as nat),
            modulus as int,
        ),
{
    let ghost m = modulus as int;
    let ghost base_matrix = matrix_view_u64(base);
    let mut result = DcmMatrixV1::identity();
    let mut square = base;
    let mut remaining = exponent;
    proof {
        lemma_mat_mul_identity(mat_pow(base_matrix, exponent as nat));
    }
    while remaining > 0
        invariant
            m == modulus as int,
            m > 0,
            mat_mod(
                mat_mul(matrix_view_u64(result), mat_pow(matrix_view_u64(square), remaining as nat)),
                m,
            ) == mat_mod(mat_pow(base_matrix, exponent as nat), m),
        decreases remaining,
    {
        proof {
            lemma_square_multiply_step(
                matrix_view_u64(result),
                matrix_view_u64(square),
                remaining as nat,
                m,
            );
        }
        let odd = remaining & 1 == 1;
        proof {
            assert((remaining & 1 == 1) == (remaining % 2 == 1)) by (bit_vector);
            assert(remaining >> 1 == remaining / 2) by (bit_vector);
        }
        if odd {
            result = result.multiply(square, modulus);
        }
        square = square.multiply(square, modulus);
        remaining = remaining >> 1;
    }
    proof {
        lemma_mat_mul_identity(matrix_view_u64(result));
    }
    result
}

/// `step_count` steps at once.
pub fn fast_forward_dcm_state_v1(state: DcmStateV1, step_count: u64, modulus: u64) -> (result: DcmStateV1)
    requires
        modulus > 0,
    ensures
        dcm_pair(result) == vec_mod(
            mat_apply(mat_pow(cat_matrix(), step_count as nat), dcm_pair(state)),
            modulus as int,
        ),
        vec_reduced(dcm_pair(state), modulus as int) ==> dcm_pair(result) == cat_iterate(
            dcm_pair(state),
            step_count as nat,
            modulus as int,
        ),
{
    let power = matrix_pow_u64(cat_matrix_u64(modulus), step_count, modulus);
    let result = power.apply(state, modulus);
    proof {
        lemma_mat_apply_mod_matrix(
            matrix_view_u64(power),
            mat_pow(cat_matrix(), step_count as nat),
            dcm_pair(state),
            modulus as int,
        );
        if vec_reduced(dcm_pair(state), modulus as int) {
            lemma_cat_iterate_is_power(dcm_pair(state), step_count as nat, modulus as int);
        }
    }
    result
}

/// `step_count` steps back at once.
pub fn fast_rewind_dcm_state_v1(state: DcmStateV1, step_count: u64, modulus: u64) -> (result: DcmStateV1)
    requires
        modulus > 0,
    ensures
        dcm_pair(result) == vec_mod(
            mat_apply(mat_pow(cat_inverse_matrix(), step_count as nat), dcm_pair(state)),
            modulus as int,
        ),
        vec_reduced(dcm_pair(state), modulus as int) ==> dcm_pair(result) == cat_back_iterate(
            dcm_pair(state),
            step_count as nat,
            modulus as int,
        ),
{
    let inverse = cat_inverse_matrix_u64(modulus);
    let power = matrix_pow_u64(inverse, step_count, modulus);
    let result = power.apply(state, modulus);
    proof {
        let m = modulus as int;
        lemma_mat_pow_congruent(matrix_view_u64(inverse), cat_inverse_matrix(), step_count as nat, m);
        lemma_mat_apply_mod_matrix(
            matrix_view_u64(power),
            mat_pow(cat_inverse_matrix(), step_count as nat),
            dcm_pair(state),
            m,
        );
        if vec_reduced(dcm_pair(state), m) {
            lemma_cat_back_iterate_is_power(dcm_pair(state), step_count as nat, m);
        }
    }
    result
}

/// The next coordinate of the recurrence: `(3 current - previous) mod modulus`.
pub fn coordinate_recurrence_next_v1(previous: u64, current: u64, modulus: u64) -> (next: u64)
    requires
        modulus > 0,
        previous <= (3 * current) % (modulus as int) + modulus,
    ensures
        next == (3 * current - previous) % (modulus as int),
{
    let tripled = mod_mul_u64(3, current, modulus);
    proof {
        vstd::arithmetic::div_mod::lemma_sub_mod_noop_right(tripled as int, previous as int, modulus as int);
        lemma_sub_mod_noop(3 * current, previous as int, modulus as int);
    }
    mod_sub_u64(tripled, previous, modulus)
}

/// The configuration of a `u64` execution.
#[derive(Clone, Copy, Debug, PartialEq, Eq, Structural)]
pub struct DcmConfigV1 {
    pub modulus: u64,
    pub iteration_count: u64,
}

/// The starting pair of a `u64` execution.
#[derive(Clone, Copy, Debug, PartialEq, Eq, Structural)]
pub struct DcmInputV1 {
    pub x0: u64,
    pub y0: u64,
}

/// A `u64` execution: every state from the initial one on, and its commitment.
#[derive(Clone, Debug, PartialEq, Eq)]
pub struct DcmExecutionV1 {
    pub states: Vec<DcmStateV1>,
    pub final_state: DcmStateV1,
    pub trace_length: u64,
    pub trace_commitment: [u8; 32],
}

/// Why a `u64` execution is refused.
#[derive(Clone, Copy, Debug, PartialEq, Eq)]
pub enum DcmExecutionErrorV1 {
    InvalidModulus { actual: u64 },
    IterationCountTooLarge { actual: u64 },
    InputOutOfRange { field: &'static str, value: u64, modulus: u64 },
}

/// The error configuration validation reports, if any.
pub open spec fn dcm_config_error(config: DcmConfigV1) -> Option<DcmExecutionErrorV1> {
    if config.modulus < 2 {
        Some(DcmExecutionErrorV1::InvalidModulus { actual: config.modulus })
    } else if (config.iteration_count as int) >= usize::MAX {
        Some(DcmExecutionErrorV1::IterationCountTooLarge { actual: config.iteration_count })
    } else {
        None
    }
}

/// The error input validation reports, if any.
pub open spec fn dcm_input_error(input: DcmInputV1, config: DcmConfigV1) -> Option<DcmExecutionErrorV1> {
    if dcm_config_error(config) is Some {
        dcm_config_error(config)
    } else if input.x0 >= config.modulus {
        Some(
            DcmExecutionErrorV1::InputOutOfRange {
                field: "x0",
                value: input.x0,
                modulus: config.modulus,
            },
        )
    } else if input.y0 >= config.modulus {
        Some(
            DcmExecutionErrorV1::InputOutOfRange {
                field: "y0",
                value: input.y0,
                modulus: config.modulus,
            },
        )
    } else {
        None
    }
}

impl DcmConfigV1 {
    /// The modulus is at least two and the trace length fits in `usize`.
    pub fn validate(&self) -> (result: Result<(), DcmExecutionErrorV1>)
        ensures
            dcm_config_error(*self) is None ==> result is Ok,
            dcm_config_error(*self) is Some ==> result == Err::<(), DcmExecutionErrorV1>(
                dcm_config_error(*self)->0,
            ),
    {
        if self.modulus < 2 {
            return Err(DcmExecutionErrorV1::InvalidModulus { actual: self.modulus });
        }
        if self.iteration_count as u128 >= usize::MAX as u128 {
            return Err(DcmExecutionErrorV1::IterationCountTooLarge { actual: self.iteration_count });
        }
        Ok(())
    }
}

impl DcmInputV1 {
    /// The initial state.
    pub fn initial_state(&self) -> (state: DcmStateV1)
        ensures
            state == (DcmStateV1 { x: self.x0, y: self.y0 }),
    {
        DcmStateV1 { x: self.x0, y: self.y0 }
    }

    /// The configuration is valid and both coordinates are below the modulus.
    pub fn validate(&self, config: &DcmConfigV1) -> (result: Result<(), DcmExecutionErrorV1>)
        ensures
            dcm_input_error(*self, *config) is None ==> result is Ok,
            dcm_input_error(*self, *config) is Some ==> result == Err::<(), DcmExecutionErrorV1>(
                dcm_input_error(*self, *config)->0,
            ),
    {
        match config.validate() {
            Ok(()) => {},
            Err(error) => {
                return Err(error);
            },
        }
        if self.x0 >= config.modulus {
            return Err(
                DcmExecutionErrorV1::InputOutOfRange {
                    field: "x0",
                    value: self.x0,
                    modulus: config.modulus,
                },
            );
        }
        if self.y0 >= config.modulus {
            return Err(
                DcmExecutionErrorV1::InputOutOfRange {
                    field: "y0",
                    value: self.y0,
                    modulus: config.modulus,
                },
            );
        }
        Ok(())
    }
}

/// The leaf of state `index`.
pub open spec fn dcm_leaf_spec(index: u64, state: DcmStateV1) -> Seq<u8> {
    sha256_spec(
        AURA_DCM_V1_STATE_LEAF_DOMAIN_SEPARATOR@ + u64_le(index) + u64_le(state.x) + u64_le(state.y),
    )
}

/// The leaves of the first `states.len()` states, one after another.
pub open spec fn dcm_leaves_spec(states: Seq<DcmStateV1>) -> Seq<u8>
    decreases states.len(),
{
    if states.len() == 0 {
        Seq::empty()
    } else {
        dcm_leaves_spec(states.drop_last()) + dcm_leaf_spec(
            (states.len() - 1) as u64,
            states.last(),
        )
    }
}

/// The commitment to a `u64` trace.
pub open spec fn dcm_trace_commitment_spec(config: DcmConfigV1, input: DcmInputV1, states: Seq<DcmStateV1>) -> Seq<u8> {
    sha256_spec(
        AURA_DCM_V1_TRACE_COMMITMENT_DOMAIN_SEPARATOR@ + u64_le(config.modulus) + u64_le(
            config.iteration_count,
        ) + u64_le(input.x0) + u64_le(input.y0) + u64_le(states.len() as u64) + dcm_leaves_spec(
            states,
        ),
    )
}

fn state_leaf_hash(index: u64, state: DcmStateV1) -> (leaf: [u8; 32])
    ensures
        leaf@ == dcm_leaf_spec(index, state),
{
    let domain = AURA_DCM_V1_STATE_LEAF_DOMAIN_SEPARATOR;
    let mut preimage: Vec<u8> = Vec::new();
    append_bytes(&mut preimage, &domain);
    let index_bytes = u64_to_le_bytes(index);
    append_bytes(&mut preimage, &index_bytes);
    let state_bytes = state.canonical_bytes();
    append_bytes(&mut preimage, &state_bytes);
    proof {
        assert(preimage@ =~= AURA_DCM_V1_STATE_LEAF_DOMAIN_SEPARATOR@ + u64_le(index) + u64_le(state.x)
            + u64_le(state.y));
    }
    sha256_bytes(preimage.as_slice())
}

/// The SHA-256 commitment to a `u64` trace: the configuration, the input,
/// the length and one leaf per state.
pub fn derive_trace_commitment_v1(config: &DcmConfigV1, input: &DcmInputV1, states: &[DcmStateV1]) -> (commitment: [u8; 32])
    ensures
        commitment@ == dcm_trace_commitment_spec(*config, *input, states@),
{
    let domain = AURA_DCM_V1_TRACE_COMMITMENT_DOMAIN_SEPARATOR;
    let mut preimage: Vec<u8> = Vec::new();
    append_bytes(&mut preimage, &domain);
    let modulus = u64_to_le_bytes(config.modulus);
    append_bytes(&mut preimage, &modulus);
    let count = u64_to_le_bytes(config.iteration_count);
    append_bytes(&mut preimage, &count);
    let x0 = u64_to_le_bytes(input.x0);
    append_bytes(&mut preimage, &x0);
    let y0 = u64_to_le_bytes(input.y0);
    append_bytes(&mut preimage, &y0);
    let length = u64_to_le_bytes(states.len() as u64);
    append_bytes(&mut preimage, &length);
    let ghost head = preimage@;
    let mut index: usize = 0;
    while index < states.len()
        invariant
            0 <= index <= states@.len(),
            preimage@ == head + dcm_leaves_spec(states@.take(index as int)),
        decreases states@.len() - index,
    {
        let leaf = state_leaf_hash(index as u64, states[index]);
        append_bytes(&mut preimage, &leaf);
        proof {
            assert(states@.take(index + 1).drop_last() =~= states@.take(index as int));
        }
        index += 1;
    }
    proof {
        assert(states@.take(states@.len() as int) =~= states@);
        assert(preimage@ =~= AURA_DCM_V1_TRACE_COMMITMENT_DOMAIN_SEPARATOR@ + u64_le(config.modulus)
            + u64_le(config.iteration_count) + u64_le(input.x0) + u64_le(input.y0) + u64_le(
            states@.len() as u64,
        ) + dcm_leaves_spec(states@));
    }
    sha256_bytes(preimage.as_slice())
}

/// The pairs of a sequence of `u64` states.
pub open spec fn dcm_trace_matches(start: Vec2, states: Seq<DcmStateV1>, modulus: int) -> bool {
    forall|i: int| 0 <= i < states.len() ==> #[trigger] dcm_pair(states[i]) == cat_iterate(start, i as nat, modulus)
}

impl DcmExecutionV1 {
    /// Validates the input, then runs the map `iteration_count` times.
    pub fn run(config: &DcmConfigV1, input: &DcmInputV1) -> (result: Result<Self, DcmExecutionErrorV1>)
        ensures
            dcm_input_error(*input, *config) is Some ==> result == Err::<Self, DcmExecutionErrorV1>(
                dcm_input_error(*input, *config)->0,
            ),
            dcm_input_error(*input, *config) is None ==> (result matches Ok(execution) && {
                &&& execution.states@.len() == config.iteration_count + 1
                &&& dcm_trace_matches(
                    (input.x0 as int, input.y0 as int),
                    execution.states@,
                    config.modulus as int,
                )
                &&& execution.final_state == execution.states@[config.iteration_count as int]
                &&& execution.trace_length == config.iteration_count + 1
                &&& execution.trace_commitment@ == dcm_trace_commitment_spec(
                    *config,
                    *input,
                    execution.states@,
                )
            }),
    {
        match input.validate(config) {
            Ok(()) => {},
            Err(error) => {
                return Err(error);
            },
        }
        let ghost start = (input.x0 as int, input.y0 as int);
        let ghost m = config.modulus as int;
        let mut states: Vec<DcmStateV1> = Vec::new();
        let mut state = input.initial_state();
        states.push(state);
        let mut step: u64 = 0;
        while step < config.iteration_count
            invariant
                step <= config.iteration_count,
                (config.iteration_count as int) < usize::MAX,
                m == config.modulus as int,
                m >= 2,
                states@.len() == step + 1,
                dcm_pair(state) == cat_iterate(start, step as nat, m),
                state == states@[step as int],
                dcm_trace_matches(start, states@, m),
            decreases config.iteration_count - step,
        {
            state = advance_dcm_state_v1(state, config.modulus);
            states.push(state);
            step += 1;
        }
        let trace_commitment = derive_trace_commitment_v1(config, input, states.as_slice());
        let trace_length = states.len() as u64;
        Ok(DcmExecutionV1 { final_state: state, trace_length, states, trace_commitment })
    }
}

/// The step and the inverse step undo each other on reduced `u64` states,
/// so rewinding recovers the previous state.
pub proof fn lemma_dcm_rewind_advance(state: DcmStateV1, modulus: u64)
    requires
        state.x < modulus,
        state.y < modulus,
    ensures
        cat_back_step(cat_step(dcm_pair(state), modulus as int), modulus as int) == dcm_pair(state),
        cat_step(cat_back_step(dcm_pair(state), modulus as int), modulus as int) == dcm_pair(state),
{
    crate::cat_matrix_v1::lemma_cat_step_inverse(dcm_pair(state), modulus as int);
}

/// `(a mod m + k (b mod m)) mod m = (a + k b) mod m`.
proof fn lemma_lin_mod(a: int, b: int, k: int, m: int)
    requires
        m > 0,
    ensures
        ((a % m) + k * (b % m)) % m == (a + k * b) % m,
{
    vstd::arithmetic::div_mod::lemma_mul_mod_noop_right(k, b, m);
    lemma_add_mod_noop(a % m, k * (b % m), m);
    lemma_add_mod_noop(a, k * b, m);
    lemma_mod_twice(a, m);
}

/// `(k (b mod m) - c) mod m = (k b - c) mod m`.
proof fn lemma_scale_sub_mod(b: int, c: int, k: int, m: int)
    requires
        m > 0,
    ensures
        (k * (b % m) - c) % m == (k * b - c) % m,
{
    vstd::arithmetic::div_mod::lemma_mul_mod_noop_right(k, b, m);
    lemma_sub_mod_noop(k * (b % m), c, m);
    lemma_sub_mod_noop(k * b, c, m);
}

/// Along a trace each coordinate follows `c_{n+2} = 3 c_{n+1} - c_n` modulo
/// the modulus.
pub proof fn lemma_coordinate_recurrence(v: Vec2, m: int)
    requires
        m > 0,
    ensures
        cat_step(cat_step(v, m), m).0 == (3 * cat_step(v, m).0 - v.0) % m,
        cat_step(cat_step(v, m), m).1 == (3 * cat_step(v, m).1 - v.1) % m,
{
    let w = cat_step(v, m);
    crate::cat_matrix_v1::lemma_cat_apply(v);
    crate::cat_matrix_v1::lemma_cat_apply(w);
    let (x, y) = v;
    lemma_lin_mod(x + y, x + 2 * y, 1, m);
    lemma_lin_mod(x + y, x + 2 * y, 2, m);
    lemma_scale_sub_mod(x + y, x, 3, m);
    lemma_scale_sub_mod(x + 2 * y, y, 3, m);
    assert(3 * (x + y) - x == (x + y) + 1 * (x + 2 * y));
    assert(3 * (x + 2 * y) - y == (x + y) + 2 * (x + 2 * y));
    assert(w.0 + w.1 == (x + y) % m + 1 * ((x + 2 * y) % m));
}

/// A state of the cat map over the field.
#[derive(Clone, Copy, Debug, PartialEq, Eq)]
pub struct DcmState521V1 {
    pub x: FieldElement521V1,
    pub y: FieldElement521V1,
}

/// The pair of values a field state stands for.
pub open spec fn dcm521_pair(state: DcmState521V1) -> Vec2 {
    (state.x.value() as int, state.y.value() as int)
}

/// Two field states with the same encodings.
pub open spec fn dcm521_same(s: DcmState521V1, t: DcmState521V1) -> bool {
    s.x@ == t.x@ && s.y@ == t.y@
}

/// The encoding of a field state: `x` then `y`.
pub open spec fn dcm521_state_bytes(state: DcmState521V1) -> Seq<u8> {
    state.x@ + state.y@
}

/// The modulus `2^521 - 1` as an integer.
pub open spec fn p521_int() -> int {
    p521() as int
}

impl DcmState521V1 {
    /// The state with the given small coordinates.
    pub fn from_u64(x: u64, y: u64) -> (state: Self)
        ensures
            dcm521_pair(state) == (x as int, y as int),
    {
        Self { x: FieldElement521V1::from_u64(x), y: FieldElement521V1::from_u64(y) }
    }

    /// `x` then `y`, each in its 66-byte encoding.
    pub fn canonical_bytes(&self) -> (bytes: [u8; 132])
        ensures
            bytes@ == dcm521_state_bytes(*self),
    {
        let x_bytes = self.x.to_bytes();
        let y_bytes = self.y.to_bytes();
        let mut buffer: Vec<u8> = Vec::new();
        append_bytes(&mut buffer, &x_bytes);
        append_bytes(&mut buffer, &y_bytes);
        proof {
            use_type_invariant(&self.x);
            use_type_invariant(&self.y);
        }
        let mut bytes = [0u8; 132];
        crate::encoding_v1::copy_range_into(&mut bytes, buffer.as_slice(), 0);
        proof {
            assert(buffer@.subrange(0, 132) =~= buffer@);
        }
        bytes
    }

    /// Both coordinates have the same encodings.
    pub fn same_as(&self, other: &Self) -> (same: bool)
        ensures
            same == dcm521_same(*self, *other),
    {
        self.x.same_as(&other.x) && self.y.same_as(&other.y)
    }
}

/// Canonical states with the same values have the same encodings.
proof fn lemma_dcm521_same_values(s: DcmState521V1, t: DcmState521V1)
    requires
        s.x.is_canonical(),
        s.y.is_canonical(),
        t.x.is_canonical(),
        t.y.is_canonical(),
    ensures
        dcm521_same(s, t) <==> dcm521_pair(s) == dcm521_pair(t),
{
    lemma_fe_encoding(s.x);
    lemma_fe_encoding(s.y);
    lemma_fe_encoding(t.x);
    lemma_fe_encoding(t.y);
}

/// A 2x2 matrix over the field.
#[derive(Clone, Copy, Debug, PartialEq, Eq)]
pub struct DcmMatrix521V1 {
    pub a11: FieldElement521V1,
    pub a12: FieldElement521V1,
    pub a21: FieldElement521V1,
    pub a22: FieldElement521V1,
}

/// The matrix of values.
pub open spec fn matrix521_view(matrix: DcmMatrix521V1) -> Mat2 {
    (
        matrix.a11.value() as int,
        matrix.a12.value() as int,
        matrix.a21.value() as int,
        matrix.a22.value() as int,
    )
}

/// `(p q + r s) mod (2^521 - 1)`.
fn field_dot(p: &FieldElement521V1, q: &FieldElement521V1, r: &FieldElement521V1, s: &FieldElement521V1) -> (dot: FieldElement521V1)
    ensures
        dot.value() == (p.value() * q.value() + r.value() * s.value()) % p521(),
{
    proof {
        crate::limbs_521_v1::lemma_limb_weight_values();
        lemma_add_mod_noop(
            (p.value() * q.value()) as int,
            (r.value() * s.value()) as int,
            p521() as int,
        );
    }
    p.mul_mod(q).add_mod(&r.mul_mod(s))
}

impl DcmMatrix521V1 {
    pub fn identity() -> (matrix: Self)
        ensures
            matrix521_view(matrix) == mat_identity(),
    {
        Self {
            a11: FieldElement521V1::one(),
            a12: FieldElement521V1::zero(),
            a21: FieldElement521V1::zero(),
            a22: FieldElement521V1::one(),
        }
    }

    /// `[[1, 1], [1, 2]]`.
    pub fn arnold_cat() -> (matrix: Self)
        ensures
            matrix521_view(matrix) == cat_matrix(),
    {
        Self {
            a11: FieldElement521V1::one(),
            a12: FieldElement521V1::one(),
            a21: FieldElement521V1::one(),
            a22: FieldElement521V1::from_u64(2),
        }
    }

    /// `[[2, -1], [-1, 1]]`, with `-1` as `2^521 - 2`.
    pub fn arnold_cat_inverse() -> (matrix: Self)
        ensures
            matrix521_view(matrix) == (2int, p521_int() - 1, p521_int() - 1, 1int),
            mat_mod(matrix521_view(matrix), p521_int()) == mat_mod(cat_inverse_matrix(), p521_int()),
    {
        let neg_one = FieldElement521V1::zero().sub_mod(&FieldElement521V1::one());
        let matrix = Self {
            a11: FieldElement521V1::from_u64(2),
            a12: neg_one,
            a21: neg_one,
            a22: FieldElement521V1::one(),
        };
        proof {
            let p = p521_int();
            crate::limbs_521_v1::lemma_limb_weight_values();
            vstd::arithmetic::div_mod::lemma_mod_add_multiples_vanish(-1, p);
            lemma_small_mod((p - 1) as nat, p as nat);
            lemma_small_mod(2, p as nat);
            lemma_small_mod(1, p as nat);
            lemma_mod_twice(-1, p);
        }
        matrix
    }

    /// The product.
    pub fn multiply(&self, rhs: &Self) -> (product: Self)
        ensures
            matrix521_view(product) == mat_mod(
                mat_mul(matrix521_view(*self), matrix521_view(*rhs)),
                p521_int(),
            ),
    {
        Self {
            a11: field_dot(&self.a11, &rhs.a11, &self.a12, &rhs.a21),
            a12: field_dot(&self.a11, &rhs.a12, &self.a12, &rhs.a22),
            a21: field_dot(&self.a21, &rhs.a11, &self.a22, &rhs.a21),
            a22: field_dot(&self.a21, &rhs.a12, &self.a22, &rhs.a22),
        }
    }

    /// The image of a state.
    pub fn apply(&self, state: &DcmState521V1) -> (image: DcmState521V1)
        ensures
            dcm521_pair(image) == vec_mod(
                mat_apply(matrix521_view(*self), dcm521_pair(*state)),
                p521_int(),
            ),
    {
        DcmState521V1 {
            x: field_dot(&self.a11, &state.x, &self.a12, &state.y),
            y: field_dot(&self.a21, &state.x, &self.a22, &state.y),
        }
    }

    /// `self^exponent`, by square-and-multiply.
    pub fn pow(&self, exponent: u64) -> (power: Self)
        ensures
            mat_mod(matrix521_view(power), p521_int()) == mat_mod(
                mat_pow(matrix521_view(*self), exponent as nat),
                p521_int(),
            ),
    {
        let ghost m = p521_int();
        let ghost base_matrix = matrix521_view(*self);
        proof {
            crate::limbs_521_v1::lemma_limb_weight_values();
            lemma_mat_mul_identity(mat_pow(base_matrix, exponent as nat));
        }
        let mut result = Self::identity();
        let mut square = *self;
        let mut remaining = exponent;
        while remaining > 0
            invariant
                m == p521_int(),
                m > 0,
                mat_mod(
                    mat_mul(matrix521_view(result), mat_pow(matrix521_view(square), remaining as nat)),
                    m,
                ) == mat_mod(mat_pow(base_matrix, exponent as nat), m),
            decreases remaining,
        {
            proof {
                lemma_square_multiply_step(
                    matrix521_view(result),
                    matrix521_view(square),
                    remaining as nat,
                    m,
                );
                assert((remaining & 1 == 1) == (remaining % 2 == 1)) by (bit_vector);
                assert(remaining >> 1 == remaining / 2) by (bit_vector);
            }
            if remaining & 1 == 1 {
                result = result.multiply(&square);
            }
            square = square.multiply(&square);
            remaining = remaining >> 1;
        }
        proof {
            lemma_mat_mul_identity(matrix521_view(result));
        }
        result
    }

    /// `a11 a22 - a12 a21`.
    pub fn determinant(&self) -> (determinant: FieldElement521V1)
        ensures
            determinant.value() == (self.a11.value() * self.a22.value() - self.a12.value()
                * self.a21.value()) % p521_int(),
    {
        proof {
            crate::limbs_521_v1::lemma_limb_weight_values();
            lemma_sub_mod_noop(
                (self.a11.value() * self.a22.value()) as int,
                (self.a12.value() * self.a21.value()) as int,
                p521_int(),
            );
            lemma_mod_twice((self.a11.value() * self.a22.value()) as int, p521_int());
            lemma_mod_twice((self.a12.value() * self.a21.value()) as int, p521_int());
        }
        self.a11.mul_mod(&self.a22).sub_mod(&self.a12.mul_mod(&self.a21))
    }
}

/// The cat map over the field.
pub fn dcm_cat_map_matrix_521_v1() -> (matrix: DcmMatrix521V1)
    ensures
        matrix521_view(matrix) == cat_matrix(),
{
    DcmMatrix521V1::arnold_cat()
}

/// Its inverse over the field.
pub fn dcm_cat_map_inverse_matrix_521_v1() -> (matrix: DcmMatrix521V1)
    ensures
        mat_mod(matrix521_view(matrix), p521_int()) == mat_mod(cat_inverse_matrix(), p521_int()),
{
    DcmMatrix521V1::arnold_cat_inverse()
}

/// One step over the field.
pub fn advance_dcm_state_521_v1(state: DcmState521V1) -> (next: DcmState521V1)
    ensures
        dcm521_pair(next) == cat_step(dcm521_pair(state), p521_int()),
        dcm521_canonical(next),
{
    let next = dcm_cat_map_matrix_521_v1().apply(&state);
    proof {
        use_type_invariant(&next.x);
        use_type_invariant(&next.y);
    }
    next
}

/// Both coordinates of a field state are in canonical form.
pub open spec fn dcm521_canonical(state: DcmState521V1) -> bool {
    state.x.is_canonical() && state.y.is_canonical()
}

/// A field state in canonical form is determined by its coordinates: two
/// such states with the same coordinates are the same state. So each state a
/// run records after the first equals what `advance_dcm_state_521_v1`
/// returns for the state before it.
pub proof fn lemma_dcm521_state_determined_by_pair(s: DcmState521V1, t: DcmState521V1)
    requires
        dcm521_canonical(s),
        dcm521_canonical(t),
        dcm521_pair(s) == dcm521_pair(t),
    ensures
        s == t,
{
    lemma_fe_encoding(s.x);
    lemma_fe_encoding(s.y);
    lemma_fe_encoding(t.x);
    lemma_fe_encoding(t.y);
    crate::field_521_v1::lemma_fe_view_injective(s.x, t.x);
    crate::field_521_v1::lemma_fe_view_injective(s.y, t.y);
}

/// One step back over the field.
pub fn rewind_dcm_state_521_v1(state: DcmState521V1) -> (previous: DcmState521V1)
    ensures
        dcm521_pair(previous) == cat_back_step(dcm521_pair(state), p521_int()),
{
    let inverse = dcm_cat_map_inverse_matrix_521_v1();
    let previous = inverse.apply(&state);
    proof {
        crate::limbs_521_v1::lemma_limb_weight_values();
        lemma_mat_apply_mod_matrix(
            matrix521_view(inverse),
            cat_inverse_matrix(),
            dcm521_pair(state),
            p521_int(),
        );
    }
    previous
}

/// `step_count` steps over the field at once.
pub fn fast_forward_dcm_state_521_v1(state: DcmState521V1, step_count: u64) -> (result: DcmState521V1)
    ensures
        dcm521_pair(result) == cat_iterate(dcm521_pair(state), step_count as nat, p521_int()),
{
    let power = dcm_cat_map_matrix_521_v1().pow(step_count);
    let result = power.apply(&state);
    proof {
        let m = p521_int();
        crate::limbs_521_v1::lemma_limb_weight_values();
        use_type_invariant(&state.x);
        use_type_invariant(&state.y);
        lemma_mat_apply_mod_matrix(
            matrix521_view(power),
            mat_pow(cat_matrix(), step_count as nat),
            dcm521_pair(state),
            m,
        );
        lemma_cat_iterate_is_power(dcm521_pair(state), step_count as nat, m);
    }
    result
}

/// `step_count` steps back over the field at once.
pub fn fast_rewind_dcm_state_521_v1(state: DcmState521V1, step_count: u64) -> (result: DcmState521V1)
    ensures
        dcm521_pair(result) == cat_back_iterate(dcm521_pair(state), step_count as nat, p521_int()),
{
    let inverse = dcm_cat_map_inverse_matrix_521_v1();
    let power = inverse.pow(step_count);
    let result = power.apply(&state);
    proof {
        let m = p521_int();
        crate::limbs_521_v1::lemma_limb_weight_values();
        use_type_invariant(&state.x);
        use_type_invariant(&state.y);
        lemma_mat_pow_congruent(matrix521_view(inverse), cat_inverse_matrix(), step_count as nat, m);
        lemma_mat_apply_mod_matrix(
            matrix521_view(power),
            mat_pow(cat_inverse_matrix(), step_count as nat),
            dcm521_pair(state),
            m,
        );
        lemma_cat_back_iterate_is_power(dcm521_pair(state), step_count as nat, m);
    }
    result
}

/// The next coordinate of the recurrence over the field: `3 current - previous`.
pub fn coordinate_recurrence_next_521_v1(previous: FieldElement521V1, current: FieldElement521V1) -> (next: FieldElement521V1)
    ensures
        next.value() == (3 * current.value() - previous.value()) % p521_int(),
{
    let doubled = current.add_mod(&current);
    let tripled = doubled.add_mod(&current);
    proof {
        let p = p521_int();
        crate::limbs_521_v1::lemma_limb_weight_values();
        use_type_invariant(&current);
        lemma_small_mod(current.value(), p as nat);
        let c = current.value() as int;
        lemma_add_mod_noop(c + c, c, p);
        lemma_mod_twice(c + c, p);
        lemma_small_mod(tripled.value(), p as nat);
        lemma_sub_mod_noop(3 * c, previous.value() as int, p);
        use_type_invariant(&previous);
        lemma_small_mod(previous.value(), p as nat);
    }
    tripled.sub_mod(&previous)
}

/// The configuration of a field execution.
#[derive(Clone, Copy, Debug, PartialEq, Eq, Structural)]
pub struct DcmConfig521V1 {
    pub iteration_count: u64,
}

/// The starting pair of a field execution.
#[derive(Clone, Copy, Debug, PartialEq, Eq)]
pub struct DcmInput521V1 {
    pub x0: FieldElement521V1,
    pub y0: FieldElement521V1,
}

/// A field execution: every state from the initial one on, and its
/// commitment.
#[derive(Clone, Debug, PartialEq, Eq)]
pub struct DcmExecution521V1 {
    pub states: Vec<DcmState521V1>,
    pub final_state: DcmState521V1,
    pub trace_length: u64,
    pub trace_commitment: [u8; 32],
}

/// Why a field execution is refused.
#[derive(Clone, Copy, Debug, PartialEq, Eq, Structural)]
pub enum DcmExecution521ErrorV1 {
    IterationCountTooLarge { actual: u64 },
}

/// Why a field trace cannot be committed to.
#[allow(inconsistent_fields)]
#[derive(Clone, Copy, Debug, PartialEq, Eq)]
pub enum DcmTraceCommitment521ErrorV1 {
    IterationCountTooLarge { actual: u64 },
    TraceLengthMismatch { expected: u64, actual: u64 },
    InitialStateMismatch { expected: DcmState521V1, actual: DcmState521V1 },
    TransitionMismatch { index: u64, expected: DcmState521V1, actual: DcmState521V1 },
}

impl DcmConfig521V1 {
    /// The trace length fits in `usize`.
    pub fn validate(&self) -> (result: Result<(), DcmExecution521ErrorV1>)
        ensures
            (self.iteration_count as int) < usize::MAX ==> result is Ok,
            (self.iteration_count as int) >= usize::MAX ==> result == Err::<(), DcmExecution521ErrorV1>(
                DcmExecution521ErrorV1::IterationCountTooLarge { actual: self.iteration_count },
            ),
    {
        if self.iteration_count as u128 >= usize::MAX as u128 {
            return Err(DcmExecution521ErrorV1::IterationCountTooLarge { actual: self.iteration_count });
        }
        Ok(())
    }
}

/// The initial state of an input.
pub open spec fn dcm521_initial(input: DcmInput521V1) -> DcmState521V1 {
    DcmState521V1 { x: input.x0, y: input.y0 }
}

impl DcmInput521V1 {
    /// The input with the given small coordinates.
    pub fn from_u64(x0: u64, y0: u64) -> (input: Self)
        ensures
            input.x0.value() == x0,
            input.y0.value() == y0,
    {
        Self { x0: FieldElement521V1::from_u64(x0), y0: FieldElement521V1::from_u64(y0) }
    }

    /// The input whose coordinates are the two seeds, read big-endian and
    /// reduced.
    pub fn from_seed_bytes(user_entropy: &[u8], verifier_challenge: &[u8]) -> (input: Self)
        ensures
            input.x0.value() == crate::limbs_521_v1::be_value(user_entropy@) % p521(),
            input.y0.value() == crate::limbs_521_v1::be_value(verifier_challenge@) % p521(),
    {
        Self {
            x0: FieldElement521V1::reduce_bytes_mod(user_entropy),
            y0: FieldElement521V1::reduce_bytes_mod(verifier_challenge),
        }
    }

    /// The initial state.
    pub fn initial_state(&self) -> (state: DcmState521V1)
        ensures
            state == dcm521_initial(*self),
    {
        DcmState521V1 { x: self.x0, y: self.y0 }
    }

    /// The configuration is valid.
    pub fn validate(&self, config: &DcmConfig521V1) -> (result: Result<(), DcmExecution521ErrorV1>)
        ensures
            (config.iteration_count as int) < usize::MAX ==> result is Ok,
            (config.iteration_count as int) >= usize::MAX ==> result == Err::<(), DcmExecution521ErrorV1>(
                DcmExecution521ErrorV1::IterationCountTooLarge { actual: config.iteration_count },
            ),
    {
        config.validate()
    }
}

/// Each of the first `k` transitions of a field trace is a cat-map step.
pub open spec fn dcm521_steps_before(states: Seq<DcmState521V1>, k: int) -> bool {
    forall|i: int|
        0 <= i < k ==> #[trigger] dcm521_pair(states[i + 1]) == cat_step(
            dcm521_pair(states[i]),
            p521_int(),
        )
}

/// The leaf of field state `index`.
pub open spec fn dcm521_leaf_spec(index: u64, state: DcmState521V1) -> Seq<u8> {
    sha256_spec(
        AURA_DCM_521_V1_STATE_LEAF_DOMAIN_SEPARATOR@ + u64_le(index) + dcm521_state_bytes(state),
    )
}

/// The leaves of the states, one after another.
pub open spec fn dcm521_leaves_spec(states: Seq<DcmState521V1>) -> Seq<u8>
    decreases states.len(),
{
    if states.len() == 0 {
        Seq::empty()
    } else {
        dcm521_leaves_spec(states.drop_last()) + dcm521_leaf_spec(
            (states.len() - 1) as u64,
            states.last(),
        )
    }
}

/// The commitment to a field trace.
pub open spec fn dcm521_trace_commitment_spec(config: DcmConfig521V1, input: DcmInput521V1, states: Seq<DcmState521V1>) -> Seq<u8> {
    sha256_spec(
        AURA_DCM_521_V1_TRACE_COMMITMENT_DOMAIN_SEPARATOR@ + FIELD_MODULUS_521_V1@ + u64_le(
            config.iteration_count,
        ) + input.x0@ + input.y0@ + u64_le(states.len() as u64) + dcm521_leaves_spec(states),
    )
}

/// Whether a field trace is the execution of the input: the right length,
/// the initial state first, and each state the step of the one before.
pub open spec fn dcm521_trace_valid(config: DcmConfig521V1, input: DcmInput521V1, states: Seq<DcmState521V1>) -> bool {
    &&& (config.iteration_count as int) < usize::MAX
    &&& states.len() == config.iteration_count + 1
    &&& dcm521_same(states[0], dcm521_initial(input))
    &&& forall|i: int|
        0 <= i < states.len() - 1 ==> #[trigger] dcm521_pair(states[i + 1]) == cat_step(
            dcm521_pair(states[i]),
            p521_int(),
        )
}

/// The leaf of field state `index`.
pub fn state_leaf_hash_521_v1(index: u64, state: &DcmState521V1) -> (leaf: [u8; 32])
    ensures
        leaf@ == dcm521_leaf_spec(index, *state),
{
    let domain = AURA_DCM_521_V1_STATE_LEAF_DOMAIN_SEPARATOR;
    let mut preimage: Vec<u8> = Vec::new();
    append_bytes(&mut preimage, &domain);
    let index_bytes = u64_to_le_bytes(index);
    append_bytes(&mut preimage, &index_bytes);
    let state_bytes = state.canonical_bytes();
    append_bytes(&mut preimage, &state_bytes);
    sha256_bytes(preimage.as_slice())
}

/// Checks that a field trace is the execution of the input.
fn validate_trace_commitment_inputs_521_v1(config: &DcmConfig521V1, input: &DcmInput521V1, states: &[DcmState521V1]) -> (result: Result<(), DcmTraceCommitment521ErrorV1>)
    ensures
        dcm521_trace_valid(*config, *input, states@) <==> result is Ok,
        (config.iteration_count as int) >= usize::MAX ==> result == Err::<(), DcmTraceCommitment521ErrorV1>(
            DcmTraceCommitment521ErrorV1::IterationCountTooLarge { actual: config.iteration_count },
        ),
        (config.iteration_count as int) < usize::MAX && states@.len() != config.iteration_count + 1
            ==> result == Err::<(), DcmTraceCommitment521ErrorV1>(
            DcmTraceCommitment521ErrorV1::TraceLengthMismatch {
                expected: (config.iteration_count + 1) as u64,
                actual: states@.len() as u64,
            },
        ),
        (config.iteration_count as int) < usize::MAX && states@.len() == config.iteration_count + 1
            && !dcm521_same(states@[0], dcm521_initial(*input)) ==> result == Err::<
            (),
            DcmTraceCommitment521ErrorV1,
        >(
            DcmTraceCommitment521ErrorV1::InitialStateMismatch {
                expected: dcm521_initial(*input),
                actual: states@[0],
            },
        ),
        (config.iteration_count as int) < usize::MAX && states@.len() == config.iteration_count + 1
            && dcm521_same(states@[0], dcm521_initial(*input)) && !dcm521_trace_valid(
            *config,
            *input,
            states@,
        ) ==> result is Err && result->Err_0 is TransitionMismatch,
        result matches Err(DcmTraceCommitment521ErrorV1::TransitionMismatch { index, expected, actual })
            ==> index + 1 < states@.len() && dcm521_steps_before(states@, index as int) && actual
            == states@[index + 1] && dcm521_pair(expected) == cat_step(
            dcm521_pair(states@[index as int]),
            p521_int(),
        ) && !dcm521_same(expected, actual),
{
    if config.iteration_count as u128 >= usize::MAX as u128 {
        return Err(
            DcmTraceCommitment521ErrorV1::IterationCountTooLarge { actual: config.iteration_count },
        );
    }
    let expected_len = config.iteration_count as usize + 1;
    if states.len() != expected_len {
        return Err(
            DcmTraceCommitment521ErrorV1::TraceLengthMismatch {
                expected: expected_len as u64,
                actual: states.len() as u64,
            },
        );
    }
    let expected_initial_state = input.initial_state();
    let actual_initial_state = states[0];
    if !actual_initial_state.same_as(&expected_initial_state) {
        return Err(
            DcmTraceCommitment521ErrorV1::InitialStateMismatch {
                expected: expected_initial_state,
                actual: actual_initial_state,
            },
        );
    }
    let mut index: usize = 0;
    while index + 1 < states.len()
        invariant
            states@.len() == config.iteration_count + 1,
            (config.iteration_count as int) < usize::MAX,
            0 <= index < states@.len(),
            dcm521_same(states@[0], dcm521_initial(*input)),
            forall|i: int|
                0 <= i < index ==> #[trigger] dcm521_pair(states@[i + 1]) == cat_step(
                    dcm521_pair(states@[i]),
                    p521_int(),
                ),
        decreases states@.len() - index,
    {
        let expected = advance_dcm_state_521_v1(states[index]);
        let actual = states[index + 1];
        proof {
            use_type_invariant(&expected.x);
            use_type_invariant(&expected.y);
            use_type_invariant(&actual.x);
            use_type_invariant(&actual.y);
            lemma_dcm521_same_values(expected, actual);
        }
        if !actual.same_as(&expected) {
            return Err(
                DcmTraceCommitment521ErrorV1::TransitionMismatch { index: index as u64, expected, actual },
            );
        }
        index += 1;
    }
    Ok(())
}

/// The SHA-256 commitment to a field trace that is the execution of the
/// input.
pub fn derive_trace_commitment_521_v1(config: &DcmConfig521V1, input: &DcmInput521V1, states: &[DcmState521V1]) -> (result: Result<[u8; 32], DcmTraceCommitment521ErrorV1>)
    ensures
        dcm521_trace_valid(*config, *input, states@) ==> (result matches Ok(commitment)
            && commitment@ == dcm521_trace_commitment_spec(*config, *input, states@)),
        !dcm521_trace_valid(*config, *input, states@) ==> result is Err,
        (config.iteration_count as int) < usize::MAX && states@.len() != config.iteration_count + 1
            ==> result == Err::<[u8; 32], DcmTraceCommitment521ErrorV1>(
            DcmTraceCommitment521ErrorV1::TraceLengthMismatch {
                expected: (config.iteration_count + 1) as u64,
                actual: states@.len() as u64,
            },
        ),
        (config.iteration_count as int) < usize::MAX && states@.len() == config.iteration_count + 1
            && !dcm521_same(states@[0], dcm521_initial(*input)) ==> result == Err::<
            [u8; 32],
            DcmTraceCommitment521ErrorV1,
        >(
            DcmTraceCommitment521ErrorV1::InitialStateMismatch {
                expected: dcm521_initial(*input),
                actual: states@[0],
            },
        ),
        (config.iteration_count as int) < usize::MAX && states@.len() == config.iteration_count + 1
            && dcm521_same(states@[0], dcm521_initial(*input)) && !dcm521_trace_valid(
            *config,
            *input,
            states@,
        ) ==> result is Err && result->Err_0 is TransitionMismatch,
        result matches Err(DcmTraceCommitment521ErrorV1::TransitionMismatch { index, expected, actual })
            ==> index + 1 < states@.len() && dcm521_steps_before(states@, index as int) && actual
            == states@[index + 1] && dcm521_pair(expected) == cat_step(
            dcm521_pair(states@[index as int]),
            p521_int(),
        ) && !dcm521_same(expected, actual),
{
    match validate_trace_commitment_inputs_521_v1(config, input, states) {
        Ok(()) => {},
        Err(error) => {
            return Err(error);
        },
    }
    let domain = AURA_DCM_521_V1_TRACE_COMMITMENT_DOMAIN_SEPARATOR;
    let modulus = FIELD_MODULUS_521_V1;
    let mut preimage: Vec<u8> = Vec::new();
    append_bytes(&mut preimage, &domain);
    append_bytes(&mut preimage, &modulus);
    let count = u64_to_le_bytes(config.iteration_count);
    append_bytes(&mut preimage, &count);
    let x0 = input.x0.to_bytes();
    append_bytes(&mut preimage, &x0);
    let y0 = input.y0.to_bytes();
    append_bytes(&mut preimage, &y0);
    let length = u64_to_le_bytes(states.len() as u64);
    append_bytes(&mut preimage, &length);
    let ghost head = preimage@;
    let mut index: usize = 0;
    while index < states.len()
        invariant
            0 <= index <= states@.len(),
            preimage@ == head + dcm521_leaves_spec(states@.take(index as int)),
        decreases states@.len() - index,
    {
        let leaf = state_leaf_hash_521_v1(index as u64, &states[index]);
        append_bytes(&mut preimage, &leaf);
        proof {
            assert(states@.take(index + 1).drop_last() =~= states@.take(index as int));
        }
        index += 1;
    }
    proof {
        assert(states@.take(states@.len() as int) =~= states@);
        assert(preimage@ =~= AURA_DCM_521_V1_TRACE_COMMITMENT_DOMAIN_SEPARATOR@ + FIELD_MODULUS_521_V1@
            + u64_le(config.iteration_count) + input.x0@ + input.y0@ + u64_le(states@.len() as u64)
            + dcm521_leaves_spec(states@));
    }
    Ok(sha256_bytes(preimage.as_slice()))
}

/// The states of a field trace follow the cat map from its first state.
pub open spec fn dcm521_trace_matches(start: Vec2, states: Seq<DcmState521V1>) -> bool {
    forall|i: int| 0 <= i < states.len() ==> #[trigger] dcm521_pair(states[i]) == cat_iterate(start, i as nat, p521_int())
}

impl DcmExecution521V1 {
    /// Runs the map `iteration_count` times from the input and commits to the
    /// trace.
    pub fn run(config: &DcmConfig521V1, input: &DcmInput521V1) -> (result: Result<Self, DcmExecution521ErrorV1>)
        ensures
            (config.iteration_count as int) >= usize::MAX ==> result == Err::<Self, DcmExecution521ErrorV1>(
                DcmExecution521ErrorV1::IterationCountTooLarge { actual: config.iteration_count },
            ),
            (config.iteration_count as int) < usize::MAX ==> (result matches Ok(execution) && {
                &&& execution.states@.len() == config.iteration_count + 1
                &&& execution.states@[0] == dcm521_initial(*input)
                &&& dcm521_trace_matches(dcm521_pair(dcm521_initial(*input)), execution.states@)
                &&& dcm521_trace_valid(*config, *input, execution.states@)
                &&& forall|i: int|
                    0 <= i < execution.states@.len() ==> #[trigger] dcm521_canonical(
                        execution.states@[i],
                    )
                &&& execution.final_state == execution.states@[config.iteration_count as int]
                &&& execution.trace_length == config.iteration_count + 1
                &&& execution.trace_commitment@ == dcm521_trace_commitment_spec(
                    *config,
                    *input,
                    execution.states@,
                )
            }),
    {
        match input.validate(config) {
            Ok(()) => {},
            Err(error) => {
                return Err(error);
            },
        }
        let ghost start = dcm521_pair(dcm521_initial(*input));
        let mut states: Vec<DcmState521V1> = Vec::new();
        let mut state = input.initial_state();
        proof {
            use_type_invariant(&input.x0);
            use_type_invariant(&input.y0);
        }
        states.push(state);
        let mut step: u64 = 0;
        while step < config.iteration_count
            invariant
                step <= config.iteration_count,
                (config.iteration_count as int) < usize::MAX,
                states@.len() == step + 1,
                states@[0] == dcm521_initial(*input),
                state == states@[step as int],
                dcm521_trace_matches(start, states@),
                forall|i: int| 0 <= i < states@.len() ==> #[trigger] dcm521_canonical(states@[i]),
                forall|i: int|
                    0 <= i < states@.len() - 1 ==> #[trigger] dcm521_pair(states@[i + 1]) == cat_step(
                        dcm521_pair(states@[i]),
                        p521_int(),
                    ),
            decreases config.iteration_count - step,
        {
            state = advance_dcm_state_521_v1(state);
            states.push(state);
            step += 1;
        }
        let trace_commitment = match derive_trace_commitment_521_v1(config, input, states.as_slice()) {
            Ok(commitment) => commitment,
            Err(_) => {
                proof {
                    assert(false);
                }
                [0u8; 32]
            },
        };
        let trace_length = states.len() as u64;
        Ok(DcmExecution521V1 { final_state: state, trace_length, states, trace_commitment })
    }
}

/// The canonical encoding of a field claim.
pub open spec fn dcm521_claim_bytes_spec(claim: DcmClaim521V1) -> Seq<u8> {
    FIELD_MODULUS_521_V1@ + u64_le(claim.config.iteration_count) + dcm521_state_bytes(
        claim.initial_state,
    ) + dcm521_state_bytes(claim.final_state) + claim.commitment_root@
}

/// A claim about a field execution.
#[derive(Clone, Copy, Debug, PartialEq, Eq)]
pub struct DcmClaim521V1 {
    pub config: DcmConfig521V1,
    pub initial_state: DcmState521V1,
    pub final_state: DcmState521V1,
    pub commitment_root: [u8; 32],
}

impl DcmClaim521V1 {
    /// The number of states in the trace.
    pub fn trace_state_count(&self) -> (count: u64)
        requires
            self.config.iteration_count < u64::MAX,
        ensures
            count == self.config.iteration_count + 1,
    {
        self.config.iteration_count + 1
    }

    /// The 370-byte canonical encoding: modulus, iteration count, boundary
    /// states and commitment root.
    pub fn canonical_bytes(&self) -> (bytes: [u8; 370])
        ensures
            bytes@ == dcm521_claim_bytes_spec(*self),
    {
        let modulus = FIELD_MODULUS_521_V1;
        let mut buffer: Vec<u8> = Vec::new();
        append_bytes(&mut buffer, &modulus);
        let count = u64_to_le_bytes(self.config.iteration_count);
        append_bytes(&mut buffer, &count);
        let initial = self.initial_state.canonical_bytes();
        append_bytes(&mut buffer, &initial);
        let final_bytes = self.final_state.canonical_bytes();
        append_bytes(&mut buffer, &final_bytes);
        append_bytes(&mut buffer, &self.commitment_root);
        proof {
            crate::encoding_v1::lemma_le_bytes_len(self.config.iteration_count as nat, 8);
            assert(buffer@ =~= dcm521_claim_bytes_spec(*self));
        }
        let mut bytes = [0u8; 370];
        crate::encoding_v1::copy_range_into(&mut bytes, buffer.as_slice(), 0);
        proof {
            assert(buffer@.subrange(0, 370) =~= buffer@);
        }
        bytes
    }
}

/// The commitment root of an execution's states.
pub fn derive_dcm_commitment_root_521_v1(config: &DcmConfig521V1, execution: &DcmExecution521V1) -> (root: [u8; 32])
    ensures
        root@ == commitment_root_spec(config.iteration_count, execution.states@),
{
    derive_dcm_air_commitment_root_521_v1(config, execution.states.as_slice())
}

/// The claim of an execution: its configuration, the input's initial state,
/// the final state and the commitment root.
pub fn build_dcm_claim_521_v1(config: &DcmConfig521V1, input: &DcmInput521V1, execution: &DcmExecution521V1) -> (claim: DcmClaim521V1)
    ensures
        claim.config == *config,
        claim.initial_state == dcm521_initial(*input),
        claim.final_state == execution.final_state,
        claim.commitment_root@ == commitment_root_spec(config.iteration_count, execution.states@),
{
    DcmClaim521V1 {
        config: *config,
        initial_state: input.initial_state(),
        final_state: execution.final_state,
        commitment_root: derive_dcm_commitment_root_521_v1(config, execution),
    }
}


/// A `u64` state's leaf is SHA-256 of `"AURA_CAT_V1_STATE_LEAF"`, then the
/// state's index, then `x` and `y`, each as eight little-endian bytes. The
/// index is part of the preimage, so equal states at different positions
/// hash different preimages.
pub proof fn lemma_dcm_leaf_binds_position(index: u64, other_index: u64, state: DcmStateV1)
    ensures
        dcm_leaf_spec(index, state) == sha256_spec(
            seq![0x41u8, 0x55, 0x52, 0x41, 0x5f, 0x43, 0x41, 0x54, 0x5f, 0x56, 0x31, 0x5f, 0x53, 0x54, 0x41, 0x54, 0x45, 0x5f, 0x4c, 0x45, 0x41, 0x46] + u64_le(index) + u64_le(state.x) + u64_le(state.y),
        ),
        index != other_index ==> seq![0x41u8, 0x55, 0x52, 0x41, 0x5f, 0x43, 0x41, 0x54, 0x5f, 0x56, 0x31, 0x5f, 0x53, 0x54, 0x41, 0x54, 0x45, 0x5f, 0x4c, 0x45, 0x41, 0x46] + u64_le(index) + u64_le(state.x) + u64_le(state.y)
            != seq![0x41u8, 0x55, 0x52, 0x41, 0x5f, 0x43, 0x41, 0x54, 0x5f, 0x56, 0x31, 0x5f, 0x53, 0x54, 0x41, 0x54, 0x45, 0x5f, 0x4c, 0x45, 0x41, 0x46] + u64_le(other_index) + u64_le(state.x) + u64_le(state.y),
{
    assert(AURA_DCM_V1_STATE_LEAF_DOMAIN_SEPARATOR@ =~= seq![0x41u8, 0x55, 0x52, 0x41, 0x5f, 0x43, 0x41, 0x54, 0x5f, 0x56, 0x31, 0x5f, 0x53, 0x54, 0x41, 0x54, 0x45, 0x5f, 0x4c, 0x45, 0x41, 0x46]);
    crate::encoding_v1::lemma_le_bytes_len(index as nat, 8);
    crate::encoding_v1::lemma_le_bytes_len(other_index as nat, 8);
    if index != other_index {
        let a = seq![0x41u8, 0x55, 0x52, 0x41, 0x5f, 0x43, 0x41, 0x54, 0x5f, 0x56, 0x31, 0x5f, 0x53, 0x54, 0x41, 0x54, 0x45, 0x5f, 0x4c, 0x45, 0x41, 0x46] + u64_le(index) + u64_le(state.x) + u64_le(state.y);
        let b = seq![0x41u8, 0x55, 0x52, 0x41, 0x5f, 0x43, 0x41, 0x54, 0x5f, 0x56, 0x31, 0x5f, 0x53, 0x54, 0x41, 0x54, 0x45, 0x5f, 0x4c, 0x45, 0x41, 0x46] + u64_le(other_index) + u64_le(state.x) + u64_le(state.y);
        if a == b {
            assert(a.subrange(22, 30) =~= u64_le(index));
            assert(b.subrange(22, 30) =~= u64_le(other_index));
            crate::encoding_v1::lemma_u64_le_injective(index, other_index);
        }
    }
}

/// The `u64` trace commitment is SHA-256 of `"AURA_CAT_V1_TRACE_COMMITMENT"`,
/// the modulus, the iteration count, `x0`, `y0` and the number of states,
/// each as eight little-endian bytes, then the leaves in order.
pub proof fn lemma_dcm_trace_commitment_preimage(config: DcmConfigV1, input: DcmInputV1, states: Seq<DcmStateV1>)
    ensures
        dcm_trace_commitment_spec(config, input, states) == sha256_spec(
            seq![0x41u8, 0x55, 0x52, 0x41, 0x5f, 0x43, 0x41, 0x54, 0x5f, 0x56, 0x31, 0x5f, 0x54, 0x52, 0x41, 0x43, 0x45, 0x5f, 0x43, 0x4f, 0x4d, 0x4d, 0x49, 0x54, 0x4d, 0x45, 0x4e, 0x54] + u64_le(config.modulus) + u64_le(config.iteration_count) + u64_le(input.x0)
                + u64_le(input.y0) + u64_le(states.len() as u64) + dcm_leaves_spec(states),
        ),
{
    assert(AURA_DCM_V1_TRACE_COMMITMENT_DOMAIN_SEPARATOR@ =~= seq![0x41u8, 0x55, 0x52, 0x41, 0x5f, 0x43, 0x41, 0x54, 0x5f, 0x56, 0x31, 0x5f, 0x54, 0x52, 0x41, 0x43, 0x45, 0x5f, 0x43, 0x4f, 0x4d, 0x4d, 0x49, 0x54, 0x4d, 0x45, 0x4e, 0x54]);
}

/// A field state's leaf is SHA-256 of `"AURA_CAT_521_V1_STATE_LEAF"`, the
/// state's index as eight little-endian bytes, then the 66-byte encodings of
/// `x` and `y`. Equal states at different positions hash different
/// preimages.
pub proof fn lemma_dcm521_leaf_binds_position(index: u64, other_index: u64, state: DcmState521V1)
    ensures
        dcm521_leaf_spec(index, state) == sha256_spec(seq![0x41u8, 0x55, 0x52, 0x41, 0x5f, 0x43, 0x41, 0x54, 0x5f, 0x35, 0x32, 0x31, 0x5f, 0x56, 0x31, 0x5f, 0x53, 0x54, 0x41, 0x54, 0x45, 0x5f, 0x4c, 0x45, 0x41, 0x46] + u64_le(index) + state.x@ + state.y@),
        index != other_index ==> seq![0x41u8, 0x55, 0x52, 0x41, 0x5f, 0x43, 0x41, 0x54, 0x5f, 0x35, 0x32, 0x31, 0x5f, 0x56, 0x31, 0x5f, 0x53, 0x54, 0x41, 0x54, 0x45, 0x5f, 0x4c, 0x45, 0x41, 0x46] + u64_le(index) + state.x@ + state.y@ != seq![0x41u8, 0x55, 0x52, 0x41, 0x5f, 0x43, 0x41, 0x54, 0x5f, 0x35, 0x32, 0x31, 0x5f, 0x56, 0x31, 0x5f, 0x53, 0x54, 0x41, 0x54, 0x45, 0x5f, 0x4c, 0x45, 0x41, 0x46] + u64_le(
            other_index,
        ) + state.x@ + state.y@,
{
    assert(AURA_DCM_521_V1_STATE_LEAF_DOMAIN_SEPARATOR@ =~= seq![0x41u8, 0x55, 0x52, 0x41, 0x5f, 0x43, 0x41, 0x54, 0x5f, 0x35, 0x32, 0x31, 0x5f, 0x56, 0x31, 0x5f, 0x53, 0x54, 0x41, 0x54, 0x45, 0x5f, 0x4c, 0x45, 0x41, 0x46]);
    assert(seq![0x41u8, 0x55, 0x52, 0x41, 0x5f, 0x43, 0x41, 0x54, 0x5f, 0x35, 0x32, 0x31, 0x5f, 0x56, 0x31, 0x5f, 0x53, 0x54, 0x41, 0x54, 0x45, 0x5f, 0x4c, 0x45, 0x41, 0x46] + u64_le(index) + dcm521_state_bytes(state) =~= seq![0x41u8, 0x55, 0x52, 0x41, 0x5f, 0x43, 0x41, 0x54, 0x5f, 0x35, 0x32, 0x31, 0x5f, 0x56, 0x31, 0x5f, 0x53, 0x54, 0x41, 0x54, 0x45, 0x5f, 0x4c, 0x45, 0x41, 0x46] + u64_le(index) + state.x@
        + state.y@);
    crate::encoding_v1::lemma_le_bytes_len(index as nat, 8);
    crate::encoding_v1::lemma_le_bytes_len(other_index as nat, 8);
    if index != other_index {
        let a = seq![0x41u8, 0x55, 0x52, 0x41, 0x5f, 0x43, 0x41, 0x54, 0x5f, 0x35, 0x32, 0x31, 0x5f, 0x56, 0x31, 0x5f, 0x53, 0x54, 0x41, 0x54, 0x45, 0x5f, 0x4c, 0x45, 0x41, 0x46] + u64_le(index) + state.x@ + state.y@;
        let b = seq![0x41u8, 0x55, 0x52, 0x41, 0x5f, 0x43, 0x41, 0x54, 0x5f, 0x35, 0x32, 0x31, 0x5f, 0x56, 0x31, 0x5f, 0x53, 0x54, 0x41, 0x54, 0x45, 0x5f, 0x4c, 0x45, 0x41, 0x46] + u64_le(other_index) + state.x@ + state.y@;
        if a == b {
            assert(a.subrange(26, 34) =~= u64_le(index));
            assert(b.subrange(26, 34) =~= u64_le(other_index));
            crate::encoding_v1::lemma_u64_le_injective(index, other_index);
        }
    }
}

/// The field trace commitment is SHA-256 of
/// `"AURA_CAT_521_V1_TRACE_COMMITMENT"`, the 66-byte modulus `2^521 - 1`, the
/// iteration count, the encodings of `x0` and `y0`, the number of states, then
/// the leaves in order.
pub proof fn lemma_dcm521_trace_commitment_preimage(config: DcmConfig521V1, input: DcmInput521V1, states: Seq<DcmState521V1>)
    ensures
        dcm521_trace_commitment_spec(config, input, states) == sha256_spec(
            seq![0x41u8, 0x55, 0x52, 0x41, 0x5f, 0x43, 0x41, 0x54, 0x5f, 0x35, 0x32, 0x31, 0x5f, 0x56, 0x31, 0x5f, 0x54, 0x52, 0x41, 0x43, 0x45, 0x5f, 0x43, 0x4f, 0x4d, 0x4d, 0x49, 0x54, 0x4d, 0x45, 0x4e, 0x54] + seq![0x01u8] + Seq::new(65, |i: int| 0xffu8) + u64_le(config.iteration_count)
                + input.x0@ + input.y0@ + u64_le(states.len() as u64) + dcm521_leaves_spec(states),
        ),
{
    assert(AURA_DCM_521_V1_TRACE_COMMITMENT_DOMAIN_SEPARATOR@ =~= seq![0x41u8, 0x55, 0x52, 0x41, 0x5f, 0x43, 0x41, 0x54, 0x5f, 0x35, 0x32, 0x31, 0x5f, 0x56, 0x31, 0x5f, 0x54, 0x52, 0x41, 0x43, 0x45, 0x5f, 0x43, 0x4f, 0x4d, 0x4d, 0x49, 0x54, 0x4d, 0x45, 0x4e, 0x54]);
    assert(FIELD_MODULUS_521_V1@ =~= seq![0x01u8] + Seq::new(65, |i: int| 0xffu8));
    assert(seq![0x41u8, 0x55, 0x52, 0x41, 0x5f, 0x43, 0x41, 0x54, 0x5f, 0x35, 0x32, 0x31, 0x5f, 0x56, 0x31, 0x5f, 0x54, 0x52, 0x41, 0x43, 0x45, 0x5f, 0x43, 0x4f, 0x4d, 0x4d, 0x49, 0x54, 0x4d, 0x45, 0x4e, 0x54] + FIELD_MODULUS_521_V1@ =~= seq![0x41u8, 0x55, 0x52, 0x41, 0x5f, 0x43, 0x41, 0x54, 0x5f, 0x35, 0x32, 0x31, 0x5f, 0x56, 0x31, 0x5f, 0x54, 0x52, 0x41, 0x43, 0x45, 0x5f, 0x43, 0x4f, 0x4d, 0x4d, 0x49, 0x54, 0x4d, 0x45, 0x4e, 0x54] + seq![0x01u8] + Seq::new(65, |i: int| 0xffu8));
}


/// Appending a state appends exactly one leaf, and that leaf carries the new
/// state's position: the number of states before it.
pub proof fn lemma_dcm_leaves_append(states: Seq<DcmStateV1>, state: DcmStateV1, field_states: Seq<DcmState521V1>, field_state: DcmState521V1)
    ensures
        dcm_leaves_spec(states.push(state)) == dcm_leaves_spec(states) + dcm_leaf_spec(
            states.len() as u64,
            state,
        ),
        dcm521_leaves_spec(field_states.push(field_state)) == dcm521_leaves_spec(field_states)
            + dcm521_leaf_spec(field_states.len() as u64, field_state),
{
    assert(states.push(state).drop_last() =~= states);
    assert(field_states.push(field_state).drop_last() =~= field_states);
}

} // verus!
