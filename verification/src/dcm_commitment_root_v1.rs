//! The algebraic commitment root of a cat-map trace over the 128-bit STARK
//! field (modulus `M = 2^128 - 45 * 2^40 + 1`, the base field `winterfell`
//! proves over): a two-element sponge seeded by the iteration count absorbs,
//! row by row, a weighted sum of the base-128 digits of both coordinates.
//! Field addition and multiplication are `(a + b) mod M` and `(a b) mod M`,
//! computed here without overflow and proved against those statements.

use crate::dcm_v1::{DcmConfig521V1, DcmState521V1};
use crate::encoding_v1::{append_bytes, le_bytes};
use crate::field_521_v1::FieldElement521V1;
use crate::limbs_521_v1::be_value;
use vstd::arithmetic::power::pow;
use vstd::arithmetic::div_mod::{lemma_add_mod_noop, lemma_mod_twice, lemma_mul_mod_noop_left, lemma_small_mod};
use vstd::prelude::*;

verus! {

/// The modulus of the 128-bit STARK field, `2^128 - 45 * 2^40 + 1`.
pub const STARK_FIELD_MODULUS_V1: u128 = 340282366920938463463374557953744961537;

pub const DCM_AIR_REAL_STARK_DIGIT_COUNT_V1: usize = 75;

pub const DCM_AIR_REAL_STARK_COMMITMENT_SEED_0_V1: u128 = 0x415552415f4341545f524f4f545f3031;

pub const DCM_AIR_REAL_STARK_COMMITMENT_SEED_1_V1: u128 = 0x415552415f4341545f524f4f545f3032;

pub const DCM_AIR_REAL_STARK_COMMITMENT_ITERATION_SCALE_0_V1: u128 = 17;

pub const DCM_AIR_REAL_STARK_COMMITMENT_ITERATION_SCALE_1_V1: u128 = 29;

pub const DCM_AIR_REAL_STARK_COMMITMENT_ROW_OFFSET_0_V1: u128 = 0x4341545f524f575f434f4d4d49545f30;

pub const DCM_AIR_REAL_STARK_COMMITMENT_ROW_OFFSET_1_V1: u128 = 0x4341545f524f575f434f4d4d49545f31;

pub const DCM_AIR_REAL_STARK_COMMITMENT_X_BASE_0_V1: u128 = 131;

pub const DCM_AIR_REAL_STARK_COMMITMENT_Y_BASE_0_V1: u128 = 137;

pub const DCM_AIR_REAL_STARK_COMMITMENT_X_BASE_1_V1: u128 = 149;

pub const DCM_AIR_REAL_STARK_COMMITMENT_Y_BASE_1_V1: u128 = 151;

pub const DCM_AIR_REAL_STARK_COMMITMENT_MIX_0_V1: u128 = 17;

pub const DCM_AIR_REAL_STARK_COMMITMENT_MIX_1_V1: u128 = 19;

pub const DCM_AIR_REAL_STARK_COMMITMENT_CONST_0_V1: u128 = 0x524f4f545f4d49585f4341545f303031;

pub const DCM_AIR_REAL_STARK_COMMITMENT_CONST_1_V1: u128 = 0x524f4f545f4d49585f4341545f303032;

/// The modulus as an integer.
pub open spec fn stark_modulus() -> int {
    STARK_FIELD_MODULUS_V1 as int
}

/// `value mod M`: a `u128` is below `2M`, so one subtraction suffices.
fn stark_field_new(value: u128) -> (element: u128)
    ensures
        element == (value as int) % stark_modulus(),
{
    if value >= STARK_FIELD_MODULUS_V1 {
        proof {
            lemma_small_mod((value - STARK_FIELD_MODULUS_V1) as nat, stark_modulus() as nat);
            vstd::arithmetic::div_mod::lemma_mod_sub_multiples_vanish(value as int, stark_modulus());
        }
        value - STARK_FIELD_MODULUS_V1
    } else {
        proof {
            lemma_small_mod(value as nat, stark_modulus() as nat);
        }
        value
    }
}

/// `(a + b) mod M` for reduced operands, without overflow.
fn stark_field_add(a: u128, b: u128) -> (sum: u128)
    requires
        a < stark_modulus(),
        b < stark_modulus(),
    ensures
        sum == (a + b) % stark_modulus(),
{
    let gap = STARK_FIELD_MODULUS_V1 - b;
    if a < gap {
        proof {
            lemma_small_mod((a + b) as nat, stark_modulus() as nat);
        }
        a + b
    } else {
        proof {
            lemma_small_mod((a + b - stark_modulus()) as nat, stark_modulus() as nat);
            vstd::arithmetic::div_mod::lemma_mod_sub_multiples_vanish(a + b, stark_modulus());
        }
        a - gap
    }
}

/// `(a b) mod M` for reduced operands, by binary double-and-add.
fn stark_field_mul(a: u128, b: u128) -> (product: u128)
    requires
        a < stark_modulus(),
        b < stark_modulus(),
    ensures
        product == (a * b) % stark_modulus(),
{
    let ghost m = stark_modulus();
    let mut result: u128 = 0;
    let mut addend: u128 = a;
    let mut remaining: u128 = b;
    proof {
        lemma_small_mod(a as nat, m as nat);
    }
    while remaining > 0
        invariant
            m == stark_modulus(),
            result < m,
            addend < m,
            (result + addend * remaining) % m == (a * b) % m,
        decreases remaining,
    {
        let half = remaining / 2;
        let bit = remaining % 2;
        let ghost before = (result + addend * remaining);
        let next_result = if bit == 1 {
            stark_field_add(result, addend)
        } else {
            result
        };
        let next_addend = stark_field_add(addend, addend);
        proof {
            lemma_double_add_step(result as int, addend as int, half as int, bit as int, m);
        }
        result = next_result;
        addend = next_addend;
        remaining = half;
    }
    proof {
        lemma_small_mod(result as nat, m as nat);
    }
    result
}

/// One double-and-add step keeps `result + addend * remaining` modulo `m`.
proof fn lemma_double_add_step(result: int, addend: int, half: int, bit: int, m: int)
    requires
        m > 0,
        0 <= result < m,
        0 <= addend < m,
        0 <= half,
        bit == 0 || bit == 1,
    ensures
        (((result + bit * addend) % m) + ((2 * addend) % m) * half) % m == (result + addend * (2
            * half + bit)) % m,
{
    let x = result + bit * addend;
    lemma_add_mod_noop(x % m, ((2 * addend) % m) * half, m);
    lemma_mul_mod_noop_left(2 * addend, half, m);
    lemma_add_mod_noop(result + bit * addend, (2 * addend) * half, m);
    lemma_mod_twice(result + bit * addend, m);
    lemma_mod_twice(((2 * addend) % m) * half, m);
    assert((2 * addend) * half + bit * addend == addend * (2 * half + bit)) by (nonlinear_arith);
}

/// The base-128 digits of a value, least significant first.
pub open spec fn digits_spec(value: nat) -> Seq<nat> {
    Seq::new(75, |i: int| (value / pow(128, i as nat) as nat) % 128)
}

/// `offset + sum_{i < n} (x_i bx^i + y_i by^i)` modulo `M`.
pub open spec fn row_sum_spec(x_digits: Seq<nat>, y_digits: Seq<nat>, offset: int, x_base: int, y_base: int, n: nat) -> int
    decreases n,
{
    if n == 0 {
        offset % stark_modulus()
    } else {
        let k = (n - 1) as nat;
        (row_sum_spec(x_digits, y_digits, offset, x_base, y_base, k) + x_digits[k as int] * pow(
            x_base,
            k,
        ) + y_digits[k as int] * pow(y_base, k)) % stark_modulus()
    }
}

/// The two row contributions of a state's values.
pub open spec fn row_contribution_spec(x: nat, y: nat) -> (int, int) {
    (
        row_sum_spec(
            digits_spec(x),
            digits_spec(y),
            DCM_AIR_REAL_STARK_COMMITMENT_ROW_OFFSET_0_V1 as int,
            DCM_AIR_REAL_STARK_COMMITMENT_X_BASE_0_V1 as int,
            DCM_AIR_REAL_STARK_COMMITMENT_Y_BASE_0_V1 as int,
            75,
        ),
        row_sum_spec(
            digits_spec(x),
            digits_spec(y),
            DCM_AIR_REAL_STARK_COMMITMENT_ROW_OFFSET_1_V1 as int,
            DCM_AIR_REAL_STARK_COMMITMENT_X_BASE_1_V1 as int,
            DCM_AIR_REAL_STARK_COMMITMENT_Y_BASE_1_V1 as int,
            75,
        ),
    )
}

/// The sponge seeded by the iteration count.
pub open spec fn commitment_seed_spec(iteration_count: u64) -> (int, int) {
    let ghost m = stark_modulus();
    (
        (DCM_AIR_REAL_STARK_COMMITMENT_SEED_0_V1 + iteration_count
            * DCM_AIR_REAL_STARK_COMMITMENT_ITERATION_SCALE_0_V1) % m,
        (DCM_AIR_REAL_STARK_COMMITMENT_SEED_1_V1 + iteration_count
            * DCM_AIR_REAL_STARK_COMMITMENT_ITERATION_SCALE_1_V1) % m,
    )
}

/// One absorption: `(17 s0 + s1^2 + lo + c0, 19 s1 + s0^2 + hi + c1)` modulo `M`.
pub open spec fn absorb_spec(previous: (int, int), row: (int, int)) -> (int, int) {
    let ghost m = stark_modulus();
    (
        (previous.0 * DCM_AIR_REAL_STARK_COMMITMENT_MIX_0_V1 + previous.1 * previous.1 + row.0
            + DCM_AIR_REAL_STARK_COMMITMENT_CONST_0_V1) % m,
        (previous.1 * DCM_AIR_REAL_STARK_COMMITMENT_MIX_1_V1 + previous.0 * previous.0 + row.1
            + DCM_AIR_REAL_STARK_COMMITMENT_CONST_1_V1) % m,
    )
}

/// The sponge after absorbing every state.
pub open spec fn commitment_elements_spec(iteration_count: u64, states: Seq<DcmState521V1>) -> (int, int)
    decreases states.len(),
{
    if states.len() == 0 {
        commitment_seed_spec(iteration_count)
    } else {
        let last = states.last();
        absorb_spec(
            commitment_elements_spec(iteration_count, states.drop_last()),
            row_contribution_spec(last.x.value(), last.y.value()),
        )
    }
}

/// The root: both sponge elements in 16 little-endian bytes each.
pub open spec fn commitment_root_spec(iteration_count: u64, states: Seq<DcmState521V1>) -> Seq<u8> {
    let elements = commitment_elements_spec(iteration_count, states);
    le_bytes(elements.0 as nat, 16) + le_bytes(elements.1 as nat, 16)
}

/// Divides a 66-byte big-endian number by 128.
fn divide_be_by_128(bytes: &[u8; 66]) -> (result: ([u8; 66], u8))
    ensures
        be_value(result.0@) * 128 + result.1 == be_value(bytes@),
        result.1 < 128,
{
    let mut quotient = [0u8; 66];
    let mut remainder: u32 = 0;
    let mut index: usize = 0;
    proof {
        assert(quotient@.take(0).len() == 0);
        assert(bytes@.take(0).len() == 0);
    }
    while index < 66
        invariant
            0 <= index <= 66,
            quotient@.len() == 66,
            remainder < 128,
            be_value(quotient@.take(index as int)) * 128 + remainder == be_value(
                bytes@.take(index as int),
            ),
        decreases 66 - index,
    {
        let current = remainder * 256 + bytes[index] as u32;
        let ghost q_before = quotient@;
        quotient[index] = (current / 128) as u8;
        let next_remainder = current % 128;
        proof {
            let k = index as int;
            assert(quotient@.take(k) =~= q_before.take(k));
            assert(quotient@.take(k + 1).drop_last() =~= quotient@.take(k));
            assert(bytes@.take(k + 1).drop_last() =~= bytes@.take(k));
            let qv = be_value(quotient@.take(k));
            assert(be_value(quotient@.take(k + 1)) == qv * 256 + quotient@[k]);
            assert(be_value(bytes@.take(k + 1)) == be_value(bytes@.take(k)) * 256 + bytes@[k]);
            assert(current == (current / 128) * 128 + current % 128);
            assert((qv * 256 + (current / 128)) * 128 + current % 128 == 256 * (qv * 128 + remainder) + bytes@[k]) by (nonlinear_arith)
                requires
                    current == remainder * 256 + bytes@[k],
                    current == (current / 128) * 128 + current % 128;
        }
        remainder = next_remainder;
        index += 1;
    }
    proof {
        assert(quotient@.take(66) =~= quotient@);
        assert(bytes@.take(66) =~= bytes@);
    }
    (quotient, remainder as u8)
}

/// The 75 base-128 digits of a field element, least significant first.
pub fn digits_le_from_field_element_v1(value: &FieldElement521V1) -> (digits: [u8; 75])
    ensures
        forall|i: int| 0 <= i < 75 ==> #[trigger] digits@[i] == digits_spec(value.value())[i],
{
    let mut current = value.to_bytes();
    let mut digits = [0u8; 75];
    let mut index: usize = 0;
    proof {
        vstd::arithmetic::power::lemma_pow0(128);
    }
    while index < 75
        invariant
            0 <= index <= 75,
            digits@.len() == 75,
            be_value(current@) == value.value() / pow(128, index as nat) as nat,
            pow(128, index as nat) > 0,
            forall|i: int| 0 <= i < index ==> #[trigger] digits@[i] == digits_spec(value.value())[i],
        decreases 75 - index,
    {
        let (quotient, digit) = divide_be_by_128(&current);
        digits[index] = digit;
        proof {
            let w = pow(128, index as nat);
            let v = value.value() as int;
            vstd::arithmetic::div_mod::lemma_fundamental_div_mod(v / w, 128);
            vstd::arithmetic::div_mod::lemma_div_denominator(v, w, 128);
            assert(pow(128, (index + 1) as nat) == 128 * w) by {
                reveal(pow);
            }
            vstd::arithmetic::div_mod::lemma_fundamental_div_mod_converse(
                v / w,
                128,
                be_value(quotient@) as int,
                digit as int,
            );
            assert(w * 128 == 128 * w) by (nonlinear_arith);
            vstd::arithmetic::power::lemma_pow_positive(128, (index + 1) as nat);
        }
        current = quotient;
        index += 1;
    }
    digits
}

/// The two row contributions of the digits of a state.
fn commitment_row_contribution_from_digits_v1(x_digits: &[u8; 75], y_digits: &[u8; 75]) -> (row: (u128, u128))
    ensures
        row.0 == row_sum_spec(
            x_digits@.map_values(|d: u8| d as nat),
            y_digits@.map_values(|d: u8| d as nat),
            DCM_AIR_REAL_STARK_COMMITMENT_ROW_OFFSET_0_V1 as int,
            DCM_AIR_REAL_STARK_COMMITMENT_X_BASE_0_V1 as int,
            DCM_AIR_REAL_STARK_COMMITMENT_Y_BASE_0_V1 as int,
            75,
        ),
        row.1 == row_sum_spec(
            x_digits@.map_values(|d: u8| d as nat),
            y_digits@.map_values(|d: u8| d as nat),
            DCM_AIR_REAL_STARK_COMMITMENT_ROW_OFFSET_1_V1 as int,
            DCM_AIR_REAL_STARK_COMMITMENT_X_BASE_1_V1 as int,
            DCM_AIR_REAL_STARK_COMMITMENT_Y_BASE_1_V1 as int,
            75,
        ),
{
    let ghost xs = x_digits@.map_values(|d: u8| d as nat);
    let ghost ys = y_digits@.map_values(|d: u8| d as nat);
    let x_base_lo = DCM_AIR_REAL_STARK_COMMITMENT_X_BASE_0_V1;
    let y_base_lo = DCM_AIR_REAL_STARK_COMMITMENT_Y_BASE_0_V1;
    let x_base_hi = DCM_AIR_REAL_STARK_COMMITMENT_X_BASE_1_V1;
    let y_base_hi = DCM_AIR_REAL_STARK_COMMITMENT_Y_BASE_1_V1;
    let mut acc_lo = stark_field_new(DCM_AIR_REAL_STARK_COMMITMENT_ROW_OFFSET_0_V1);
    let mut acc_hi = stark_field_new(DCM_AIR_REAL_STARK_COMMITMENT_ROW_OFFSET_1_V1);
    let mut x_power_lo: u128 = 1;
    let mut y_power_lo: u128 = 1;
    let mut x_power_hi: u128 = 1;
    let mut y_power_hi: u128 = 1;
    proof {
        vstd::arithmetic::power::lemma_pow0(131);
        vstd::arithmetic::power::lemma_pow0(137);
        vstd::arithmetic::power::lemma_pow0(149);
        vstd::arithmetic::power::lemma_pow0(151);
        lemma_small_mod(1, stark_modulus() as nat);
    }
    let mut index: usize = 0;
    while index < 75
        invariant
            0 <= index <= 75,
            xs == x_digits@.map_values(|d: u8| d as nat),
            ys == y_digits@.map_values(|d: u8| d as nat),
            acc_lo < stark_modulus(),
            acc_hi < stark_modulus(),
            x_base_lo == 131,
            y_base_lo == 137,
            x_base_hi == 149,
            y_base_hi == 151,
            x_power_lo < stark_modulus(),
            y_power_lo < stark_modulus(),
            x_power_hi < stark_modulus(),
            y_power_hi < stark_modulus(),
            acc_lo == row_sum_spec(xs, ys, DCM_AIR_REAL_STARK_COMMITMENT_ROW_OFFSET_0_V1 as int, 131, 137, index as nat),
            acc_hi == row_sum_spec(xs, ys, DCM_AIR_REAL_STARK_COMMITMENT_ROW_OFFSET_1_V1 as int, 149, 151, index as nat),
            x_power_lo == pow(131, index as nat) % stark_modulus(),
            y_power_lo == pow(137, index as nat) % stark_modulus(),
            x_power_hi == pow(149, index as nat) % stark_modulus(),
            y_power_hi == pow(151, index as nat) % stark_modulus(),
        decreases 75 - index,
    {
        let x_digit = stark_field_new(x_digits[index] as u128);
        let y_digit = stark_field_new(y_digits[index] as u128);
        proof {
            lemma_small_mod(x_digits@[index as int] as nat, stark_modulus() as nat);
            lemma_small_mod(y_digits@[index as int] as nat, stark_modulus() as nat);
            assert(xs[index as int] == x_digit);
            assert(ys[index as int] == y_digit);
        }
        let x_term_lo = stark_field_mul(x_digit, x_power_lo);
        let y_term_lo = stark_field_mul(y_digit, y_power_lo);
        let x_term_hi = stark_field_mul(x_digit, x_power_hi);
        let y_term_hi = stark_field_mul(y_digit, y_power_hi);
        let terms_lo = stark_field_add(x_term_lo, y_term_lo);
        let terms_hi = stark_field_add(x_term_hi, y_term_hi);
        let ghost old_lo = acc_lo;
        let ghost old_hi = acc_hi;
        acc_lo = stark_field_add(acc_lo, terms_lo);
        acc_hi = stark_field_add(acc_hi, terms_hi);
        proof {
            lemma_row_step(old_lo as int, x_digit as int, y_digit as int, 131, 137, index as nat);
            lemma_row_step(old_hi as int, x_digit as int, y_digit as int, 149, 151, index as nat);
        }
        proof {
            assert(131 < stark_modulus() && 137 < stark_modulus() && 149 < stark_modulus()
                && 151 < stark_modulus());
        }
        x_power_lo = stark_field_mul(x_power_lo, x_base_lo);
        y_power_lo = stark_field_mul(y_power_lo, y_base_lo);
        x_power_hi = stark_field_mul(x_power_hi, x_base_hi);
        y_power_hi = stark_field_mul(y_power_hi, y_base_hi);
        proof {
            lemma_power_step(131, index as nat);
            lemma_power_step(137, index as nat);
            lemma_power_step(149, index as nat);
            lemma_power_step(151, index as nat);
        }
        index += 1;
    }
    (acc_lo, acc_hi)
}

/// `pow(b, k + 1) mod M = ((pow(b, k) mod M) b) mod M`.
proof fn lemma_power_step(b: int, k: nat)
    requires
        b > 0,
    ensures
        pow(b, k + 1) % stark_modulus() == ((pow(b, k) % stark_modulus()) * b) % stark_modulus(),
{
    lemma_mul_mod_noop_left(pow(b, k), b, stark_modulus());
    assert(pow(b, k + 1) == b * pow(b, k)) by {
        reveal(pow);
    }
    assert(b * pow(b, k) == pow(b, k) * b) by (nonlinear_arith);
}

/// One digit step of the row sum, in the form the loop computes it.
proof fn lemma_row_step(acc: int, x: int, y: int, x_base: int, y_base: int, k: nat)
    requires
        0 <= acc < stark_modulus(),
        0 <= x,
        0 <= y,
        x_base > 0,
        y_base > 0,
    ensures
        (acc + ((x * (pow(x_base, k) % stark_modulus())) % stark_modulus() + (y * (pow(y_base, k)
            % stark_modulus())) % stark_modulus()) % stark_modulus()) % stark_modulus() == (acc + x
            * pow(x_base, k) + y * pow(y_base, k)) % stark_modulus(),
{
    let ghost m = stark_modulus();
    let px = pow(x_base, k);
    let py = pow(y_base, k);
    vstd::arithmetic::div_mod::lemma_mul_mod_noop_right(x, px, m);
    vstd::arithmetic::div_mod::lemma_mul_mod_noop_right(y, py, m);
    lemma_add_mod_noop(x * px, y * py, m);
    vstd::arithmetic::div_mod::lemma_add_mod_noop_right(acc, x * px + y * py, m);
}

/// The sponge seeded by the iteration count.
pub(crate) fn commitment_seed_v1(iteration_count: u64) -> (seed: (u128, u128))
    ensures
        (seed.0 as int, seed.1 as int) == commitment_seed_spec(iteration_count),
        seed.0 < stark_modulus(),
        seed.1 < stark_modulus(),
{
    let ghost m = stark_modulus();
    let iteration = stark_field_new(iteration_count as u128);
    let seed_0 = stark_field_new(DCM_AIR_REAL_STARK_COMMITMENT_SEED_0_V1);
    let seed_1 = stark_field_new(DCM_AIR_REAL_STARK_COMMITMENT_SEED_1_V1);
    let scale_0 = stark_field_new(DCM_AIR_REAL_STARK_COMMITMENT_ITERATION_SCALE_0_V1);
    let scale_1 = stark_field_new(DCM_AIR_REAL_STARK_COMMITMENT_ITERATION_SCALE_1_V1);
    let product_0 = stark_field_mul(iteration, scale_0);
    let product_1 = stark_field_mul(iteration, scale_1);
    proof {
        lemma_small_mod(iteration_count as nat, m as nat);
        lemma_small_mod(DCM_AIR_REAL_STARK_COMMITMENT_SEED_0_V1 as nat, m as nat);
        lemma_small_mod(DCM_AIR_REAL_STARK_COMMITMENT_SEED_1_V1 as nat, m as nat);
        lemma_small_mod(17, m as nat);
        lemma_small_mod(29, m as nat);
        vstd::arithmetic::div_mod::lemma_add_mod_noop_right(
            DCM_AIR_REAL_STARK_COMMITMENT_SEED_0_V1 as int,
            iteration_count * 17,
            m,
        );
        vstd::arithmetic::div_mod::lemma_add_mod_noop_right(
            DCM_AIR_REAL_STARK_COMMITMENT_SEED_1_V1 as int,
            iteration_count * 29,
            m,
        );
    }
    (stark_field_add(seed_0, product_0), stark_field_add(seed_1, product_1))
}

/// Absorbs one row into the sponge.
fn absorb_commitment_v1(previous: (u128, u128), row: (u128, u128)) -> (next: (u128, u128))
    requires
        previous.0 < stark_modulus(),
        previous.1 < stark_modulus(),
        row.0 < stark_modulus(),
        row.1 < stark_modulus(),
    ensures
        (next.0 as int, next.1 as int) == absorb_spec(
            (previous.0 as int, previous.1 as int),
            (row.0 as int, row.1 as int),
        ),
        next.0 < stark_modulus(),
        next.1 < stark_modulus(),
{
    let mix_0 = stark_field_new(DCM_AIR_REAL_STARK_COMMITMENT_MIX_0_V1);
    let mix_1 = stark_field_new(DCM_AIR_REAL_STARK_COMMITMENT_MIX_1_V1);
    let const_0 = stark_field_new(DCM_AIR_REAL_STARK_COMMITMENT_CONST_0_V1);
    let const_1 = stark_field_new(DCM_AIR_REAL_STARK_COMMITMENT_CONST_1_V1);
    let ghost m = stark_modulus();
    proof {
        lemma_small_mod(17, m as nat);
        lemma_small_mod(19, m as nat);
        lemma_small_mod(DCM_AIR_REAL_STARK_COMMITMENT_CONST_0_V1 as nat, m as nat);
        lemma_small_mod(DCM_AIR_REAL_STARK_COMMITMENT_CONST_1_V1 as nat, m as nat);
    }
    let a0 = stark_field_mul(previous.0, mix_0);
    let b0 = stark_field_mul(previous.1, previous.1);
    let c0 = stark_field_add(a0, b0);
    let d0 = stark_field_add(c0, row.0);
    let e0 = stark_field_add(d0, const_0);
    let a1 = stark_field_mul(previous.1, mix_1);
    let b1 = stark_field_mul(previous.0, previous.0);
    let c1 = stark_field_add(a1, b1);
    let d1 = stark_field_add(c1, row.1);
    let e1 = stark_field_add(d1, const_1);
    proof {
        lemma_sum4_mod(
            previous.0 * 17,
            previous.1 * previous.1,
            row.0 as int,
            DCM_AIR_REAL_STARK_COMMITMENT_CONST_0_V1 as int,
            m,
        );
        lemma_sum4_mod(
            previous.1 * 19,
            previous.0 * previous.0,
            row.1 as int,
            DCM_AIR_REAL_STARK_COMMITMENT_CONST_1_V1 as int,
            m,
        );
    }
    (e0, e1)
}

/// `((((p mod m + q mod m) mod m + r) mod m + s) mod m) = (p + q + r + s) mod m`
/// for reduced `r` and `s`.
proof fn lemma_sum4_mod(p: int, q: int, r: int, s: int, m: int)
    requires
        m > 0,
        0 <= r < m,
        0 <= s < m,
    ensures
        ((((p % m + q % m) % m + r) % m + s) % m) == (p + q + r + s) % m,
{
    lemma_add_mod_noop(p, q, m);
    lemma_add_mod_noop(p + q, r, m);
    lemma_add_mod_noop(p + q + r, s, m);
    lemma_small_mod(r as nat, m as nat);
    lemma_small_mod(s as nat, m as nat);
    lemma_mod_twice(p + q, m);
    lemma_mod_twice(p + q + r, m);
}

/// Absorbs one state into the sponge: its row contribution, then the mix.
pub(crate) fn absorb_commitment_from_state_v1(previous: (u128, u128), state: DcmState521V1) -> (next: (u128, u128))
    requires
        previous.0 < stark_modulus(),
        previous.1 < stark_modulus(),
    ensures
        (next.0 as int, next.1 as int) == absorb_spec(
            (previous.0 as int, previous.1 as int),
            row_contribution_spec(state.x.value(), state.y.value()),
        ),
        next.0 < stark_modulus(),
        next.1 < stark_modulus(),
{
    let x_digits = digits_le_from_field_element_v1(&state.x);
    let y_digits = digits_le_from_field_element_v1(&state.y);
    let row = commitment_row_contribution_from_digits_v1(&x_digits, &y_digits);
    proof {
        assert(x_digits@.map_values(|d: u8| d as nat) =~= digits_spec(state.x.value()));
        assert(y_digits@.map_values(|d: u8| d as nat) =~= digits_spec(state.y.value()));
        lemma_row_sum_bound(
            digits_spec(state.x.value()),
            digits_spec(state.y.value()),
            DCM_AIR_REAL_STARK_COMMITMENT_ROW_OFFSET_0_V1 as int,
            131,
            137,
            75,
        );
        lemma_row_sum_bound(
            digits_spec(state.x.value()),
            digits_spec(state.y.value()),
            DCM_AIR_REAL_STARK_COMMITMENT_ROW_OFFSET_1_V1 as int,
            149,
            151,
            75,
        );
    }
    absorb_commitment_v1(previous, row)
}

/// The two sponge elements after the sponge seeded by the iteration count
/// absorbs every state.
pub fn derive_dcm_air_commitment_root_elements_521_v1(iteration_count: u64, states: &[DcmState521V1]) -> (elements: (u128, u128))
    ensures
        (elements.0 as int, elements.1 as int) == commitment_elements_spec(iteration_count, states@),
        elements.0 < stark_modulus(),
        elements.1 < stark_modulus(),
{
    let mut elements = commitment_seed_v1(iteration_count);
    let mut index: usize = 0;
    proof {
        assert(states@.take(0).len() == 0);
    }
    while index < states.len()
        invariant
            0 <= index <= states@.len(),
            elements.0 < stark_modulus(),
            elements.1 < stark_modulus(),
            (elements.0 as int, elements.1 as int) == commitment_elements_spec(
                iteration_count,
                states@.take(index as int),
            ),
        decreases states@.len() - index,
    {
        let state = states[index];
        proof {
            assert(states@.take(index + 1).drop_last() =~= states@.take(index as int));
        }
        elements = absorb_commitment_from_state_v1(elements, state);
        index += 1;
    }
    proof {
        assert(states@.take(states@.len() as int) =~= states@);
    }
    elements
}

/// The commitment root of a cat-map trace: the sponge seeded by the
/// iteration count absorbs every state, and both elements are written in 16
/// little-endian bytes each.
pub fn derive_dcm_air_commitment_root_521_v1(config: &DcmConfig521V1, states: &[DcmState521V1]) -> (root: [u8; 32])
    ensures
        root@ == commitment_root_spec(config.iteration_count, states@),
{
    let elements = derive_dcm_air_commitment_root_elements_521_v1(config.iteration_count, states);
    let lo = crate::encoding_v1::u128_to_le_bytes(elements.0);
    let hi = crate::encoding_v1::u128_to_le_bytes(elements.1);
    let mut joined: Vec<u8> = Vec::new();
    append_bytes(&mut joined, &lo);
    append_bytes(&mut joined, &hi);
    let mut root = [0u8; 32];
    crate::encoding_v1::copy_range_into(&mut root, joined.as_slice(), 0);
    proof {
        crate::encoding_v1::lemma_le_bytes_len(elements.0 as nat, 16);
        crate::encoding_v1::lemma_le_bytes_len(elements.1 as nat, 16);
        assert(joined@.subrange(0, 32) =~= joined@);
    }
    root
}

/// Row sums are reduced.
proof fn lemma_row_sum_bound(xs: Seq<nat>, ys: Seq<nat>, offset: int, x_base: int, y_base: int, n: nat)
    ensures
        0 <= row_sum_spec(xs, ys, offset, x_base, y_base, n) < stark_modulus(),
{
}

} // verus!
