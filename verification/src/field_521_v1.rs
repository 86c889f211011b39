//! Deterministic 521-bit field element representation and arithmetic under the
//! Mersenne prime `2^521 - 1`: canonical fixed-width encoding, fail-closed
//! parsing, reduction of arbitrary bytes, addition, subtraction, multiplication
//! and squaring.

use vstd::prelude::*;
use crate::limbs_521_v1::{
    be_value, lemma_carry_split, lemma_limb_weight_pos, lemma_limb_weight_values,
    lemma_limbs_bound, lemma_limbs_common_suffix, lemma_limbs_take_all, lemma_limbs_take_step,
    lemma_limbs_update, lemma_top_limb_bound, lemma_limbs_all_ones, lemma_limb_weight_add,
    lemma_limbs_split, lemma_limbs_top_limb_le, lemma_limbs_all_zero, lemma_be_drop4, lemma_be_two,
    lemma_limbs_skip_step, lemma_be_injective, lemma_be_zero, lemma_limbs_single, limb_weight, limbs_value, p521, two_pow_521,
    be_bytes, lemma_be_bytes_of_value,
};

verus! {

pub const FIELD_ELEMENT_521_BYTE_LEN_V1: usize = 66;

pub const FIELD_ELEMENT_521_LIMB_COUNT_V1: usize = 17;

/// Canonical big-endian encoding of `2^521 - 1`.
pub const FIELD_MODULUS_521_V1: [u8; 66] = [0x01, 0xff, 0xff, 0xff, 0xff, 0xff, 0xff, 0xff, 0xff, 0xff, 0xff, 0xff, 0xff, 0xff, 0xff, 0xff, 0xff, 0xff, 0xff, 0xff, 0xff, 0xff, 0xff, 0xff, 0xff, 0xff, 0xff, 0xff, 0xff, 0xff, 0xff, 0xff, 0xff, 0xff, 0xff, 0xff, 0xff, 0xff, 0xff, 0xff, 0xff, 0xff, 0xff, 0xff, 0xff, 0xff, 0xff, 0xff, 0xff, 0xff, 0xff, 0xff, 0xff, 0xff, 0xff, 0xff, 0xff, 0xff, 0xff, 0xff, 0xff, 0xff, 0xff, 0xff, 0xff, 0xff];

/// Three-way comparison of two limb strings.
#[derive(Clone, Copy, Debug, PartialEq, Eq)]
pub(crate) enum LimbOrderV1 {
    Less,
    Equal,
    Greater,
}

/// The limbs of `2^521 - 1`.
pub(crate) fn modulus_limbs_521() -> (limbs: [u32; 17])
    ensures
        limbs_value(limbs@) == p521(),
{
    let limbs: [u32; 17] = [
        0xffff_ffff, 0xffff_ffff, 0xffff_ffff, 0xffff_ffff, 0xffff_ffff, 0xffff_ffff,
        0xffff_ffff, 0xffff_ffff, 0xffff_ffff, 0xffff_ffff, 0xffff_ffff, 0xffff_ffff,
        0xffff_ffff, 0xffff_ffff, 0xffff_ffff, 0xffff_ffff, 0x01ff,
    ];
    proof {
        lemma_limbs_all_ones(limbs@, 16);
        lemma_top_limb_bound(limbs@);
    }
    limbs
}

/// Compares two 17-limb strings by value, most significant limb first.
pub(crate) fn compare_limbs_le(lhs: &[u32; 17], rhs: &[u32; 17]) -> (order: LimbOrderV1)
    ensures
        order == LimbOrderV1::Less <==> limbs_value(lhs@) < limbs_value(rhs@),
        order == LimbOrderV1::Equal <==> limbs_value(lhs@) == limbs_value(rhs@),
        order == LimbOrderV1::Greater <==> limbs_value(lhs@) > limbs_value(rhs@),
{
    let mut index: usize = 17;
    while index > 0
        invariant
            0 <= index <= 17,
            forall|j: int| index <= j < 17 ==> lhs@[j] == rhs@[j],
        decreases index,
    {
        let i = index - 1;
        if lhs[i] < rhs[i] || lhs[i] > rhs[i] {
            proof {
                lemma_limbs_take_all(lhs@);
                lemma_limbs_take_all(rhs@);
                lemma_limbs_common_suffix(lhs@, rhs@, i as int, 17);
                lemma_limbs_take_step(lhs@, i as int);
                lemma_limbs_take_step(rhs@, i as int);
                lemma_limbs_bound(lhs@.take(i as int));
                lemma_limbs_bound(rhs@.take(i as int));
                let w = limb_weight(i as nat);
                assert(limbs_value(lhs@) - limbs_value(rhs@) == limbs_value(lhs@.take(i as int))
                    + lhs[i as int] * w - limbs_value(rhs@.take(i as int)) - rhs[i as int] * w);
                if lhs[i as int] < rhs[i as int] {
                    assert(lhs[i as int] * w + w <= rhs[i as int] * w) by (nonlinear_arith)
                        requires lhs[i as int] + 1 <= rhs[i as int], w >= 0;
                } else {
                    assert(rhs[i as int] * w + w <= lhs[i as int] * w) by (nonlinear_arith)
                        requires rhs[i as int] + 1 <= lhs[i as int], w >= 0;
                }
            }
            if lhs[i] < rhs[i] {
                return LimbOrderV1::Less;
            } else {
                return LimbOrderV1::Greater;
            }
        }
        index = i;
    }
    proof {
        assert(lhs@ =~= rhs@);
    }
    LimbOrderV1::Equal
}

/// Adds two limb strings whose sum fits in 17 limbs.
pub(crate) fn add_limbs_521(lhs: &[u32; 17], rhs: &[u32; 17]) -> (sum: [u32; 17])
    requires
        limbs_value(lhs@) + limbs_value(rhs@) < limb_weight(17),
    ensures
        limbs_value(sum@) == limbs_value(lhs@) + limbs_value(rhs@),
{
    let mut sum = [0u32; 17];
    let mut carry: u64 = 0;
    let mut index: usize = 0;
    while index < 17
        invariant
            0 <= index <= 17,
            carry <= 1,
            limbs_value(sum@.take(index as int)) + carry * limb_weight(index as nat)
                == limbs_value(lhs@.take(index as int)) + limbs_value(rhs@.take(index as int)),
        decreases 17 - index,
    {
        let total: u64 = lhs[index] as u64 + rhs[index] as u64 + carry;
        let ghost old_sum = sum@;
        let ghost old_carry = carry;
        sum[index] = (total % 0x1_0000_0000) as u32;
        carry = total / 0x1_0000_0000;
        proof {
            assert(sum@.take(index as int) =~= old_sum.take(index as int));
            lemma_limbs_take_step(sum@, index as int);
            lemma_limbs_take_step(lhs@, index as int);
            lemma_limbs_take_step(rhs@, index as int);
            lemma_carry_split(total as int, limb_weight(index as nat) as int);
            assert(limb_weight((index + 1) as nat) == 0x1_0000_0000 * limb_weight(index as nat));
            assert(total * limb_weight(index as nat) == lhs[index as int] * limb_weight(
                index as nat,
            ) + rhs[index as int] * limb_weight(index as nat) + old_carry * limb_weight(
                index as nat,
            )) by (nonlinear_arith)
                requires total == lhs[index as int] + rhs[index as int] + old_carry;
        }
        index += 1;
    }
    proof {
        lemma_limbs_take_all(sum@);
        lemma_limbs_take_all(lhs@);
        lemma_limbs_take_all(rhs@);
        lemma_limb_weight_pos(17);
        if carry == 1 {
            assert(false);
        }
    }
    sum
}


/// Subtracts `rhs` from `lhs`, which must not be smaller.
pub(crate) fn subtract_limbs_once(lhs: &[u32; 17], rhs: &[u32; 17]) -> (output: [u32; 17])
    requires
        limbs_value(lhs@) >= limbs_value(rhs@),
    ensures
        limbs_value(output@) == limbs_value(lhs@) - limbs_value(rhs@),
{
    let mut output = [0u32; 17];
    let mut borrow: u64 = 0;
    let mut index: usize = 0;
    while index < 17
        invariant
            0 <= index <= 17,
            borrow <= 1,
            limbs_value(output@.take(index as int)) - borrow * limb_weight(index as nat)
                == limbs_value(lhs@.take(index as int)) - limbs_value(rhs@.take(index as int)),
        decreases 17 - index,
    {
        let subtrahend: u64 = rhs[index] as u64 + borrow;
        let minuend: u64 = lhs[index] as u64;
        let ghost old_output = output@;
        let ghost old_borrow = borrow;
        if minuend >= subtrahend {
            output[index] = (minuend - subtrahend) as u32;
            borrow = 0;
        } else {
            output[index] = (0x1_0000_0000u64 + minuend - subtrahend) as u32;
            borrow = 1;
        }
        proof {
            let w = limb_weight(index as nat);
            assert(output@.take(index as int) =~= old_output.take(index as int));
            lemma_limbs_take_step(output@, index as int);
            lemma_limbs_take_step(lhs@, index as int);
            lemma_limbs_take_step(rhs@, index as int);
            assert(limb_weight((index + 1) as nat) == 0x1_0000_0000 * w);
            assert(output@[index as int] * w - borrow * (0x1_0000_0000 * w) == lhs@[index as int]
                * w - rhs@[index as int] * w - old_borrow * w) by (nonlinear_arith)
                requires
                    output@[index as int] - borrow * 0x1_0000_0000 == lhs@[index as int]
                        - rhs@[index as int] - old_borrow,
            ;
        }
        index += 1;
    }
    proof {
        lemma_limbs_take_all(output@);
        lemma_limbs_take_all(lhs@);
        lemma_limbs_take_all(rhs@);
        lemma_limbs_bound(output@);
        if borrow == 1 {
            assert(false);
        }
    }
    output
}

/// Adds a small value into a limb string, propagating the carry upward.
fn add_small_to_limbs_521(value: &mut [u32; 17], addend: u32)
    requires
        limbs_value(old(value)@) + addend < limb_weight(17),
    ensures
        limbs_value(final(value)@) == limbs_value(old(value)@) + addend,
{
    let mut carry_add: u64 = addend as u64;
    let mut index: usize = 0;
    assert(limb_weight(0) == 1);
    while index < 17
        invariant
            0 <= index <= 17,
            carry_add <= 0xffff_ffff,
            limbs_value(value@) + carry_add * limb_weight(index as nat) == limbs_value(old(value)@)
                + addend,
            limbs_value(old(value)@) + addend < limb_weight(17),
        ensures
            carry_add == 0 || index == 17,
        decreases 17 - index,
    {
        if carry_add == 0 {
            break;
        }
        let total: u64 = value[index] as u64 + carry_add;
        let ghost before = value@;
        let ghost old_carry = carry_add;
        value[index] = (total % 0x1_0000_0000) as u32;
        carry_add = total / 0x1_0000_0000;
        proof {
            let w = limb_weight(index as nat);
            lemma_limbs_update(before, index as int, value@[index as int]);
            assert(value@ =~= before.update(index as int, value@[index as int]));
            lemma_carry_split(total as int, w as int);
            assert(limb_weight((index + 1) as nat) == 0x1_0000_0000 * w);
            assert(total * w == before[index as int] * w + old_carry * w) by (nonlinear_arith)
                requires total == before[index as int] + old_carry;
            assert((value@[index as int] - before[index as int]) * w == value@[index as int] * w
                - before[index as int] * w) by (nonlinear_arith);
        }
        index += 1;
    }
    proof {
        if carry_add > 0 {
            lemma_limbs_bound(value@);
            lemma_limb_weight_pos(17);
            assert(carry_add * limb_weight(17) >= limb_weight(17)) by (nonlinear_arith)
                requires carry_add >= 1;
        }
        assert(carry_add == 0);
        assert(carry_add * limb_weight(index as nat) == 0);
    }
}

/// Folds the bits above position 521 back into the low part (using
/// `2^521 = 1` modulo the prime) and subtracts the modulus until canonical.
pub(crate) fn reduce_folded_521(value: [u32; 17]) -> (reduced: [u32; 17])
    ensures
        limbs_value(reduced@) == limbs_value(value@) % p521(),
        limbs_value(reduced@) < p521(),
{
    let mut value = value;
    let ghost initial_value = limbs_value(value@);
    proof {
        lemma_limb_weight_values();
    }
    loop
        invariant
            limbs_value(value@) % p521() == initial_value % p521(),
            limb_weight(16) * 512 == two_pow_521(),
            two_pow_521() > 1,
        ensures
            limbs_value(value@) % p521() == initial_value % p521(),
            limbs_value(value@) < two_pow_521(),
        decreases limbs_value(value@),
    {
        let carry: u32 = value[16] / 512;
        let ghost before = value@;
        value[16] = value[16] % 512;
        proof {
            lemma_limbs_update(before, 16, value@[16]);
            assert(value@ =~= before.update(16, value@[16]));
            assert(limbs_value(value@) == limbs_value(before) - carry * two_pow_521())
                by (nonlinear_arith)
                requires
                    limbs_value(value@) as int == limbs_value(before) as int + (value@[16] as int
                        - before[16] as int) * limb_weight(16),
                    before[16] == carry * 512 + value@[16],
                    limb_weight(16) * 512 == two_pow_521(),
            ;
            lemma_top_limb_bound(value@);
        }
        if carry == 0 {
            break;
        }
        proof {
            lemma_limb_weight_pos(16);
            assert(limb_weight(17) == 0x1_0000_0000 * limb_weight(16));
        }
        let ghost masked = limbs_value(value@);
        add_small_to_limbs_521(&mut value, carry);
        proof {
            let p = p521() as int;
            assert(carry * two_pow_521() - carry == carry * p) by (nonlinear_arith)
                requires p == two_pow_521() - 1;
            assert(limbs_value(value@) == limbs_value(before) - carry * p);
            vstd::arithmetic::div_mod::lemma_mod_multiples_vanish(
                -(carry as int),
                limbs_value(before) as int,
                p,
            );
            assert(-(carry as int) * p + limbs_value(before) == limbs_value(before) - carry * p)
                by (nonlinear_arith);
            assert(carry * p >= p) by (nonlinear_arith) requires carry >= 1, p >= 1;
        }
    }
    let modulus = modulus_limbs_521();
    loop
        invariant
            limbs_value(value@) % p521() == initial_value % p521(),
            limbs_value(value@) < two_pow_521(),
            limbs_value(modulus@) == p521(),
            two_pow_521() > 1,
        ensures
            limbs_value(value@) % p521() == initial_value % p521(),
            limbs_value(value@) < p521(),
        decreases limbs_value(value@),
    {
        match compare_limbs_le(&value, &modulus) {
            LimbOrderV1::Less => {
                break;
            },
            _ => {
                let ghost before = limbs_value(value@);
                value = subtract_limbs_once(&value, &modulus);
                proof {
                    vstd::arithmetic::div_mod::lemma_mod_sub_multiples_vanish(
                        before as int,
                        p521() as int,
                    );
                }
            },
        }
    }
    proof {
        vstd::arithmetic::div_mod::lemma_small_mod(limbs_value(value@), p521());
    }
    value
}

/// Adds two reduced-width limb strings modulo `2^521 - 1`.
pub(crate) fn add_modulus_521(lhs: &[u32; 17], rhs: &[u32; 17]) -> (sum: [u32; 17])
    requires
        limbs_value(lhs@) < two_pow_521(),
        limbs_value(rhs@) < two_pow_521(),
    ensures
        limbs_value(sum@) == (limbs_value(lhs@) + limbs_value(rhs@)) % p521(),
        limbs_value(sum@) < p521(),
{
    proof {
        lemma_limb_weight_values();
        reveal_with_fuel(limb_weight, 18);
    }
    let total = add_limbs_521(lhs, rhs);
    reduce_folded_521(total)
}


/// Schoolbook product of two 17-limb strings into 34 limbs.
pub(crate) fn multiply_limbs_521(lhs: &[u32; 17], rhs: &[u32; 17]) -> (product: [u32; 34])
    ensures
        limbs_value(product@) == limbs_value(lhs@) * limbs_value(rhs@),
{
    let mut product = [0u32; 34];
    proof {
        assert(product@ =~= Seq::new(34, |k: int| 0u32));
        lemma_limbs_all_zero(product@, 34);
        lemma_limbs_take_all(product@);
        assert(lhs@.take(0).len() == 0);
    }
    let mut lhs_index: usize = 0;
    while lhs_index < 17
        invariant
            0 <= lhs_index <= 17,
            limbs_value(product@) == limbs_value(lhs@.take(lhs_index as int)) * limbs_value(rhs@),
            forall|k: int| lhs_index + 17 <= k < 34 ==> product@[k] == 0,
        decreases 17 - lhs_index,
    {
        let factor: u64 = lhs[lhs_index] as u64;
        let mut carry: u64 = 0;
        let mut rhs_index: usize = 0;
        let ghost base = limbs_value(lhs@.take(lhs_index as int)) * limbs_value(rhs@);
        let ghost wi = limb_weight(lhs_index as nat);
        proof {
            assert(rhs@.take(0).len() == 0);
            assert(limbs_value(rhs@.take(0)) == 0);
            assert(limb_weight((lhs_index + 0) as nat) == wi);
        }
        while rhs_index < 17
            invariant
                0 <= lhs_index < 17,
                0 <= rhs_index <= 17,
                factor == lhs@[lhs_index as int],
                factor <= 0xffff_ffff,
                carry <= 0xffff_ffff,
                wi == limb_weight(lhs_index as nat),
                limbs_value(product@) + carry * limb_weight((lhs_index + rhs_index) as nat) == base
                    + factor * limbs_value(rhs@.take(rhs_index as int)) * wi,
                forall|k: int| lhs_index + 17 <= k < 34 ==> product@[k] == 0,
            decreases 17 - rhs_index,
        {
            let k = lhs_index + rhs_index;
            let digit: u64 = rhs[rhs_index] as u64;
            proof {
                assert(factor * digit <= 0xffff_ffff * 0xffff_ffff) by (nonlinear_arith)
                    requires factor <= 0xffff_ffff, digit <= 0xffff_ffff;
            }
            let total: u64 = product[k] as u64 + factor * digit + carry;
            let ghost before = product@;
            let ghost old_carry = carry;
            product[k] = (total % 0x1_0000_0000) as u32;
            carry = total / 0x1_0000_0000;
            proof {
                let w = limb_weight(k as nat);
                let wj = limb_weight(rhs_index as nat);
                lemma_limbs_update(before, k as int, product@[k as int]);
                assert(product@ =~= before.update(k as int, product@[k as int]));
                lemma_carry_split(total as int, w as int);
                assert(limb_weight((k + 1) as nat) == 0x1_0000_0000 * w);
                lemma_limbs_take_step(rhs@, rhs_index as int);
                lemma_limb_weight_add(lhs_index as nat, rhs_index as nat);
                assert(w == wi * wj);
                assert(total * w == before[k as int] * w + factor * digit * w + old_carry * w)
                    by (nonlinear_arith)
                    requires total == before[k as int] + factor * digit + old_carry;
                assert((product@[k as int] - before[k as int]) * w == product@[k as int] * w
                    - before[k as int] * w) by (nonlinear_arith);
                assert(factor * (limbs_value(rhs@.take(rhs_index as int)) + digit * wj) * wi
                    == factor * limbs_value(rhs@.take(rhs_index as int)) * wi + factor * digit * w)
                    by (nonlinear_arith)
                    requires w == wi * wj;
            }
            rhs_index += 1;
        }
        let top = lhs_index + 17;
        let ghost before = product@;
        product[top] = carry as u32;
        proof {
            lemma_limbs_update(before, top as int, carry as u32);
            assert(product@ =~= before.update(top as int, carry as u32));
            lemma_limbs_take_all(rhs@);
            lemma_limbs_take_step(lhs@, lhs_index as int);
            assert((limbs_value(lhs@.take(lhs_index as int)) + factor * wi) * limbs_value(rhs@)
                == base + factor * limbs_value(rhs@) * wi) by (nonlinear_arith)
                requires base == limbs_value(lhs@.take(lhs_index as int)) * limbs_value(rhs@);
        }
        lhs_index += 1;
    }
    proof {
        lemma_limbs_take_all(lhs@);
    }
    product
}

/// Reduces a 34-limb product of two reduced values modulo `2^521 - 1`:
/// the value is split at bit 521 into `low + 2^521 * high`, and `2^521 = 1`.
pub(crate) fn reduce_product_modulus_521(product: &[u32; 34]) -> (reduced: [u32; 17])
    requires
        limbs_value(product@) < two_pow_521() * two_pow_521(),
    ensures
        limbs_value(reduced@) == limbs_value(product@) % p521(),
        limbs_value(reduced@) < p521(),
{
    let ghost q = product@.skip(16);
    let mut low = [0u32; 17];
    let mut index: usize = 0;
    while index < 16
        invariant
            0 <= index <= 16,
            forall|k: int| 0 <= k < index ==> low@[k] == product@[k],
        decreases 16 - index,
    {
        low[index] = product[index];
        index += 1;
    }
    low[16] = product[16] % 512;
    proof {
        assert(low@.take(16) =~= product@.take(16));
        lemma_top_limb_bound(low@);
        lemma_limb_weight_values();
    }

    let mut high = [0u32; 17];
    let mut index: usize = 0;
    proof {
        assert(q.take(1) =~= seq![q[0]]);
        lemma_limbs_single(q.take(1));
        assert(limb_weight(0) == 1);
        assert(high@.take(0).len() == 0);
        assert(limbs_value(high@.take(0)) == 0);
        assert(q[0] == q[0] % 512 + 512 * (q[0] / 512));
    }
    while index < 17
        invariant
            0 <= index <= 17,
            q == product@.skip(16),
            q.len() == 18,
            limbs_value(q.take(index as int + 1)) == q[0] % 512 + 512 * limbs_value(
                high@.take(index as int),
            ) + 512 * limb_weight(index as nat) * (q[index as int] / 512),
        decreases 17 - index,
    {
        let lower: u32 = product[index + 16] / 512;
        let upper: u32 = (product[index + 17] % 512) * 0x80_0000;
        let ghost before = high@;
        high[index] = lower + upper;
        proof {
            let w = limb_weight(index as nat);
            let qi = q[index as int];
            let qn = q[index as int + 1];
            assert(high@.take(index as int) =~= before.take(index as int));
            lemma_limbs_take_step(high@, index as int);
            lemma_limbs_take_step(q, index as int + 1);
            assert(limb_weight((index + 1) as nat) == 0x1_0000_0000 * w);
            assert(512 * w * (qi / 512) + qn * (0x1_0000_0000 * w) == 512 * ((qi / 512 + (qn % 512)
                * 0x80_0000) * w) + 512 * (0x1_0000_0000 * w) * (qn / 512)) by (nonlinear_arith)
                requires qn == 512 * (qn / 512) + qn % 512;
        }
        index += 1;
    }
    proof {
        let wp = limb_weight(16);
        assert(q.take(18) =~= q);
        lemma_limbs_take_all(high@);
        lemma_limbs_split(product@, 16);
        lemma_limbs_take_step(low@, 16);
        lemma_limbs_take_all(low@);
        lemma_limbs_top_limb_le(product@);
        assert(limb_weight(33) == limb_weight(16) * limb_weight(17)) by {
            lemma_limb_weight_add(16, 17);
        }
        assert(limb_weight(17) == 0x1_0000_0000 * limb_weight(16));
        assert(two_pow_521() * two_pow_521() < limb_weight(33)) by (nonlinear_arith)
            requires
                two_pow_521() == limb_weight(16) * 512,
                limb_weight(33) == limb_weight(16) * (0x1_0000_0000 * limb_weight(16)),
                limb_weight(16) >= 1,
        ;
        if product@[33] > 0 {
            assert(product@[33] * limb_weight(33) >= limb_weight(33)) by (nonlinear_arith)
                requires product@[33] >= 1;
        }
        assert(q[17] == 0);
        let h = limbs_value(high@);
        let l = limbs_value(low@);
        assert(limbs_value(product@) == l + two_pow_521() * h) by (nonlinear_arith)
            requires
                limbs_value(product@) == limbs_value(product@.take(16)) + wp * limbs_value(q),
                limbs_value(q) == q[0] % 512 + 512 * h,
                l == limbs_value(product@.take(16)) + (q[0] % 512) * wp,
                two_pow_521() == wp * 512,
        ;
        assert(h < two_pow_521()) by (nonlinear_arith)
            requires
                limbs_value(product@) == l + two_pow_521() * h,
                limbs_value(product@) < two_pow_521() * two_pow_521(),
                two_pow_521() > 0,
        ;
        let p = p521() as int;
        vstd::arithmetic::div_mod::lemma_mod_multiples_vanish(h as int, (l + h) as int, p);
        assert(p * h + (l + h) == l + two_pow_521() * h) by (nonlinear_arith)
            requires p == two_pow_521() - 1;
    }
    add_modulus_521(&low, &high)
}


/// Splits 66 big-endian bytes into 17 little-endian 32-bit limbs (the top
/// limb holds the first two bytes).
pub(crate) fn bytes_to_limbs_le(bytes: &[u8; 66]) -> (limbs: [u32; 17])
    ensures
        limbs_value(limbs@) == be_value(bytes@),
        limbs@[16] == bytes@[0] * 256 + bytes@[1],
{
    let mut limbs = [0u32; 17];
    let mut limb_index: usize = 0;
    proof {
        assert(bytes@.take(66) =~= bytes@);
        assert(limbs@.take(0).len() == 0);
        assert(limbs_value(limbs@.take(0)) == 0);
        assert(limb_weight(0) == 1);
    }
    while limb_index < 16
        invariant
            0 <= limb_index <= 16,
            be_value(bytes@) == limbs_value(limbs@.take(limb_index as int)) + limb_weight(
                limb_index as nat,
            ) * be_value(bytes@.take(66 - 4 * limb_index)),
        decreases 16 - limb_index,
    {
        let end = 66 - 4 * limb_index;
        let limb: u32 = bytes[end - 4] as u32 * 0x100_0000 + bytes[end - 3] as u32 * 0x1_0000
            + bytes[end - 2] as u32 * 0x100 + bytes[end - 1] as u32;
        let ghost before = limbs@;
        limbs[limb_index] = limb;
        proof {
            let w = limb_weight(limb_index as nat);
            let t = bytes@.take(end as int);
            lemma_be_drop4(t);
            assert(t.take(end - 4) =~= bytes@.take(end - 4));
            assert(limbs@.take(limb_index as int) =~= before.take(limb_index as int));
            lemma_limbs_take_step(limbs@, limb_index as int);
            assert(limb_weight((limb_index + 1) as nat) == 0x1_0000_0000 * w);
            assert(w * (be_value(bytes@.take(end - 4)) * 0x1_0000_0000 + limb) == limb * w + (
            0x1_0000_0000 * w) * be_value(bytes@.take(end - 4))) by (nonlinear_arith);
        }
        limb_index += 1;
    }
    let top: u32 = bytes[0] as u32 * 256 + bytes[1] as u32;
    let ghost before_top = limbs@;
    limbs[16] = top;
    proof {
        assert(limbs@.take(16) =~= before_top.take(16));
        assert(bytes@.take(66 - 4 * 16) =~= bytes@.take(2));
        lemma_be_two(bytes@.take(2));
        lemma_limbs_take_step(limbs@, 16);
        assert(limbs@.take(16) =~= limbs@.take(17).take(16));
        lemma_limbs_take_all(limbs@);
        assert(limb_weight(16) * top == top * limb_weight(16)) by (nonlinear_arith);
        assert(be_value(bytes@) == limbs_value(limbs@.take(16)) + limb_weight(16) * be_value(
            bytes@.take(2),
        ));
        assert(limbs_value(limbs@.take(17)) == limbs_value(limbs@.take(16)) + limbs@[16]
            * limb_weight(16));
    }
    limbs
}

/// Writes 17 limbs whose top limb is below `2^9` as 66 big-endian bytes.
pub(crate) fn limbs_to_bytes_be(limbs: &[u32; 17]) -> (bytes: [u8; 66])
    requires
        limbs@[16] < 512,
    ensures
        be_value(bytes@) == limbs_value(limbs@),
        bytes@[0] <= 1,
{
    let mut bytes = [0u8; 66];
    let top = limbs[16];
    bytes[0] = (top / 256) as u8;
    bytes[1] = (top % 256) as u8;
    proof {
        lemma_be_two(bytes@.take(2));
        lemma_limbs_single(limbs@.skip(16));
    }
    let mut step: usize = 0;
    while step < 16
        invariant
            0 <= step <= 16,
            be_value(bytes@.take(2 + 4 * step)) == limbs_value(limbs@.skip(16 - step)),
            bytes@[0] <= 1,
        decreases 16 - step,
    {
        let limb = limbs[15 - step];
        let start = 2 + 4 * step;
        let ghost before = bytes@;
        bytes[start] = (limb / 0x100_0000) as u8;
        bytes[start + 1] = ((limb / 0x1_0000) % 256) as u8;
        bytes[start + 2] = ((limb / 0x100) % 256) as u8;
        bytes[start + 3] = (limb % 256) as u8;
        proof {
            assert(limb == (limb / 0x100_0000) * 0x100_0000 + ((limb / 0x1_0000) % 256) * 0x1_0000
                + ((limb / 0x100) % 256) * 0x100 + limb % 256) by (bit_vector);
            let t = bytes@.take(start + 4);
            lemma_be_drop4(t);
            assert(t.take(start as int) =~= before.take(start as int));
            assert(bytes@.take(start as int) =~= before.take(start as int));
            lemma_limbs_skip_step(limbs@, 15 - step as int);
        }
        step += 1;
    }
    proof {
        assert(bytes@.take(66) =~= bytes@);
        assert(limbs@.skip(0) =~= limbs@);
    }
    bytes
}


/// An element of the field of integers modulo `2^521 - 1`, held as its
/// canonical 66-byte big-endian encoding.
#[derive(Clone, Copy, Debug, PartialEq, Eq)]
pub struct FieldElement521V1 {
    bytes: [u8; 66],
}

/// Why a 66-byte string is not a canonical field element.
#[derive(Clone, Copy, Debug, PartialEq, Eq, Structural)]
pub enum FieldElementErrorV1 {
    InvalidTopBits,
    ValueOutOfRange,
    NonCanonicalEncoding,
}

/// The error `from_bytes` reports for a 66-byte string, if any.
pub open spec fn fe_decode_error(bytes: Seq<u8>) -> Option<FieldElementErrorV1> {
    if bytes[0] >= 2 {
        Some(FieldElementErrorV1::InvalidTopBits)
    } else if be_value(bytes) >= p521() {
        Some(FieldElementErrorV1::ValueOutOfRange)
    } else {
        None
    }
}

/// The canonical encoding of a value: 66 bytes, big-endian.
pub open spec fn fe_encoding_spec(value: nat) -> Seq<u8> {
    be_bytes(value, 66)
}

impl View for FieldElement521V1 {
    type V = Seq<u8>;

    /// The canonical 66-byte encoding.
    closed spec fn view(&self) -> Seq<u8> {
        self.bytes@
    }
}

impl FieldElement521V1 {
    /// Every element is a 66-byte encoding of an integer below the modulus.
    #[verifier::type_invariant]
    pub open spec fn is_canonical(self) -> bool {
        self@.len() == 66 && be_value(self@) < p521()
    }

    /// The value in the field.
    pub open spec fn value(self) -> nat {
        be_value(self@)
    }

    fn from_limbs(limbs: &[u32; 17]) -> (element: Self)
        requires
            limbs_value(limbs@) < p521(),
        ensures
            element.value() == limbs_value(limbs@),
    {
        proof {
            lemma_top_limb_bound(limbs@);
            lemma_limb_weight_values();
        }
        Self { bytes: limbs_to_bytes_be(limbs) }
    }

    fn to_limbs(&self) -> (limbs: [u32; 17])
        ensures
            limbs_value(limbs@) == self.value(),
            limbs_value(limbs@) < p521(),
            limbs_value(limbs@) < two_pow_521(),
    {
        proof {
            use_type_invariant(self);
            lemma_limb_weight_pos(16);
        }
        bytes_to_limbs_le(&self.bytes)
    }

    pub fn zero() -> (element: Self)
        ensures
            element.value() == 0,
    {
        let bytes = [0u8; 66];
        proof {
            lemma_be_zero(bytes@);
            lemma_limb_weight_values();
        }
        Self { bytes }
    }

    pub fn one() -> (element: Self)
        ensures
            element.value() == 1,
    {
        Self::from_u64(1)
    }

    /// The element whose value is `value`, in the low eight bytes.
    pub fn from_u64(value: u64) -> (element: Self)
        ensures
            element.value() == value,
    {
        let mut limbs = [0u32; 17];
        limbs[0] = (value % 0x1_0000_0000) as u32;
        limbs[1] = (value / 0x1_0000_0000) as u32;
        proof {
            lemma_limbs_all_zero(limbs@.skip(2), 15);
            assert(limbs@.skip(2).take(15) =~= limbs@.skip(2));
            lemma_limbs_skip_step(limbs@, 0);
            lemma_limbs_skip_step(limbs@, 1);
            assert(limbs@.skip(0) =~= limbs@);
            lemma_limb_weight_values();
        }
        Self::from_limbs(&limbs)
    }

    /// Reads arbitrary bytes as a big-endian integer and reduces it modulo
    /// `2^521 - 1`.
    pub fn reduce_bytes_mod(bytes: &[u8]) -> (element: Self)
        ensures
            element.value() == be_value(bytes@) % p521(),
    {
        let radix = Self::from_u64(256);
        let mut reduced = Self::zero();
        let mut index: usize = 0;
        proof {
            lemma_limb_weight_values();
            assert(bytes@.take(0).len() == 0);
        }
        while index < bytes.len()
            invariant
                0 <= index <= bytes@.len(),
                radix.value() == 256,
                reduced.value() == be_value(bytes@.take(index as int)) % p521(),
                p521() > 256,
            decreases bytes@.len() - index,
        {
            let byte = Self::from_u64(bytes[index] as u64);
            let ghost prior = reduced.value();
            reduced = reduced.mul_mod(&radix).add_mod(&byte);
            proof {
                let p = p521() as int;
                let x = be_value(bytes@.take(index as int)) as int;
                let b = bytes@[index as int] as int;
                assert(bytes@.take(index + 1).drop_last() =~= bytes@.take(index as int));
                assert(be_value(bytes@.take(index + 1)) == x * 256 + b);
                vstd::arithmetic::div_mod::lemma_mul_mod_noop_left(x, 256, p);
                vstd::arithmetic::div_mod::lemma_add_mod_noop((x * 256) as int, b, p);
                vstd::arithmetic::div_mod::lemma_small_mod(b as nat, p as nat);
                vstd::arithmetic::div_mod::lemma_mod_twice(x * 256, p);
                vstd::arithmetic::div_mod::lemma_mod_mod(x * 256, p, 1);
            }
            index += 1;
        }
        proof {
            assert(bytes@.take(bytes@.len() as int) =~= bytes@);
        }
        reduced
    }

    /// Parses a canonical 66-byte encoding: the top seven bits must be clear
    /// and the value must be below the modulus.
    pub fn from_bytes(input: [u8; 66]) -> (result: Result<Self, FieldElementErrorV1>)
        ensures
            input@[0] >= 2 ==> result == Err::<Self, FieldElementErrorV1>(
                FieldElementErrorV1::InvalidTopBits,
            ),
            input@[0] < 2 && be_value(input@) >= p521() ==> result == Err::<
                Self,
                FieldElementErrorV1,
            >(FieldElementErrorV1::ValueOutOfRange),
            input@[0] < 2 && be_value(input@) < p521() ==> (result matches Ok(e) && e@ == input@),
    {
        if input[0] >= 2 {
            return Err(FieldElementErrorV1::InvalidTopBits);
        }
        let limbs = bytes_to_limbs_le(&input);
        proof {
            assert(input@[0] * 256 + input@[1] < 512) by (nonlinear_arith)
                requires input@[0] <= 1, input@[1] < 256;
        }
        let canonical = limbs_to_bytes_be(&limbs);
        let mut index: usize = 0;
        while index < 66
            invariant
                0 <= index <= 66,
                forall|j: int| 0 <= j < index ==> input@[j] == canonical@[j],
                be_value(canonical@) == be_value(input@),
            decreases 66 - index,
        {
            if input[index] != canonical[index] {
                proof {
                    lemma_be_injective(input@, canonical@);
                }
                return Err(FieldElementErrorV1::NonCanonicalEncoding);
            }
            index += 1;
        }
        let modulus = modulus_limbs_521();
        match compare_limbs_le(&limbs, &modulus) {
            LimbOrderV1::Less => Ok(Self { bytes: input }),
            _ => Err(FieldElementErrorV1::ValueOutOfRange),
        }
    }

    /// The canonical encoding.
    pub fn to_bytes(&self) -> (bytes: [u8; 66])
        ensures
            bytes@ == self@,
    {
        self.bytes
    }

    pub fn is_zero(&self) -> (zero: bool)
        ensures
            zero == (self.value() == 0),
    {
        proof {
            lemma_be_zero(self@);
        }
        let mut index: usize = 0;
        while index < 66
            invariant
                0 <= index <= 66,
                self@.len() == 66,
                self@ == self.bytes@,
                forall|j: int| 0 <= j < index ==> self@[j] == 0,
            decreases 66 - index,
        {
            if self.bytes[index] != 0 {
                proof {
                    lemma_be_zero(self@);
                }
                return false;
            }
            index += 1;
        }
        true
    }

    /// `(self + rhs) mod (2^521 - 1)`.
    pub fn add_mod(&self, rhs: &Self) -> (sum: Self)
        ensures
            sum.value() == (self.value() + rhs.value()) % p521(),
    {
        let lhs_limbs = self.to_limbs();
        let rhs_limbs = rhs.to_limbs();
        let reduced = add_modulus_521(&lhs_limbs, &rhs_limbs);
        Self::from_limbs(&reduced)
    }

    /// `(self - rhs) mod (2^521 - 1)`, always in `[0, 2^521 - 1)`.
    pub fn sub_mod(&self, rhs: &Self) -> (difference: Self)
        ensures
            difference.value() == (self.value() - rhs.value()) % (p521() as int),
    {
        let lhs_limbs = self.to_limbs();
        let rhs_limbs = rhs.to_limbs();
        let ghost a = self.value() as int;
        let ghost b = rhs.value() as int;
        let ghost p = p521() as int;
        let reduced = match compare_limbs_le(&lhs_limbs, &rhs_limbs) {
            LimbOrderV1::Less => {
                let delta = subtract_limbs_once(&rhs_limbs, &lhs_limbs);
                let modulus = modulus_limbs_521();
                let r = subtract_limbs_once(&modulus, &delta);
                proof {
                    vstd::arithmetic::div_mod::lemma_mod_add_multiples_vanish(a - b, p);
                    vstd::arithmetic::div_mod::lemma_small_mod((a - b + p) as nat, p as nat);
                }
                r
            },
            _ => {
                let r = subtract_limbs_once(&lhs_limbs, &rhs_limbs);
                proof {
                    vstd::arithmetic::div_mod::lemma_small_mod((a - b) as nat, p as nat);
                }
                r
            },
        };
        Self::from_limbs(&reduced)
    }

    /// `(self * rhs) mod (2^521 - 1)`.
    pub fn mul_mod(&self, rhs: &Self) -> (product: Self)
        ensures
            product.value() == (self.value() * rhs.value()) % p521(),
    {
        let lhs_limbs = self.to_limbs();
        let rhs_limbs = rhs.to_limbs();
        let product = multiply_limbs_521(&lhs_limbs, &rhs_limbs);
        proof {
            let a = self.value();
            let b = rhs.value();
            assert(a * b < two_pow_521() * two_pow_521()) by (nonlinear_arith)
                requires a < two_pow_521(), b < two_pow_521();
        }
        let reduced = reduce_product_modulus_521(&product);
        Self::from_limbs(&reduced)
    }

    /// Compares two elements by their encodings.
    pub(crate) fn same_as(&self, other: &Self) -> (same: bool)
        ensures
            same == (self@ == other@),
    {
        bytes_equal(&self.bytes, &other.bytes)
    }

    /// `self^2 mod (2^521 - 1)`.
    pub fn square_mod(&self) -> (square: Self)
        ensures
            square.value() == (self.value() * self.value()) % p521(),
    {
        self.mul_mod(self)
    }
}


/// A canonical element is the canonical encoding of its value.
pub proof fn lemma_fe_encoding(element: FieldElement521V1)
    requires
        element.is_canonical(),
    ensures
        element@ == fe_encoding_spec(element.value()),
{
    lemma_be_bytes_of_value(element@);
}

/// Parsing the encoding of an element gives the element back: the encoding
/// of a canonical element has its top seven bits clear and a value below the
/// modulus, so `from_bytes` accepts it and returns an element with the same
/// encoding.
pub proof fn lemma_fe_bytes_round_trip(element: FieldElement521V1)
    requires
        element.is_canonical(),
    ensures
        fe_decode_error(element@) is None,
        element@[0] < 2,
        be_value(element@) < p521(),
{
    crate::limbs_521_v1::lemma_be_top_byte(element@);
}

/// An element whose encoding has a value below the modulus is canonical:
/// every encoding is 66 bytes long.
pub proof fn lemma_fe_reduced_is_canonical(element: FieldElement521V1)
    requires
        element.value() < p521(),
    ensures
        element.is_canonical(),
{
    assert(element.bytes@.len() == 66);
}

/// Every field element is encoded in 66 bytes.
pub proof fn lemma_fe_len(element: FieldElement521V1)
    ensures
        element@.len() == 66,
{
}

/// Two elements with the same encoding are the same element.
pub proof fn lemma_fe_view_injective(a: FieldElement521V1, b: FieldElement521V1)
    requires
        a@ == b@,
    ensures
        a == b,
{
    assert(a.bytes =~= b.bytes);
}

/// Byte-wise equality of two fixed-width strings.
pub(crate) fn bytes_equal<const N: usize>(lhs: &[u8; N], rhs: &[u8; N]) -> (same: bool)
    ensures
        same == (lhs@ == rhs@),
{
    let mut index: usize = 0;
    while index < N
        invariant
            0 <= index <= N,
            lhs@.len() == N,
            rhs@.len() == N,
            forall|j: int| 0 <= j < index ==> lhs@[j] == rhs@[j],
        decreases N - index,
    {
        if lhs[index] != rhs[index] {
            return false;
        }
        index += 1;
    }
    proof {
        assert(lhs@ =~= rhs@);
    }
    true
}

} // verus!
