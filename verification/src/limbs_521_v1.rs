//! Limb-level model of 521-bit integers and the lemmas that tie limb and byte
//! encodings to their integer values.

use vstd::prelude::*;

verus! {

/// `2^(32 k)`, the weight of limb `k`.
pub open spec fn limb_weight(k: nat) -> nat
    decreases k,
{
    if k == 0 {
        1
    } else {
        0x1_0000_0000 * limb_weight((k - 1) as nat)
    }
}

/// Little-endian value of a sequence of 32-bit limbs.
pub open spec fn limbs_value(s: Seq<u32>) -> nat
    decreases s.len(),
{
    if s.len() == 0 {
        0
    } else {
        limbs_value(s.drop_last()) + (s.last() as nat) * limb_weight((s.len() - 1) as nat)
    }
}

/// Big-endian value of a byte string.
pub open spec fn be_value(s: Seq<u8>) -> nat
    decreases s.len(),
{
    if s.len() == 0 {
        0
    } else {
        be_value(s.drop_last()) * 256 + (s.last() as nat)
    }
}

/// `2^521`.
pub open spec fn two_pow_521() -> nat {
    limb_weight(16) * 512
}

/// The Mersenne prime `2^521 - 1`.
pub open spec fn p521() -> nat {
    (two_pow_521() - 1) as nat
}

pub proof fn lemma_limb_weight_pos(k: nat)
    ensures
        limb_weight(k) >= 1,
    decreases k,
{
    if k > 0 {
        lemma_limb_weight_pos((k - 1) as nat);
    }
}

pub proof fn lemma_limb_weight_values()
    ensures
        limb_weight(1) == 0x1_0000_0000,
        limb_weight(16) == 0x100000000000000000000000000000000000000000000000000000000000000000000000000000000000000000000000000000000000000000000000000000000,
        two_pow_521() == 0x20000000000000000000000000000000000000000000000000000000000000000000000000000000000000000000000000000000000000000000000000000000000,
{
    reveal_with_fuel(limb_weight, 17);
}

/// Prefix step: the value of the first `i + 1` limbs.
pub proof fn lemma_limbs_take_step(s: Seq<u32>, i: int)
    requires
        0 <= i < s.len(),
    ensures
        limbs_value(s.take(i + 1)) == limbs_value(s.take(i)) + s[i] * limb_weight(i as nat),
{
    assert(s.take(i + 1).drop_last() =~= s.take(i));
}

pub proof fn lemma_limbs_take_all(s: Seq<u32>)
    ensures
        s.take(s.len() as int) =~= s,
{
}

/// A limb string of length `n` is below `2^(32 n)`.
pub proof fn lemma_limbs_bound(s: Seq<u32>)
    ensures
        limbs_value(s) < limb_weight(s.len()),
    decreases s.len(),
{
    if s.len() > 0 {
        let n = (s.len() - 1) as nat;
        lemma_limbs_bound(s.drop_last());
        assert(s.last() * limb_weight(n) <= 0xffff_ffff * limb_weight(n)) by (nonlinear_arith)
            requires s.last() <= 0xffff_ffff;
    }
}

/// Two limb strings that agree above index `i` differ by their first `i + 1` limbs.
pub proof fn lemma_limbs_common_suffix(a: Seq<u32>, b: Seq<u32>, i: int, k: int)
    requires
        a.len() == b.len(),
        0 <= i < k <= a.len(),
        forall|j: int| i < j < a.len() ==> a[j] == b[j],
    ensures
        limbs_value(a.take(k)) - limbs_value(b.take(k)) == limbs_value(a.take(i + 1))
            - limbs_value(b.take(i + 1)),
    decreases k - i,
{
    if k > i + 1 {
        lemma_limbs_common_suffix(a, b, i, k - 1);
        lemma_limbs_take_step(a, k - 1);
        lemma_limbs_take_step(b, k - 1);
    }
}

/// Setting limb `k` to `v` moves the value by `(v - s[k]) * 2^(32 k)`.
pub proof fn lemma_limbs_update(s: Seq<u32>, k: int, v: u32)
    requires
        0 <= k < s.len(),
    ensures
        limbs_value(s.update(k, v)) as int == limbs_value(s) as int + (v as int - s[k] as int)
            * limb_weight(k as nat),
    decreases s.len(),
{
    let t = s.update(k, v);
    let n = s.len() - 1;
    if k == n {
        assert(t.drop_last() =~= s.drop_last());
        assert(v * limb_weight(k as nat) - s[k] * limb_weight(k as nat) == (v as int - s[k] as int)
            * limb_weight(k as nat)) by (nonlinear_arith);
    } else {
        assert(t.drop_last() =~= s.drop_last().update(k, v));
        lemma_limbs_update(s.drop_last(), k, v);
    }
}

} // verus!

verus! {

/// Splitting a value into a 32-bit digit and a carry.
pub proof fn lemma_carry_split(t: int, w: int)
    requires
        t >= 0,
        w >= 0,
    ensures
        (t % 0x1_0000_0000) * w + (t / 0x1_0000_0000) * (0x1_0000_0000 * w) == t * w,
{
    let q = t / 0x1_0000_0000;
    let r = t % 0x1_0000_0000;
    assert(t == 0x1_0000_0000 * q + r);
    assert(r * w + q * (0x1_0000_0000 * w) == (0x1_0000_0000 * q + r) * w) by (nonlinear_arith);
}

/// Limbs whose value is below `2^521` have a top limb below `2^9`.
pub proof fn lemma_top_limb_bound(s: Seq<u32>)
    requires
        s.len() == 17,
    ensures
        limbs_value(s) == limbs_value(s.take(16)) + s[16] * limb_weight(16),
        limbs_value(s.take(16)) < limb_weight(16),
        limbs_value(s) < two_pow_521() <==> s[16] < 512,
{
    lemma_limbs_take_step(s, 16);
    lemma_limbs_take_all(s);
    lemma_limbs_bound(s.take(16));
    lemma_limb_weight_pos(16);
    let w = limb_weight(16);
    let low = limbs_value(s.take(16));
    if s[16] < 512 {
        assert(s[16] * w <= 511 * w) by (nonlinear_arith) requires s[16] <= 511, w >= 1;
    } else {
        assert(s[16] * w >= 512 * w) by (nonlinear_arith) requires s[16] >= 512, w >= 1;
    }
}

} // verus!

verus! {

/// A prefix of all-ones limbs is `2^(32 k) - 1`.
pub proof fn lemma_limbs_all_ones(s: Seq<u32>, k: int)
    requires
        0 <= k <= s.len(),
        forall|j: int| 0 <= j < k ==> s[j] == 0xffff_ffff,
    ensures
        limbs_value(s.take(k)) + 1 == limb_weight(k as nat),
    decreases k,
{
    if k > 0 {
        lemma_limbs_all_ones(s, k - 1);
        lemma_limbs_take_step(s, k - 1);
    }
}

} // verus!

verus! {

pub proof fn lemma_limb_weight_add(i: nat, j: nat)
    ensures
        limb_weight(i + j) == limb_weight(i) * limb_weight(j),
    decreases j,
{
    if j > 0 {
        lemma_limb_weight_add(i, (j - 1) as nat);
        assert(limb_weight(i + j) == 0x1_0000_0000 * limb_weight((i + j - 1) as nat));
        assert(limb_weight(j) == 0x1_0000_0000 * limb_weight((j - 1) as nat));
        assert((i + j - 1) as nat == i + (j - 1) as nat);
        assert(limb_weight(i) * (0x1_0000_0000 * limb_weight((j - 1) as nat)) == 0x1_0000_0000 * (
        limb_weight(i) * limb_weight((j - 1) as nat))) by (nonlinear_arith);
    } else {
        assert(limb_weight(0) == 1);
        assert(i + j == i);
    }
}

/// A limb string is its low `k` limbs plus `2^(32 k)` times the rest.
pub proof fn lemma_limbs_split(s: Seq<u32>, k: int)
    requires
        0 <= k <= s.len(),
    ensures
        limbs_value(s) == limbs_value(s.take(k)) + limb_weight(k as nat) * limbs_value(s.skip(k)),
    decreases s.len(),
{
    if s.len() == k {
        assert(s.take(k) =~= s);
        assert(s.skip(k).len() == 0);
        assert(limbs_value(s.skip(k)) == 0);
        assert(limb_weight(k as nat) * limbs_value(s.skip(k)) == 0) by (nonlinear_arith)
            requires limbs_value(s.skip(k)) == 0;
    } else {
        let n = s.len() - 1;
        let d = s.drop_last();
        lemma_limbs_split(d, k);
        assert(d.take(k) =~= s.take(k));
        assert(d.skip(k) =~= s.skip(k).drop_last());
        assert(s.skip(k).last() == s.last());
        lemma_limb_weight_add(k as nat, (n - k) as nat);
        let a = limb_weight(k as nat);
        let b = limb_weight((n - k) as nat);
        let t = s.skip(k);
        assert(t.len() == n - k + 1);
        assert(limbs_value(t) == limbs_value(t.drop_last()) + t.last() * limb_weight(
            (t.len() - 1) as nat,
        ));
        assert((t.len() - 1) as nat == (n - k) as nat);
        assert(limbs_value(s) == limbs_value(d) + s.last() * limb_weight(n as nat));
        assert(k as nat + (n - k) as nat == n as nat);
        assert(a * (limbs_value(d.skip(k)) + s.last() * b) == a * limbs_value(d.skip(k)) + s.last()
            * (a * b)) by (nonlinear_arith);
    }
}

/// A top limb times its weight never exceeds the value.
pub proof fn lemma_limbs_top_limb_le(s: Seq<u32>)
    requires
        s.len() > 0,
    ensures
        s.last() * limb_weight((s.len() - 1) as nat) <= limbs_value(s),
{
}

} // verus!

verus! {

pub proof fn lemma_limbs_all_zero(s: Seq<u32>, k: int)
    requires
        0 <= k <= s.len(),
        forall|j: int| 0 <= j < k ==> s[j] == 0,
    ensures
        limbs_value(s.take(k)) == 0,
    decreases k,
{
    if k > 0 {
        lemma_limbs_all_zero(s, k - 1);
        lemma_limbs_take_step(s, k - 1);
    }
}

} // verus!

verus! {

/// The last four bytes of a big-endian string form its lowest 32-bit digit.
pub proof fn lemma_be_drop4(s: Seq<u8>)
    requires
        s.len() >= 4,
    ensures
        be_value(s) == be_value(s.take(s.len() - 4)) * 0x1_0000_0000 + (s[s.len() - 4] * 0x100_0000
            + s[s.len() - 3] * 0x1_0000 + s[s.len() - 2] * 0x100 + s[s.len() - 1]),
{
    let n = s.len();
    let d1 = s.drop_last();
    let d2 = d1.drop_last();
    let d3 = d2.drop_last();
    let d4 = d3.drop_last();
    assert(d4 =~= s.take(n - 4));
    assert(be_value(s) == be_value(d1) * 256 + s[n - 1]);
    assert(be_value(d1) == be_value(d2) * 256 + s[n - 2]);
    assert(be_value(d2) == be_value(d3) * 256 + s[n - 3]);
    assert(be_value(d3) == be_value(d4) * 256 + s[n - 4]);
}

/// A two-byte big-endian string.
pub proof fn lemma_be_two(s: Seq<u8>)
    requires
        s.len() == 2,
    ensures
        be_value(s) == s[0] * 256 + s[1],
{
    let d1 = s.drop_last();
    assert(d1.drop_last().len() == 0);
    assert(be_value(d1) == be_value(d1.drop_last()) * 256 + s[0]);
}

/// The limbs from index `j` upward: one limb plus `2^32` times the rest.
pub proof fn lemma_limbs_skip_step(s: Seq<u32>, j: int)
    requires
        0 <= j < s.len(),
    ensures
        limbs_value(s.skip(j)) == s[j] + 0x1_0000_0000 * limbs_value(s.skip(j + 1)),
{
    let t = s.skip(j);
    lemma_limbs_split(t, 1);
    assert(t.skip(1) =~= s.skip(j + 1));
    lemma_limbs_single(t.take(1));
    assert(limb_weight(1) == 0x1_0000_0000 * limb_weight(0));
    assert(limb_weight(0) == 1);
}

/// Two byte strings of one length with one big-endian value are equal.
pub proof fn lemma_be_injective(a: Seq<u8>, b: Seq<u8>)
    requires
        a.len() == b.len(),
        be_value(a) == be_value(b),
    ensures
        a == b,
    decreases a.len(),
{
    if a.len() > 0 {
        let x = be_value(a.drop_last());
        let y = be_value(b.drop_last());
        assert(x * 256 + a.last() == y * 256 + b.last());
        assert(x == y && a.last() == b.last()) by (nonlinear_arith)
            requires
                x * 256 + a.last() == y * 256 + b.last(),
                a.last() < 256,
                b.last() < 256,
                x >= 0,
                y >= 0,
        ;
        lemma_be_injective(a.drop_last(), b.drop_last());
        assert(a =~= b.drop_last().push(b.last()));
        assert(b =~= b.drop_last().push(b.last()));
    } else {
        assert(a =~= b);
    }
}

/// A big-endian string is zero exactly when every byte is zero.
pub proof fn lemma_be_zero(s: Seq<u8>)
    ensures
        be_value(s) == 0 <==> forall|j: int| 0 <= j < s.len() ==> s[j] == 0,
    decreases s.len(),
{
    if s.len() > 0 {
        lemma_be_zero(s.drop_last());
        if be_value(s) == 0 {
            assert forall|j: int| 0 <= j < s.len() implies s[j] == 0 by {
                if j < s.len() - 1 {
                    assert(s[j] == s.drop_last()[j]);
                }
            }
        }
        if forall|j: int| 0 <= j < s.len() ==> s[j] == 0 {
            assert forall|j: int| 0 <= j < s.drop_last().len() implies s.drop_last()[j] == 0 by {
                assert(s.drop_last()[j] == s[j]);
            }
        }
    }
}

} // verus!

verus! {

pub proof fn lemma_limbs_single(s: Seq<u32>)
    requires
        s.len() == 1,
    ensures
        limbs_value(s) == s[0],
{
    assert(s.drop_last().len() == 0);
    assert(limbs_value(s.drop_last()) == 0);
    assert(limb_weight(0) == 1);
    assert(limbs_value(s) == limbs_value(s.drop_last()) + (s.last() as nat) * limb_weight(0));
    assert(s.last() == s[0]);
}

/// `256^k`, the weight of the byte `k` places from the right.
pub open spec fn byte_weight(k: nat) -> nat
    decreases k,
{
    if k == 0 {
        1
    } else {
        256 * byte_weight((k - 1) as nat)
    }
}

/// The leading byte of a big-endian string bounds its value from below.
pub proof fn lemma_be_lead_byte(s: Seq<u8>)
    requires
        s.len() >= 1,
    ensures
        be_value(s) >= s[0] * byte_weight((s.len() - 1) as nat),
    decreases s.len(),
{
    if s.len() == 1 {
        assert(s.drop_last().len() == 0);
        assert(be_value(s.drop_last()) == 0);
        assert(be_value(s) == be_value(s.drop_last()) * 256 + s.last());
        assert(s.last() == s[0]);
        assert(byte_weight(0) == 1);
        assert(be_value(s) == s[0] * byte_weight(0));
    } else {
        let d = s.drop_last();
        lemma_be_lead_byte(d);
        assert(be_value(s) == be_value(d) * 256 + s.last());
        assert(byte_weight((s.len() - 1) as nat) == 256 * byte_weight((d.len() - 1) as nat));
        assert(d[0] == s[0]);
        let w = byte_weight((d.len() - 1) as nat);
        let v = be_value(d);
        assert(v * 256 >= s[0] * w * 256) by (nonlinear_arith)
            requires v >= s[0] * w, w >= 0;
        assert(s[0] * w * 256 == s[0] * (256 * w)) by (nonlinear_arith);
        assert(be_value(s) >= v * 256);
    }
}

/// A 66-byte encoding of a value below `2^521 - 1` has a leading byte of at
/// most one.
pub proof fn lemma_be_top_byte(s: Seq<u8>)
    requires
        s.len() == 66,
        be_value(s) < p521(),
    ensures
        s[0] < 2,
{
    lemma_be_lead_byte(s);
    assert(byte_weight(65) == 0x10000000000000000000000000000000000000000000000000000000000000000000000000000000000000000000000000000000000000000000000000000000000) by {
        reveal_with_fuel(byte_weight, 66);
    }
    lemma_limb_weight_values();
    if s[0] >= 2 {
        assert(s[0] * byte_weight(65) >= 2 * byte_weight(65)) by (nonlinear_arith)
            requires s[0] >= 2, byte_weight(65) >= 0;
    }
}

/// The `n`-byte big-endian encoding of `v` (higher bytes are dropped).
pub open spec fn be_bytes(v: nat, n: nat) -> Seq<u8>
    decreases n,
{
    if n == 0 {
        Seq::empty()
    } else {
        be_bytes(v / 256, (n - 1) as nat).push((v % 256) as u8)
    }
}

pub proof fn lemma_byte_weight_pos(k: nat)
    ensures
        byte_weight(k) >= 1,
    decreases k,
{
    if k > 0 {
        lemma_byte_weight_pos((k - 1) as nat);
    }
}

/// Encoding then reading back gives the value modulo `256^n`.
pub proof fn lemma_be_bytes_value(v: nat, n: nat)
    ensures
        be_bytes(v, n).len() == n,
        be_value(be_bytes(v, n)) == v % byte_weight(n),
    decreases n,
{
    if n == 0 {
        assert(v % 1 == 0);
    } else {
        let m = (n - 1) as nat;
        lemma_be_bytes_value(v / 256, m);
        lemma_byte_weight_pos(m);
        let s = be_bytes(v, n);
        assert(s.drop_last() =~= be_bytes(v / 256, m));
        vstd::arithmetic::div_mod::lemma_breakdown(v as int, 256, byte_weight(m) as int);
        assert(byte_weight(n) == 256 * byte_weight(m));
        assert((v / 256) % byte_weight(m) * 256 == 256 * ((v / 256) % byte_weight(m))) by (nonlinear_arith);
    }
}

/// A byte string is the big-endian encoding of its own value.
pub proof fn lemma_be_bytes_of_value(s: Seq<u8>)
    ensures
        be_bytes(be_value(s), s.len()) == s,
{
    lemma_be_value_bound(s);
    lemma_be_bytes_value(be_value(s), s.len());
    vstd::arithmetic::div_mod::lemma_small_mod(be_value(s), byte_weight(s.len()));
    lemma_be_injective(be_bytes(be_value(s), s.len()), s);
}

/// The value of an `n`-byte string is below `256^n`.
pub proof fn lemma_be_value_bound(s: Seq<u8>)
    ensures
        be_value(s) < byte_weight(s.len()),
    decreases s.len(),
{
    if s.len() > 0 {
        let d = s.drop_last();
        lemma_be_value_bound(d);
        let v = be_value(d);
        let w = byte_weight(d.len());
        assert(v * 256 + s.last() < 256 * w) by (nonlinear_arith)
            requires v < w, s.last() < 256;
    }
}

} // verus!
