//! Byte-string helpers shared by the canonical encodings: appending, and the
//! little-endian encoding of unsigned integers.

use vstd::prelude::*;

verus! {

/// The `n`-byte little-endian encoding of `x` (higher bytes are dropped).
pub open spec fn le_bytes(x: nat, n: nat) -> Seq<u8>
    decreases n,
{
    if n == 0 {
        Seq::empty()
    } else {
        seq![(x % 256) as u8] + le_bytes(x / 256, (n - 1) as nat)
    }
}

/// Little-endian value of a byte string.
pub open spec fn le_value(s: Seq<u8>) -> nat
    decreases s.len(),
{
    if s.len() == 0 {
        0
    } else {
        (s[0] as nat) + 256 * le_value(s.skip(1))
    }
}

/// The eight little-endian bytes of a `u64`.
pub open spec fn u64_le(x: u64) -> Seq<u8> {
    le_bytes(x as nat, 8)
}

pub proof fn lemma_le_bytes_len(x: nat, n: nat)
    ensures
        le_bytes(x, n).len() == n,
    decreases n,
{
    if n > 0 {
        lemma_le_bytes_len(x / 256, (n - 1) as nat);
    }
}

/// Decoding an encoding gives the value back, modulo `256^n`.
pub proof fn lemma_le_value_of_bytes(x: nat, n: nat)
    ensures
        le_value(le_bytes(x, n)) == x % vstd::arithmetic::power::pow(256, n) as nat,
    decreases n,
{
    lemma_le_bytes_len(x, n);
    vstd::arithmetic::power::lemma_pow_positive(256, n);
    if n == 0 {
        assert(vstd::arithmetic::power::pow(256, 0) == 1) by {
            vstd::arithmetic::power::lemma_pow0(256);
        }
    } else {
        let s = le_bytes(x, n);
        let m = (n - 1) as nat;
        lemma_le_value_of_bytes(x / 256, m);
        assert(s.skip(1) =~= le_bytes(x / 256, m));
        let pm = vstd::arithmetic::power::pow(256, m);
        vstd::arithmetic::power::lemma_pow_positive(256, m);
        assert(vstd::arithmetic::power::pow(256, n) == 256 * pm) by {
            vstd::arithmetic::power::lemma_pow_adds(256, 1, m);
            vstd::arithmetic::power::lemma_pow1(256);
        }
        vstd::arithmetic::div_mod::lemma_breakdown(x as int, 256, pm);
    }
}

/// Encoding the value of a string gives the string back.
pub proof fn lemma_le_bytes_of_value(s: Seq<u8>)
    ensures
        le_bytes(le_value(s), s.len()) == s,
    decreases s.len(),
{
    if s.len() > 0 {
        let v = le_value(s);
        lemma_le_bytes_of_value(s.skip(1));
        assert(v % 256 == s[0]);
        assert(v / 256 == le_value(s.skip(1)));
        let e = le_bytes(v, s.len());
        assert(e =~= seq![s[0]] + le_bytes(le_value(s.skip(1)), (s.len() - 1) as nat));
        assert(s =~= seq![s[0]] + s.skip(1));
    }
}

/// The eight bytes of a `u64` read back as its value.
pub proof fn lemma_u64_le_value(x: u64)
    ensures
        le_value(u64_le(x)) == x,
        u64_le(x).len() == 8,
{
    lemma_le_bytes_len(x as nat, 8);
    lemma_le_value_of_bytes(x as nat, 8);
    assert(vstd::arithmetic::power::pow(256, 8) == 0x1_0000_0000_0000_0000) by {
        reveal_with_fuel(vstd::arithmetic::power::pow, 9);
    }
    vstd::arithmetic::div_mod::lemma_small_mod(x as nat, 0x1_0000_0000_0000_0000);
}

/// Two `u64`s with the same eight bytes are equal.
pub proof fn lemma_u64_le_injective(a: u64, b: u64)
    requires
        u64_le(a) == u64_le(b),
    ensures
        a == b,
{
    lemma_u64_le_value(a);
    lemma_u64_le_value(b);
}

/// Appends `suffix` to `bytes`.
pub fn append_bytes(bytes: &mut Vec<u8>, suffix: &[u8])
    ensures
        final(bytes)@ == old(bytes)@ + suffix@,
{
    let mut index: usize = 0;
    while index < suffix.len()
        invariant
            0 <= index <= suffix@.len(),
            bytes@ == old(bytes)@ + suffix@.take(index as int),
        decreases suffix@.len() - index,
    {
        bytes.push(suffix[index]);
        proof {
            assert(suffix@.take(index + 1) =~= suffix@.take(index as int).push(suffix@[index as int]));
        }
        index += 1;
    }
    proof {
        assert(suffix@.take(suffix@.len() as int) =~= suffix@);
    }
}

/// Little-endian encoding of a `u64`.
pub fn u64_to_le_bytes(value: u64) -> (bytes: [u8; 8])
    ensures
        bytes@ == u64_le(value),
{
    let mut bytes = [0u8; 8];
    let mut rest: u64 = value;
    let mut index: usize = 0;
    while index < 8
        invariant
            0 <= index <= 8,
            bytes@.len() == 8,
            le_bytes(value as nat, 8) == bytes@.take(index as int) + le_bytes(
                rest as nat,
                (8 - index) as nat,
            ),
        decreases 8 - index,
    {
        let ghost before = bytes@;
        bytes[index] = (rest % 256) as u8;
        proof {
            assert(le_bytes(rest as nat, (8 - index) as nat) =~= seq![(rest % 256) as u8]
                + le_bytes((rest / 256) as nat, (8 - index - 1) as nat));
            assert(bytes@.take(index + 1) =~= before.take(index as int).push((rest % 256) as u8));
        }
        rest = rest / 256;
        index += 1;
    }
    proof {
        assert(bytes@.take(8) =~= bytes@);
        assert(le_bytes(rest as nat, 0) =~= Seq::<u8>::empty());
        assert(bytes@ =~= bytes@ + Seq::<u8>::empty());
    }
    bytes
}

/// Reads eight little-endian bytes as a `u64`.
pub fn u64_from_le_bytes(bytes: &[u8; 8]) -> (value: u64)
    ensures
        value as nat == le_value(bytes@),
        u64_le(value) == bytes@,
{
    let mut value: u64 = 0;
    let mut index: usize = 8;
    proof {
        assert(bytes@.skip(8).len() == 0);
        vstd::arithmetic::power::lemma_pow0(256);
    }
    while index > 0
        invariant
            0 <= index <= 8,
            bytes@.len() == 8,
            value as nat == le_value(bytes@.skip(index as int)),
            value < vstd::arithmetic::power::pow(256, (8 - index) as nat),
        decreases index,
    {
        let i = index - 1;
        proof {
            assert(bytes@.skip(i as int).skip(1) =~= bytes@.skip(index as int));
            assert(vstd::arithmetic::power::pow(256, (8 - i) as nat) == 256
                * vstd::arithmetic::power::pow(256, (8 - index) as nat)) by {
                vstd::arithmetic::power::lemma_pow_adds(256, 1, (8 - index) as nat);
                vstd::arithmetic::power::lemma_pow1(256);
            }
            assert(vstd::arithmetic::power::pow(256, 8) == 0x1_0000_0000_0000_0000) by {
                vstd::arithmetic::power::lemma_pow_positive(256, 8);
                reveal_with_fuel(vstd::arithmetic::power::pow, 9);
            }
            vstd::arithmetic::power::lemma_pow_increases(256, (8 - i) as nat, 8);
        }
        value = bytes[i] as u64 + 256 * value;
        index = i;
    }
    proof {
        assert(bytes@.skip(0) =~= bytes@);
        lemma_le_bytes_of_value(bytes@);
    }
    value
}

/// Reads sixteen little-endian bytes as a `u128`.
pub fn u128_from_le_bytes(bytes: &[u8; 16]) -> (value: u128)
    ensures
        value as nat == le_value(bytes@),
{
    let mut value: u128 = 0;
    let mut index: usize = 16;
    proof {
        assert(bytes@.skip(16).len() == 0);
        vstd::arithmetic::power::lemma_pow0(256);
    }
    while index > 0
        invariant
            0 <= index <= 16,
            bytes@.len() == 16,
            value as nat == le_value(bytes@.skip(index as int)),
            value < vstd::arithmetic::power::pow(256, (16 - index) as nat),
        decreases index,
    {
        let i = index - 1;
        proof {
            assert(bytes@.skip(i as int).skip(1) =~= bytes@.skip(index as int));
            assert(vstd::arithmetic::power::pow(256, (16 - i) as nat) == 256
                * vstd::arithmetic::power::pow(256, (16 - index) as nat)) by {
                vstd::arithmetic::power::lemma_pow_adds(256, 1, (16 - index) as nat);
                vstd::arithmetic::power::lemma_pow1(256);
            }
            assert(vstd::arithmetic::power::pow(256, 16) == 0x1_0000_0000_0000_0000_0000_0000_0000_0000) by {
                vstd::arithmetic::power::lemma_pow_positive(256, 16);
                reveal_with_fuel(vstd::arithmetic::power::pow, 17);
            }
            vstd::arithmetic::power::lemma_pow_increases(256, (16 - i) as nat, 16);
        }
        value = bytes[i] as u128 + 256 * value;
        index = i;
    }
    proof {
        assert(bytes@.skip(0) =~= bytes@);
    }
    value
}

/// Overwrites `out` with `src[start..start + N]`.
pub fn copy_range_into<const N: usize>(out: &mut [u8; N], src: &[u8], start: usize)
    requires
        start + N <= src@.len(),
    ensures
        final(out)@ == src@.subrange(start as int, start + N),
{
    let mut index: usize = 0;
    while index < N
        invariant
            0 <= index <= N,
            start + N <= src.len(),
            out@.len() == N,
            forall|j: int| 0 <= j < index ==> out@[j] == src@[start + j],
        decreases N - index,
    {
        out[index] = src[start + index];
        index += 1;
    }
    proof {
        assert(out@ =~= src@.subrange(start as int, start + N));
    }
}

/// Little-endian encoding of a `u128`.
pub fn u128_to_le_bytes(value: u128) -> (bytes: [u8; 16])
    ensures
        bytes@ == le_bytes(value as nat, 16),
{
    let mut bytes = [0u8; 16];
    let mut rest: u128 = value;
    let mut index: usize = 0;
    while index < 16
        invariant
            0 <= index <= 16,
            bytes@.len() == 16,
            le_bytes(value as nat, 16) == bytes@.take(index as int) + le_bytes(
                rest as nat,
                (16 - index) as nat,
            ),
        decreases 16 - index,
    {
        let ghost before = bytes@;
        bytes[index] = (rest % 256) as u8;
        proof {
            assert(le_bytes(rest as nat, (16 - index) as nat) =~= seq![(rest % 256) as u8]
                + le_bytes((rest / 256) as nat, (16 - index - 1) as nat));
            assert(bytes@.take(index + 1) =~= before.take(index as int).push((rest % 256) as u8));
        }
        rest = rest / 256;
        index += 1;
    }
    proof {
        assert(bytes@.take(16) =~= bytes@);
        assert(le_bytes(rest as nat, 0) =~= Seq::<u8>::empty());
        assert(bytes@ =~= bytes@ + Seq::<u8>::empty());
    }
    bytes
}

/// The low `width` bytes of `value`, little-endian.
pub fn u64_to_le_vec(value: u64, width: usize) -> (bytes: Vec<u8>)
    requires
        width <= 8,
    ensures
        bytes@ == le_bytes(value as nat, width as nat),
{
    let mut bytes: Vec<u8> = Vec::new();
    let mut rest: u64 = value;
    let mut index: usize = 0;
    proof {
        assert(le_bytes(value as nat, width as nat) =~= bytes@ + le_bytes(rest as nat, width as nat));
    }
    while index < width
        invariant
            0 <= index <= width,
            bytes@.len() == index,
            le_bytes(value as nat, width as nat) == bytes@ + le_bytes(
                rest as nat,
                (width - index) as nat,
            ),
        decreases width - index,
    {
        let ghost before = bytes@;
        bytes.push((rest % 256) as u8);
        proof {
            assert(le_bytes(rest as nat, (width - index) as nat) =~= seq![(rest % 256) as u8]
                + le_bytes((rest / 256) as nat, (width - index - 1) as nat));
            assert(bytes@ =~= before + seq![(rest % 256) as u8]);
        }
        rest = rest / 256;
        index += 1;
    }
    proof {
        assert(le_bytes(rest as nat, 0) =~= Seq::<u8>::empty());
        assert(bytes@ =~= bytes@ + Seq::<u8>::empty());
    }
    bytes
}

/// A copy of `bytes[start..start + len]`.
pub fn copy_subrange(bytes: &[u8], start: usize, len: usize) -> (copy: Vec<u8>)
    requires
        start + len <= bytes@.len(),
    ensures
        copy@ == bytes@.subrange(start as int, start + len),
{
    let mut copy: Vec<u8> = Vec::new();
    let mut index: usize = 0;
    while index < len
        invariant
            0 <= index <= len,
            start + len <= bytes.len(),
            copy@ == bytes@.subrange(start as int, start + index),
        decreases len - index,
    {
        copy.push(bytes[start + index]);
        proof {
            assert(copy@ =~= bytes@.subrange(start as int, start + index + 1));
        }
        index += 1;
    }
    copy
}

} // verus!
