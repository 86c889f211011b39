//! The Storm pair state `(x, y)` and its 132-byte row encoding.

use crate::field_521_v1::{fe_decode_error, fe_encoding_spec, FieldElement521V1, FieldElementErrorV1};
use vstd::prelude::*;

verus! {

pub const STORM_STATE_521_ROW_BYTE_LEN_V1: usize = 132;

/// A Storm state: two field elements.
#[derive(Clone, Copy, Debug, PartialEq, Eq)]
pub struct StormState521V1 {
    pub x: FieldElement521V1,
    pub y: FieldElement521V1,
}

/// Why a byte string is not the row encoding of a Storm state.
#[derive(Clone, Copy, Debug, PartialEq, Eq, Structural)]
pub enum StormStateEncodingErrorV1 {
    InvalidLength { expected: usize, actual: usize },
    InvalidX(FieldElementErrorV1),
    InvalidY(FieldElementErrorV1),
}

/// The row encoding of a state: `x` then `y`, each in its 66-byte encoding.
pub open spec fn storm_row_spec(state: StormState521V1) -> Seq<u8> {
    state.x@ + state.y@
}

/// The row encoding of a state given by its values.
pub open spec fn storm_row_of_values(values: (nat, nat)) -> Seq<u8> {
    fe_encoding_spec(values.0) + fe_encoding_spec(values.1)
}

/// The error `decode_row_bytes` reports for `bytes`, if any.
pub open spec fn storm_row_decode_error(bytes: Seq<u8>) -> Option<StormStateEncodingErrorV1> {
    if bytes.len() != 132 {
        Some(StormStateEncodingErrorV1::InvalidLength { expected: 132, actual: bytes.len() as usize })
    } else if fe_decode_error(bytes.subrange(0, 66)) is Some {
        Some(StormStateEncodingErrorV1::InvalidX(fe_decode_error(bytes.subrange(0, 66))->0))
    } else if fe_decode_error(bytes.subrange(66, 132)) is Some {
        Some(StormStateEncodingErrorV1::InvalidY(fe_decode_error(bytes.subrange(66, 132))->0))
    } else {
        None
    }
}

impl StormState521V1 {
    /// Both coordinates equal.
    pub fn same_as(&self, other: &Self) -> (same: bool)
        ensures
            same == (self.x@ == other.x@ && self.y@ == other.y@),
    {
        self.x.same_as(&other.x) && self.y.same_as(&other.y)
    }

    /// The 132-byte row: `x` then `y`.
    pub fn encode_row_bytes(&self) -> (bytes: [u8; 132])
        ensures
            bytes@ == storm_row_spec(*self),
    {
        let x_bytes = self.x.to_bytes();
        let y_bytes = self.y.to_bytes();
        let mut bytes = [0u8; 132];
        let mut index: usize = 0;
        while index < 66
            invariant
                0 <= index <= 66,
                bytes@.len() == 132,
                x_bytes@ == self.x@,
                forall|j: int| 0 <= j < index ==> bytes@[j] == x_bytes@[j],
            decreases 66 - index,
        {
            bytes[index] = x_bytes[index];
            index += 1;
        }
        while index < 132
            invariant
                66 <= index <= 132,
                bytes@.len() == 132,
                x_bytes@ == self.x@,
                y_bytes@ == self.y@,
                forall|j: int| 0 <= j < 66 ==> bytes@[j] == x_bytes@[j],
                forall|j: int| 66 <= j < index ==> bytes@[j] == y_bytes@[j - 66],
            decreases 132 - index,
        {
            bytes[index] = y_bytes[index - 66];
            index += 1;
        }
        proof {
            assert(bytes@ =~= self.x@ + self.y@);
        }
        bytes
    }
}

/// Copies `bytes[start..start + 66]`.
fn copy_field_bytes(bytes: &[u8], start: usize) -> (out: [u8; 66])
    requires
        start + 66 <= bytes@.len(),
    ensures
        out@ == bytes@.subrange(start as int, start + 66),
{
    let mut out = [0u8; 66];
    let mut index: usize = 0;
    while index < 66
        invariant
            0 <= index <= 66,
            start + 66 <= bytes.len(),
            out@.len() == 66,
            forall|j: int| 0 <= j < index ==> out@[j] == bytes@[start + j],
        decreases 66 - index,
    {
        out[index] = bytes[start + index];
        index += 1;
    }
    proof {
        assert(out@ =~= bytes@.subrange(start as int, start + 66));
    }
    out
}

/// Decodes a 132-byte row into a state, checking both coordinates.
pub fn decode_row_bytes(bytes: &[u8]) -> (result: Result<StormState521V1, StormStateEncodingErrorV1>)
    ensures
        storm_row_decode_error(bytes@) is Some ==> result == Err::<
            StormState521V1,
            StormStateEncodingErrorV1,
        >(storm_row_decode_error(bytes@)->0),
        storm_row_decode_error(bytes@) is None ==> (result matches Ok(state) && storm_row_spec(
            state,
        ) == bytes@),
{
    if bytes.len() != 132 {
        return Err(StormStateEncodingErrorV1::InvalidLength { expected: 132, actual: bytes.len() });
    }
    let x_bytes = copy_field_bytes(bytes, 0);
    let y_bytes = copy_field_bytes(bytes, 66);
    let x = match FieldElement521V1::from_bytes(x_bytes) {
        Ok(x) => x,
        Err(error) => {
            return Err(StormStateEncodingErrorV1::InvalidX(error));
        },
    };
    let y = match FieldElement521V1::from_bytes(y_bytes) {
        Ok(y) => y,
        Err(error) => {
            return Err(StormStateEncodingErrorV1::InvalidY(error));
        },
    };
    proof {
        assert(bytes@ =~= bytes@.subrange(0, 66) + bytes@.subrange(66, 132));
    }
    Ok(StormState521V1 { x, y })
}

/// Decoding the row encoding of a state gives the state back: the row of a
/// state of canonical elements decodes without error, to the same elements.
pub proof fn lemma_storm_row_round_trip(state: StormState521V1)
    requires
        state.x.is_canonical(),
        state.y.is_canonical(),
    ensures
        storm_row_decode_error(storm_row_spec(state)) is None,
        storm_row_spec(state).subrange(0, 66) == state.x@,
        storm_row_spec(state).subrange(66, 132) == state.y@,
{
    let row = storm_row_spec(state);
    assert(row.subrange(0, 66) =~= state.x@);
    assert(row.subrange(66, 132) =~= state.y@);
    crate::limbs_521_v1::lemma_be_top_byte(state.x@);
    crate::limbs_521_v1::lemma_be_top_byte(state.y@);
}

/// A state whose coordinates are canonical field elements.
pub open spec fn state_canonical(state: StormState521V1) -> bool {
    state.x.is_canonical() && state.y.is_canonical()
}

/// The row of a state is 132 bytes: `x` then `y`.
pub proof fn lemma_storm_row_layout(state: StormState521V1)
    ensures
        storm_row_spec(state).len() == 132,
        storm_row_spec(state).subrange(0, 66) == state.x@,
        storm_row_spec(state).subrange(66, 132) == state.y@,
{
    crate::field_521_v1::lemma_fe_len(state.x);
    crate::field_521_v1::lemma_fe_len(state.y);
    assert(storm_row_spec(state).subrange(0, 66) =~= state.x@);
    assert(storm_row_spec(state).subrange(66, 132) =~= state.y@);
}

/// Two canonical states with the same row are the same state.
pub proof fn lemma_storm_row_injective(s: StormState521V1, t: StormState521V1)
    requires
        state_canonical(s),
        state_canonical(t),
        storm_row_spec(s) == storm_row_spec(t),
    ensures
        s == t,
{
    lemma_storm_row_layout(s);
    lemma_storm_row_layout(t);
    crate::field_521_v1::lemma_fe_view_injective(s.x, t.x);
    crate::field_521_v1::lemma_fe_view_injective(s.y, t.y);
}



} // verus!
