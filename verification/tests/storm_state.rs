use aura_intent_lineage_v1::{
    FieldElement521V1,
    STORM_STATE_521_ROW_BYTE_LEN_V1,
    StormState521V1,
    decode_row_bytes,
};

#[test]
fn storm_row_round_trips() {
    let state = StormState521V1 {
        x: FieldElement521V1::from_u64(17),
        y: FieldElement521V1::from_u64(23),
    };

    let encoded = state.encode_row_bytes();

    assert_eq!(encoded.len(), STORM_STATE_521_ROW_BYTE_LEN_V1);
    assert_eq!(decode_row_bytes(&encoded).unwrap(), state);
}
