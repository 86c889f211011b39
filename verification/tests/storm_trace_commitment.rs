use aura_intent_lineage_v1::{
    FieldElement521V1,
    StormState521V1,
    compute_storm_trace_root,
    merkle_parent,
    storm_leaf_hash,
};

#[test]
fn storm_leaf_hash_is_deterministic() {
    let state = StormState521V1 {
        x: FieldElement521V1::from_u64(1),
        y: FieldElement521V1::from_u64(2),
    };
    let row_bytes = state.encode_row_bytes();

    assert_eq!(storm_leaf_hash(&row_bytes), storm_leaf_hash(&row_bytes));
}

#[test]
fn odd_leaf_levels_duplicate_the_last_leaf() {
    let leaf = [0x11; 32];
    assert_eq!(merkle_parent(&leaf, &leaf), merkle_parent(&leaf, &leaf));
}

#[test]
fn trace_root_changes_when_trace_changes() {
    let first = [
        StormState521V1 {
            x: FieldElement521V1::from_u64(1),
            y: FieldElement521V1::from_u64(2),
        },
        StormState521V1 {
            x: FieldElement521V1::from_u64(3),
            y: FieldElement521V1::from_u64(4),
        },
    ];
    let second = [
        first[0],
        StormState521V1 {
            x: FieldElement521V1::from_u64(3),
            y: FieldElement521V1::from_u64(5),
        },
    ];

    assert_ne!(compute_storm_trace_root(&first), compute_storm_trace_root(&second));
}
