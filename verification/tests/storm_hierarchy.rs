use aura_intent_lineage_v1::{
    build_storm_trace,
    StormContextV1,
    StormExecutionErrorV1,
    StormExecutionInputsV1,
    STORM_CONTEXT_V1_VERSION,
};
use aura_intent_lineage_v1::storm_hierarchy_v2::{
    build_storm_hierarchy_v2,
    compute_hierarchy_root_v2,
    execute_storm_hierarchy_v2,
    StormHierarchyErrorV2,
};

fn inputs(iteration_count: u64) -> StormExecutionInputsV1 {
    StormExecutionInputsV1 {
        side_a: [0x11; 110],
        side_b: [0x22; 110],
        context_bytes_v1: StormContextV1 {
            context_version: STORM_CONTEXT_V1_VERSION,
            network_id: [0x10; 32],
            intent_hash: [0x20; 32],
            freshness_nonce: [0x30; 32],
            valid_from: 1,
            valid_until: 2,
            controller_id: [0x40; 32],
            route_tag: [0x50; 32],
        }
        .to_bytes(),
        iteration_count,
    }
}

#[test]
fn epochs_tile_a_long_trace() {
    let hierarchy = execute_storm_hierarchy_v2(&inputs(130)).unwrap();
    assert_eq!(hierarchy.iteration_count, 130);
    assert_eq!(hierarchy.epoch_count, 3);
    assert_eq!(hierarchy.epochs.len(), 3);
    let counts: Vec<u64> = hierarchy.epochs.iter().map(|e| e.transition_count).collect();
    assert_eq!(counts, vec![64, 64, 2]);
    let starts: Vec<u64> = hierarchy.epochs.iter().map(|e| e.start_step).collect();
    assert_eq!(starts, vec![0, 64, 128]);
    for pair in hierarchy.epochs.windows(2) {
        assert_eq!(pair[0].final_state, pair[1].initial_state);
        assert_eq!(pair[0].macro_state_after, pair[1].macro_state_before);
    }
    assert_eq!(hierarchy.initial_macro_state, hierarchy.epochs[0].macro_state_before);
    assert_eq!(hierarchy.final_macro_state, hierarchy.epochs[2].macro_state_after);
    let trace = build_storm_trace(&inputs(130));
    assert_eq!(hierarchy.epochs[2].final_state, trace[130]);
    let commitments: Vec<[u8; 32]> = hierarchy.epochs.iter().map(|e| e.epoch_commitment).collect();
    assert_eq!(compute_hierarchy_root_v2(&commitments).unwrap(), hierarchy.hierarchy_root);
}

#[test]
fn epoch_boundaries_follow_the_iteration_count() {
    assert_eq!(execute_storm_hierarchy_v2(&inputs(0)).unwrap().epoch_count, 1);
    assert_eq!(execute_storm_hierarchy_v2(&inputs(1)).unwrap().epoch_count, 1);
    let exact = execute_storm_hierarchy_v2(&inputs(64)).unwrap();
    assert_eq!(exact.epoch_count, 1);
    assert_eq!(exact.epochs[0].transition_count, 64);
    assert_eq!(execute_storm_hierarchy_v2(&inputs(65)).unwrap().epoch_count, 2);
}

#[test]
fn hierarchy_depends_on_the_rows() {
    let ctx = inputs(3).context_bytes_v1;
    let trace = build_storm_trace(&inputs(3));
    let first = build_storm_hierarchy_v2(&ctx, &trace).unwrap();
    let mut changed = trace.clone();
    changed[2] = changed[1];
    let second = build_storm_hierarchy_v2(&ctx, &changed).unwrap();
    assert_ne!(first.hierarchy_root, second.hierarchy_root);
    assert_eq!(first, build_storm_hierarchy_v2(&ctx, &trace).unwrap());
}

#[test]
fn hierarchy_errors_are_reported() {
    let ctx = inputs(3).context_bytes_v1;
    assert!(matches!(build_storm_hierarchy_v2(&ctx, &[]).unwrap_err(), StormHierarchyErrorV2::EmptyTrace));
    let mut bad = ctx;
    bad[0] = 7;
    assert!(matches!(
        build_storm_hierarchy_v2(&bad, &build_storm_trace(&inputs(3))).unwrap_err(),
        StormHierarchyErrorV2::InvalidContext(_)
    ));
    assert!(matches!(compute_hierarchy_root_v2(&[]).unwrap_err(), StormHierarchyErrorV2::EmptyHierarchy));
    let mut invalid = inputs(3);
    invalid.context_bytes_v1[0] = 7;
    assert!(matches!(
        execute_storm_hierarchy_v2(&invalid).unwrap_err(),
        StormHierarchyErrorV2::InvalidExecution(StormExecutionErrorV1::InvalidContext(_))
    ));
}
