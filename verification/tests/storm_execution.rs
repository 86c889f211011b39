use aura_intent_lineage_v1::{
    STORM_CONTEXT_V1_VERSION,
    StormContextV1,
    StormExecutionInputsV1,
    build_storm_trace,
    derive_a,
    derive_b,
    derive_phi_n,
    derive_psi_n,
    derive_x0,
    derive_y0,
    encode_step_u64_le,
    execute_storm_v1,
    execution_domain_v1,
};

fn sample_inputs(iteration_count: u64) -> StormExecutionInputsV1 {
    let context = StormContextV1 {
        context_version: STORM_CONTEXT_V1_VERSION,
        network_id: [0x10; 32],
        intent_hash: [0x20; 32],
        freshness_nonce: [0x30; 32],
        valid_from: 100,
        valid_until: 200,
        controller_id: [0x40; 32],
        route_tag: [0x50; 32],
    };
    let context_bytes_v1 = context.to_bytes();
    assert_eq!(&context_bytes_v1[33..65], execution_domain_v1().as_slice());

    StormExecutionInputsV1 {
        side_a: [0xa5; 110],
        side_b: [0x5a; 110],
        context_bytes_v1,
        iteration_count,
    }
}

#[test]
fn step_encoding_is_little_endian() {
    assert_eq!(encode_step_u64_le(0x0102_0304_0506_0708), [8, 7, 6, 5, 4, 3, 2, 1]);
}

#[test]
fn storm_derivations_are_deterministic() {
    let inputs = sample_inputs(3);

    assert_eq!(derive_x0(&inputs.side_a), derive_x0(&inputs.side_a));
    assert_eq!(derive_y0(&inputs.side_b), derive_y0(&inputs.side_b));
    assert_eq!(derive_a(&inputs.context_bytes_v1), derive_a(&inputs.context_bytes_v1));
    assert_eq!(derive_b(&inputs.context_bytes_v1), derive_b(&inputs.context_bytes_v1));
    assert_eq!(
        derive_phi_n(&inputs.side_a, &inputs.side_b, &inputs.context_bytes_v1, 2),
        derive_phi_n(&inputs.side_a, &inputs.side_b, &inputs.context_bytes_v1, 2)
    );
    assert_eq!(
        derive_psi_n(&inputs.side_a, &inputs.side_b, &inputs.context_bytes_v1, 2),
        derive_psi_n(&inputs.side_a, &inputs.side_b, &inputs.context_bytes_v1, 2)
    );
}

#[test]
fn storm_trace_has_initial_state_plus_iteration_count_steps() {
    let inputs = sample_inputs(5);
    let trace = build_storm_trace(&inputs);

    assert_eq!(trace.len(), 6);
    assert_eq!(trace[0].x, derive_x0(&inputs.side_a));
    assert_eq!(trace[0].y, derive_y0(&inputs.side_b));
}

#[test]
fn execute_storm_returns_boundary_states_and_trace() {
    let inputs = sample_inputs(2);
    let result = execute_storm_v1(&inputs);

    assert_eq!(result.initial_state, result.trace[0]);
    assert_eq!(result.final_state, *result.trace.last().unwrap());
}
