use aura_intent_lineage_v1::legacy::catmap_v1::{
    build_dcm_claim_521_v1,
    build_stark_trace_commitment_tree_v1,
    dcm_air_public_inputs_from_claim_521_v1,
    derive_dcm_air_stark_transcript_v1,
    derive_stark_trace_tree_height_from_leaf_count_v1,
    verify_stark_trace_merkle_opening_v1,
    DcmAirStarkTranscriptErrorV1,
    DcmAirTraceV1,
    DcmConfig521V1,
    DcmExecution521V1,
    DcmInput521V1,
    StarkTraceCommitmentErrorV1,
    StarkTraceCommitmentV1,
};

fn trace(iteration_count: u64) -> DcmAirTraceV1 {
    let execution = DcmExecution521V1::run(
        &DcmConfig521V1 { iteration_count },
        &DcmInput521V1::from_u64(3, 5),
    )
    .unwrap();
    DcmAirTraceV1::new(execution.states)
}

#[test]
fn tree_height_counts_halvings() {
    assert_eq!(derive_stark_trace_tree_height_from_leaf_count_v1(0), 0);
    assert_eq!(derive_stark_trace_tree_height_from_leaf_count_v1(1), 0);
    assert_eq!(derive_stark_trace_tree_height_from_leaf_count_v1(2), 1);
    assert_eq!(derive_stark_trace_tree_height_from_leaf_count_v1(3), 2);
    assert_eq!(derive_stark_trace_tree_height_from_leaf_count_v1(5), 3);
    assert_eq!(derive_stark_trace_tree_height_from_leaf_count_v1(8), 3);
    assert_eq!(derive_stark_trace_tree_height_from_leaf_count_v1(u64::MAX), 64);
}

#[test]
fn every_opening_verifies_to_the_committed_root() {
    for iteration_count in [0u64, 1, 2, 4, 6] {
        let tree = build_stark_trace_commitment_tree_v1(&trace(iteration_count)).unwrap();
        let commitment = tree.commitment();
        assert_eq!(commitment.commitment_version, 1);
        assert_eq!(commitment.leaf_count, iteration_count + 1);
        for row in 0..commitment.leaf_count {
            let opening = tree.open_row(row).unwrap();
            assert_eq!(opening.sibling_hashes.len() as u64, commitment.tree_height);
            assert_eq!(verify_stark_trace_merkle_opening_v1(&commitment, &opening).unwrap(), commitment.root);
        }
    }
}

#[test]
fn tampered_openings_do_not_reach_the_root() {
    let tree = build_stark_trace_commitment_tree_v1(&trace(4)).unwrap();
    let commitment = tree.commitment();
    let mut opening = tree.open_row(2).unwrap();
    opening.sibling_hashes[0][0] ^= 1;
    assert_ne!(verify_stark_trace_merkle_opening_v1(&commitment, &opening).unwrap(), commitment.root);

    let mut moved = tree.open_row(2).unwrap();
    moved.row_index = 3;
    assert_ne!(verify_stark_trace_merkle_opening_v1(&commitment, &moved).unwrap(), commitment.root);
}

#[test]
fn commitment_errors_are_reported() {
    assert_eq!(
        build_stark_trace_commitment_tree_v1(&DcmAirTraceV1::new(Vec::new())).unwrap_err(),
        StarkTraceCommitmentErrorV1::EmptyTrace
    );
    let tree = build_stark_trace_commitment_tree_v1(&trace(2)).unwrap();
    assert_eq!(
        tree.open_row(3).unwrap_err(),
        StarkTraceCommitmentErrorV1::RowIndexOutOfRange { row_index: 3, row_count: 3 }
    );
    let commitment = tree.commitment();
    let mut short = tree.open_row(0).unwrap();
    short.sibling_hashes.pop();
    assert_eq!(
        verify_stark_trace_merkle_opening_v1(&commitment, &short).unwrap_err(),
        StarkTraceCommitmentErrorV1::OpeningPathLengthMismatch { expected: 2, actual: 1 }
    );
    let mut far = tree.open_row(0).unwrap();
    far.row_index = 7;
    assert_eq!(
        verify_stark_trace_merkle_opening_v1(&commitment, &far).unwrap_err(),
        StarkTraceCommitmentErrorV1::RowIndexOutOfRange { row_index: 7, row_count: 3 }
    );
}

#[test]
fn transcript_queries_a_transition_row_in_range() {
    let config = DcmConfig521V1 { iteration_count: 6 };
    let input = DcmInput521V1::from_u64(3, 5);
    let execution = DcmExecution521V1::run(&config, &input).unwrap();
    let inputs = dcm_air_public_inputs_from_claim_521_v1(&build_dcm_claim_521_v1(&config, &input, &execution));
    let tree = build_stark_trace_commitment_tree_v1(&DcmAirTraceV1::new(execution.states.clone())).unwrap();
    let commitment = tree.commitment();
    let transcript = derive_dcm_air_stark_transcript_v1(&inputs, &commitment).unwrap();
    assert_eq!(transcript.transcript_version, 1);
    assert_eq!(transcript.transition_query_count, 1);
    let mut low = [0u8; 8];
    low.copy_from_slice(&transcript.query_challenge_digest[..8]);
    assert_eq!(transcript.queried_transition_row_index, u64::from_le_bytes(low) % 6);
    assert!(transcript.queried_transition_row_index < 6);

    let single = StarkTraceCommitmentV1 { leaf_count: 1, ..commitment };
    let one = derive_dcm_air_stark_transcript_v1(&inputs, &single).unwrap();
    assert_eq!(one.transition_query_count, 0);
    assert_eq!(one.queried_transition_row_index, 0);
    assert_ne!(one.transcript_digest, transcript.transcript_digest);

    let empty = StarkTraceCommitmentV1 { leaf_count: 0, ..commitment };
    assert_eq!(
        derive_dcm_air_stark_transcript_v1(&inputs, &empty).unwrap_err(),
        DcmAirStarkTranscriptErrorV1::UnsupportedTraceShape {
            reason: "trace_commitment.leaf_count_must_be_non_zero"
        }
    );
}
