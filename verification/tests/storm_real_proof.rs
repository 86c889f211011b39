use aura_intent_lineage_v1::{
    build_storm_air_public_inputs_v1,
    build_storm_claim_v1,
    canonical_storm_real_proof_bytes_v1,
    decode_storm_air_real_artifact_v1,
    decode_storm_real_proof_bytes_v1,
    derive_storm_air_real_proof_binding_digest_v1,
    derive_storm_air_real_public_input_digest_v1,
    derive_storm_air_real_proof_bytes_digest_v1,
    prove_storm_air_real_v1,
    verify_storm_air_real_v1,
    FieldElement521V1,
    StormAirRealProofDecodeErrorV1,
    StormAirRealProverErrorV1,
    StormAirRealVerifierAcceptanceV1,
    StormAirRealVerifierErrorV1,
    StormClaim521V1,
    StormContextV1,
    StormExecutionInputsV1,
    StormTraceWitnessEncodingErrorV1,
    STORM_CONTEXT_V1_VERSION,
};

fn canonical_claim() -> StormClaim521V1 {
    let inputs = StormExecutionInputsV1 {
        side_a: [0x91; 110],
        side_b: [0x19; 110],
        context_bytes_v1: StormContextV1 {
            context_version: STORM_CONTEXT_V1_VERSION,
            network_id: [0x10; 32],
            intent_hash: [0x20; 32],
            freshness_nonce: [0x30; 32],
            valid_from: 7,
            valid_until: 11,
            controller_id: [0x40; 32],
            route_tag: [0x50; 32],
        }
        .to_bytes(),
        iteration_count: 5,
    };
    build_storm_claim_v1(&inputs, [0x7b; 32], [0x76; 32])
}

#[test]
fn storm_real_prove_and_verify_accepts_canonical_case() {
    let claim = canonical_claim();
    let public_inputs = build_storm_air_public_inputs_v1(&claim);
    let proof = prove_storm_air_real_v1(&claim, &public_inputs).unwrap();
    let acceptance = verify_storm_air_real_v1(&public_inputs, &proof).unwrap();

    assert_eq!(
        acceptance,
        StormAirRealVerifierAcceptanceV1 {
            verified_public_input_digest: proof.public_input_digest,
            verified_proof_bytes_digest: proof.proof_bytes_digest,
            verified_proof_binding_digest: proof.proof_binding_digest,
            verified_trace_state_count: proof.trace_state_count,
        }
    );
}

#[test]
fn storm_real_verifier_rejects_tampered_phi_n_even_when_digests_are_recomputed() {
    let claim = canonical_claim();
    let public_inputs = build_storm_air_public_inputs_v1(&claim);
    let mut proof = prove_storm_air_real_v1(&claim, &public_inputs).unwrap();
    let (decoded_claim, mut witness) = decode_storm_real_proof_bytes_v1(&proof.proof_bytes).unwrap();
    witness.steps[0].phi_n = FieldElement521V1::from_u64(9);
    proof.proof_bytes = canonical_storm_real_proof_bytes_v1(&decoded_claim, &witness);
    proof.proof_bytes_digest = derive_storm_air_real_proof_bytes_digest_v1(&proof.proof_bytes);
    proof.proof_binding_digest = derive_storm_air_real_proof_binding_digest_v1(&proof);

    assert!(matches!(
        verify_storm_air_real_v1(&public_inputs, &proof).unwrap_err(),
        StormAirRealVerifierErrorV1::WitnessValidationFailed(_)
    ));
}

#[test]
fn storm_real_verifier_rejects_tampered_trace_root_even_when_digests_are_recomputed() {
    let claim = canonical_claim();
    let public_inputs = build_storm_air_public_inputs_v1(&claim);
    let mut proof = prove_storm_air_real_v1(&claim, &public_inputs).unwrap();
    let (mut decoded_claim, witness) = decode_storm_real_proof_bytes_v1(&proof.proof_bytes).unwrap();
    decoded_claim.trace_root[0] ^= 0x01;
    proof.proof_bytes = canonical_storm_real_proof_bytes_v1(&decoded_claim, &witness);
    proof.proof_bytes_digest = derive_storm_air_real_proof_bytes_digest_v1(&proof.proof_bytes);
    proof.proof_binding_digest = derive_storm_air_real_proof_binding_digest_v1(&proof);

    assert!(matches!(
        verify_storm_air_real_v1(&public_inputs, &proof).unwrap_err(),
        StormAirRealVerifierErrorV1::ClaimValidationFailed(_)
    ));
}

#[test]
fn storm_real_proof_bytes_round_trip_through_decoding() {
    let claim = canonical_claim();
    let public_inputs = build_storm_air_public_inputs_v1(&claim);
    let proof = prove_storm_air_real_v1(&claim, &public_inputs).unwrap();
    let (decoded_claim, witness) = decode_storm_real_proof_bytes_v1(&proof.proof_bytes).unwrap();
    assert_eq!(decoded_claim, claim);
    assert_eq!(canonical_storm_real_proof_bytes_v1(&decoded_claim, &witness), proof.proof_bytes);
    assert_eq!(&proof.proof_bytes[0..8], &799u64.to_le_bytes());
}

#[test]
fn decoded_artifact_equals_the_proved_artifact() {
    let claim = canonical_claim();
    let public_inputs = build_storm_air_public_inputs_v1(&claim);
    let proof = prove_storm_air_real_v1(&claim, &public_inputs).unwrap();
    let (decoded_claim, artifact) = decode_storm_air_real_artifact_v1(proof.proof_bytes.clone()).unwrap();
    assert_eq!(decoded_claim, claim);
    assert_eq!(artifact, proof);
    assert_eq!(artifact.trace_state_count, 6);
}

#[test]
fn prover_rejects_public_inputs_of_another_claim() {
    let claim = canonical_claim();
    let mut public_inputs = build_storm_air_public_inputs_v1(&claim);
    public_inputs.iteration_count += 1;
    assert_eq!(
        prove_storm_air_real_v1(&claim, &public_inputs).unwrap_err(),
        StormAirRealProverErrorV1::PublicInputsMismatch { field: "public_inputs" }
    );
}

#[test]
fn verifier_rejects_each_header_mismatch() {
    let claim = canonical_claim();
    let public_inputs = build_storm_air_public_inputs_v1(&claim);
    let proof = prove_storm_air_real_v1(&claim, &public_inputs).unwrap();

    let mut bad = proof.clone();
    bad.backend_kind = 1;
    assert_eq!(
        verify_storm_air_real_v1(&public_inputs, &bad).unwrap_err(),
        StormAirRealVerifierErrorV1::UnsupportedBackendKind { expected: 2, actual: 1 }
    );
    let mut bad = proof.clone();
    bad.proof_version = 9;
    assert_eq!(
        verify_storm_air_real_v1(&public_inputs, &bad).unwrap_err(),
        StormAirRealVerifierErrorV1::UnsupportedProofVersion { expected: 1, actual: 9 }
    );
    let mut bad = proof.clone();
    bad.trace_state_count = 5;
    assert_eq!(
        verify_storm_air_real_v1(&public_inputs, &bad).unwrap_err(),
        StormAirRealVerifierErrorV1::UnsupportedTraceShape { reason: "trace_state_count_mismatch" }
    );
    let mut bad = proof.clone();
    bad.trace_width = 7;
    assert_eq!(
        verify_storm_air_real_v1(&public_inputs, &bad).unwrap_err(),
        StormAirRealVerifierErrorV1::UnsupportedTraceShape { reason: "trace_width_mismatch" }
    );
    let mut bad = proof.clone();
    bad.public_input_digest[3] ^= 1;
    assert!(matches!(
        verify_storm_air_real_v1(&public_inputs, &bad).unwrap_err(),
        StormAirRealVerifierErrorV1::PublicInputDigestMismatch { .. }
    ));
    let mut bad = proof.clone();
    bad.proof_binding_digest[0] ^= 1;
    assert!(matches!(
        verify_storm_air_real_v1(&public_inputs, &bad).unwrap_err(),
        StormAirRealVerifierErrorV1::ProofBindingDigestMismatch { .. }
    ));
    let mut bad = proof.clone();
    bad.proof_bytes.push(0);
    assert!(matches!(
        verify_storm_air_real_v1(&public_inputs, &bad).unwrap_err(),
        StormAirRealVerifierErrorV1::ProofBytesDigestMismatch { .. }
    ));
}

#[test]
fn proof_bytes_decoding_reports_framing_errors() {
    assert_eq!(
        decode_storm_real_proof_bytes_v1(&[1, 2, 3]).unwrap_err(),
        StormAirRealProofDecodeErrorV1::InvalidLength { field: "claim_len", expected: 8, actual: 3 }
    );
    let mut bytes = 799u64.to_le_bytes().to_vec();
    bytes.extend_from_slice(&[0u8; 10]);
    assert_eq!(
        decode_storm_real_proof_bytes_v1(&bytes).unwrap_err(),
        StormAirRealProofDecodeErrorV1::InvalidLength { field: "claim", expected: 799, actual: 10 }
    );
    let claim = canonical_claim();
    let public_inputs = build_storm_air_public_inputs_v1(&claim);
    let proof = prove_storm_air_real_v1(&claim, &public_inputs).unwrap();
    let mut long = proof.proof_bytes.clone();
    long.extend_from_slice(&[0u8; 3]);
    assert_eq!(
        decode_storm_real_proof_bytes_v1(&long).unwrap_err(),
        StormAirRealProofDecodeErrorV1::TrailingBytes { remaining: 3 }
    );
    let short = proof.proof_bytes[..8 + 799 + 4].to_vec();
    assert_eq!(
        decode_storm_real_proof_bytes_v1(&short).unwrap_err(),
        StormAirRealProofDecodeErrorV1::InvalidLength { field: "witness_len", expected: 8, actual: 4 }
    );
}

#[test]
fn storm_real_verifier_refuses_a_claim_too_long_to_execute() {
    let claim = canonical_claim();
    let public_inputs = build_storm_air_public_inputs_v1(&claim);
    let mut proof = prove_storm_air_real_v1(&claim, &public_inputs).unwrap();
    let (mut decoded_claim, witness) = decode_storm_real_proof_bytes_v1(&proof.proof_bytes).unwrap();
    decoded_claim.iteration_count = u64::MAX;
    proof.proof_bytes = canonical_storm_real_proof_bytes_v1(&decoded_claim, &witness);
    proof.proof_bytes_digest = derive_storm_air_real_proof_bytes_digest_v1(&proof.proof_bytes);
    proof.proof_binding_digest = derive_storm_air_real_proof_binding_digest_v1(&proof);

    assert_eq!(
        verify_storm_air_real_v1(&public_inputs, &proof).unwrap_err(),
        StormAirRealVerifierErrorV1::UnsupportedTraceShape { reason: "iteration_count_overflow" }
    );
    assert_eq!(
        decode_storm_air_real_artifact_v1(proof.proof_bytes.clone()).unwrap_err(),
        StormAirRealProofDecodeErrorV1::InvalidTraceStateCount
    );
}

#[test]
fn storm_real_verifier_reports_a_witness_that_does_not_decode() {
    let claim = canonical_claim();
    let public_inputs = build_storm_air_public_inputs_v1(&claim);
    let mut proof = prove_storm_air_real_v1(&claim, &public_inputs).unwrap();
    let mut bytes = proof.proof_bytes[..807].to_vec();
    bytes.extend_from_slice(&574u64.to_le_bytes());
    bytes.extend_from_slice(&proof.proof_bytes[815..815 + 566]);
    bytes.extend_from_slice(&u64::MAX.to_le_bytes());
    proof.proof_bytes = bytes;
    proof.proof_bytes_digest = derive_storm_air_real_proof_bytes_digest_v1(&proof.proof_bytes);
    proof.proof_binding_digest = derive_storm_air_real_proof_binding_digest_v1(&proof);

    assert_eq!(
        verify_storm_air_real_v1(&public_inputs, &proof).unwrap_err(),
        StormAirRealVerifierErrorV1::ProofDecode(StormAirRealProofDecodeErrorV1::WitnessDecode(
            StormTraceWitnessEncodingErrorV1::InvalidLength {
                field: "trace_state",
                expected: 132,
                actual: 0,
            }
        ))
    );
}

#[test]
fn storm_real_verifier_reports_public_inputs_of_another_claim() {
    let claim = canonical_claim();
    let public_inputs = build_storm_air_public_inputs_v1(&claim);
    let proof = prove_storm_air_real_v1(&claim, &public_inputs).unwrap();
    let mut other_inputs = public_inputs;
    other_inputs.side_a_hash[0] ^= 0x01;
    let mut rebound = proof.clone();
    rebound.public_input_digest = derive_storm_air_real_public_input_digest_v1(&other_inputs);
    rebound.proof_binding_digest = derive_storm_air_real_proof_binding_digest_v1(&rebound);

    assert_eq!(
        verify_storm_air_real_v1(&other_inputs, &rebound).unwrap_err(),
        StormAirRealVerifierErrorV1::PublicInputsMismatch { field: "public_inputs" }
    );
}
