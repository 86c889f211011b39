use aura_intent_lineage_v1::legacy::catmap_v1::{
    AURA_DETERMINISTIC_COMMITMENT_521_EXPAND_X_V1,
    AURA_DETERMINISTIC_COMMITMENT_521_EXPAND_Y_V1,
    DETERMINISTIC_COMMITMENT_521_BYTE_LEN_V1,
    DeterministicCommitment521V1,
    derive_deterministic_commitment_521_v1,
    expand_commitment_bytes_v1,
    sha512_domain_separated_bytes_v1,
};

#[test]
fn deterministic_commitment_bytes_round_trip() {
    let commitment = derive_deterministic_commitment_521_v1(b"TEST_DOMAIN", b"test-body");
    let bytes = commitment.to_bytes();
    let reparsed = DeterministicCommitment521V1::from_bytes(bytes).unwrap();

    assert_eq!(bytes.len(), DETERMINISTIC_COMMITMENT_521_BYTE_LEN_V1);
    assert_eq!(reparsed, commitment);
}

#[test]
fn deterministic_commitment_changes_with_domain_separator() {
    let first = derive_deterministic_commitment_521_v1(b"DOMAIN_A", b"same-body");
    let second = derive_deterministic_commitment_521_v1(b"DOMAIN_B", b"same-body");

    assert_ne!(first, second);
}

#[test]
fn deterministic_commitment_changes_with_body() {
    let first = derive_deterministic_commitment_521_v1(b"DOMAIN", b"body-a");
    let second = derive_deterministic_commitment_521_v1(b"DOMAIN", b"body-b");

    assert_ne!(first, second);
}

#[test]
fn deterministic_commitment_is_reproducible() {
    let first = derive_deterministic_commitment_521_v1(
        b"AURA_LAYER3_AUTHORIZATION_LINEAGE_CONSUMER_RESULT_V1",
        b"deterministic-body",
    );
    let second = derive_deterministic_commitment_521_v1(
        b"AURA_LAYER3_AUTHORIZATION_LINEAGE_CONSUMER_RESULT_V1",
        b"deterministic-body",
    );

    assert_eq!(first, second);
    assert!(!first.is_zero());
}

#[test]
fn deterministic_commitment_uses_two_distinct_sha512_expansion_tags() {
    let canonical_input = b"same-canonical-input";
    let expand_x =
        sha512_domain_separated_bytes_v1(&AURA_DETERMINISTIC_COMMITMENT_521_EXPAND_X_V1, canonical_input);
    let expand_y =
        sha512_domain_separated_bytes_v1(&AURA_DETERMINISTIC_COMMITMENT_521_EXPAND_Y_V1, canonical_input);
    let expanded = expand_commitment_bytes_v1(canonical_input);

    assert_ne!(expand_x, expand_y);
    assert_eq!(&expanded[..64], expand_x.as_slice());
    assert_eq!(&expanded[64..], expand_y.as_slice());
}
