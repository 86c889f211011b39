use aura_intent_lineage_v1::{
    canonical_message_bytes_v1,
    canonical_text_payload_bytes_from_text_v1,
    canonical_text_payload_bytes_v1,
    decode_and_normalize_message_utf8_v1,
    normalize_text_message_v1,
    AuraHashV1Error,
    AURA_HASH_V1_BOM_CODEPOINT,
    AURA_HASH_V1_LENGTH_PREFIX_BYTES,
};
use aura_intent_lineage_v1::legacy::aura_hash_v1::{
    aura_hash_v1,
    canonical_message_hash_preimage_v1,
    AURA_HASH_V1_DOMAIN_SEPARATOR,
};
use sha2::{Digest, Sha256};

#[test]
fn line_endings_become_newlines() {
    assert_eq!(normalize_text_message_v1("a\r\nb\rc\nd").unwrap(), "a\nb\nc\nd");
    assert_eq!(normalize_text_message_v1("\r\r\n").unwrap(), "\n\n");
}

#[test]
fn text_is_put_in_nfc() {
    assert_eq!(normalize_text_message_v1("e\u{301}").unwrap(), "\u{e9}");
    assert_eq!(normalize_text_message_v1("\u{e9}").unwrap(), "\u{e9}");
    assert_eq!(canonical_text_payload_bytes_from_text_v1("e\u{301}").unwrap(), vec![0xc3, 0xa9]);
}

#[test]
fn a_bom_is_refused_at_its_byte_index() {
    let with_bom = format!("ab{}", AURA_HASH_V1_BOM_CODEPOINT);
    assert_eq!(
        normalize_text_message_v1(&with_bom),
        Err(AuraHashV1Error::MessageContainsBom { index: 2 })
    );
    let after_two_byte_char = format!("\u{e9}{}x", AURA_HASH_V1_BOM_CODEPOINT);
    assert_eq!(
        normalize_text_message_v1(&after_two_byte_char),
        Err(AuraHashV1Error::MessageContainsBom { index: 2 })
    );
    assert_eq!(
        AuraHashV1Error::MessageContainsBom { index: 2 }.reject_reason(),
        "message_contains_bom"
    );
}

#[test]
fn invalid_utf8_reports_the_valid_prefix() {
    assert_eq!(
        decode_and_normalize_message_utf8_v1(&[0x61, 0x62, 0xff, 0x63]),
        Err(AuraHashV1Error::InvalidUtf8 { valid_up_to: 2 })
    );
    assert_eq!(
        canonical_text_payload_bytes_v1(&[0xe2, 0x82]),
        Err(AuraHashV1Error::InvalidUtf8 { valid_up_to: 0 })
    );
    assert_eq!(
        AuraHashV1Error::InvalidUtf8 { valid_up_to: 0 }.reject_reason(),
        "message_must_be_valid_utf8"
    );
    assert_eq!(canonical_text_payload_bytes_v1(b"x\r\ny").unwrap(), b"x\ny".to_vec());
}

#[test]
fn canonical_message_is_length_prefixed() {
    let canonical = canonical_message_bytes_v1(b"abc").unwrap();
    assert_eq!(canonical.len(), AURA_HASH_V1_LENGTH_PREFIX_BYTES + 3);
    assert_eq!(canonical, vec![3, 0, 0, 0, 0, 0, 0, 0, b'a', b'b', b'c']);
    assert_eq!(canonical_message_bytes_v1(b"").unwrap(), vec![0u8; 8]);
}

#[test]
fn hash_is_sha256_of_the_domain_and_the_canonical_message() {
    let preimage = canonical_message_hash_preimage_v1(b"abc").unwrap();
    let mut expected_preimage = AURA_HASH_V1_DOMAIN_SEPARATOR.to_vec();
    expected_preimage.extend_from_slice(&[3, 0, 0, 0, 0, 0, 0, 0, b'a', b'b', b'c']);
    assert_eq!(preimage, expected_preimage);

    let hash = aura_hash_v1(b"abc").unwrap();
    let expected: [u8; 32] = Sha256::digest(&expected_preimage).into();
    assert_eq!(hash, expected);
    assert_ne!(aura_hash_v1(b"abd").unwrap(), hash);
    assert_eq!(AURA_HASH_V1_DOMAIN_SEPARATOR, *b"AURA_HASH_V1");
}
