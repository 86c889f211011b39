use aura_intent_lineage_v1::{
    derive_session_key_id_v1,
    derive_session_public_key_v1,
    derive_session_symmetric_key_v1,
    derive_shared_secret_v1,
    encode_session_encryption_context_v1,
    encode_storm_encryption_binding_v1,
    generate_session_keypair_v1,
    AuraSessionEncryptionContextV1,
    SessionKeyDerivationInputV1,
    SessionKeyV1Error,
    SessionPublicKeyV1,
    SessionSecretKeyV1,
    SharedSecretV1,
    StormEncryptionBindingErrorV1,
    StormEncryptionBindingV1,
    AURA_SESSION_KEY_ID_V1_DOMAIN_SEPARATOR,
    AURA_SESSION_SYMMETRIC_KEY_V1_DOMAIN_SEPARATOR,
    AURA_SESSION_SYMMETRIC_KEY_V1_INFO_LABEL,
};
use sha2::{Digest, Sha256};

fn hex32(text: &str) -> [u8; 32] {
    let mut out = [0u8; 32];
    for i in 0..32 {
        out[i] = u8::from_str_radix(&text[2 * i..2 * i + 2], 16).unwrap();
    }
    out
}

fn context() -> AuraSessionEncryptionContextV1 {
    AuraSessionEncryptionContextV1 {
        version: 1,
        storm_claim_digest: [0x01; 32],
        sender_id: [0x02; 32],
        receiver_id: [0x03; 32],
        freshness_nonce: [0x04; 32],
        valid_from: 10,
        valid_until: 20,
        route_tag: [0x05; 32],
        session_key_id: [0u8; 32],
    }
}

fn binding() -> StormEncryptionBindingV1 {
    StormEncryptionBindingV1 {
        storm_claim_digest: [0x01; 32],
        trace_root: [0x06; 32],
        final_state_x: [0u8; 66],
        final_state_y: [0u8; 66],
        context_hash: [0x07; 32],
        sender_id: [0x02; 32],
        receiver_id: [0x03; 32],
        session_key_id: [0u8; 32],
    }
}

#[test]
fn x25519_matches_the_published_test_vector() {
    let alice = SessionSecretKeyV1 { bytes: hex32("77076d0a7318a57d3c16c17251b26645df4c2f87ebc0992ab177fba51db92c2a") };
    let bob = SessionSecretKeyV1 { bytes: hex32("5dab087e624a8a4b79e17f8b83800ee66f3bb1292618b6fd1c2f8b27ff88e0eb") };
    let alice_public = derive_session_public_key_v1(&alice);
    let bob_public = derive_session_public_key_v1(&bob);
    assert_eq!(alice_public.bytes, hex32("8520f0098930a754748b7ddcb43ef75a0dbf3a0d26381af4eba4a98eaa9b4e6a"));
    assert_eq!(bob_public.bytes, hex32("de9edb7d7b7dc1b4d35b61c2ece435373f8343c85b78674dadfc7e146f882b4f"));
    let shared_a = derive_shared_secret_v1(&alice, &bob_public).unwrap();
    let shared_b = derive_shared_secret_v1(&bob, &alice_public).unwrap();
    assert_eq!(shared_a.bytes, hex32("4a5d9d5ba4ce2de1728e3bf480350f25e07e21c947d19e3376f09b3c1e161742"));
    assert_eq!(shared_a.bytes, shared_b.bytes);
}

#[test]
fn generated_key_pairs_agree() {
    let (a_secret, a_public) = generate_session_keypair_v1().unwrap();
    let (b_secret, b_public) = generate_session_keypair_v1().unwrap();
    assert_eq!(derive_session_public_key_v1(&a_secret), a_public);
    let ab = derive_shared_secret_v1(&a_secret, &b_public).unwrap();
    let ba = derive_shared_secret_v1(&b_secret, &a_public).unwrap();
    assert_eq!(ab.as_bytes(), ba.as_bytes());
}

#[test]
fn degenerate_peer_keys_are_refused() {
    let secret = SessionSecretKeyV1 { bytes: [0x42; 32] };
    assert_eq!(
        derive_shared_secret_v1(&secret, &SessionPublicKeyV1 { bytes: [0u8; 32] }).err(),
        Some(SessionKeyV1Error::InvalidPeerPublicKey)
    );
    let mut low_order = [0u8; 32];
    low_order[0] = 1;
    assert_eq!(
        derive_shared_secret_v1(&secret, &SessionPublicKeyV1 { bytes: low_order }).err(),
        Some(SessionKeyV1Error::SharedSecretIsIdentity)
    );
}

#[test]
fn session_key_id_hashes_the_zeroed_context_and_binding() {
    let shared = SharedSecretV1 { bytes: [0x33; 32] };
    let mut ctx = context();
    ctx.session_key_id = [0x99; 32];
    let key_id = derive_session_key_id_v1(&shared, &ctx, &binding()).unwrap();
    let mut hasher = Sha256::new();
    hasher.update(AURA_SESSION_KEY_ID_V1_DOMAIN_SEPARATOR);
    hasher.update(shared.bytes);
    hasher.update(encode_session_encryption_context_v1(&context()).unwrap());
    hasher.update(encode_storm_encryption_binding_v1(&binding()).unwrap());
    let expected: [u8; 32] = hasher.finalize().into();
    assert_eq!(key_id, expected);
}

#[test]
fn symmetric_key_is_hkdf_of_the_bound_material() {
    let shared = SharedSecretV1 { bytes: [0x33; 32] };
    let key_id = derive_session_key_id_v1(&shared, &context(), &binding()).unwrap();
    let mut ctx = context();
    ctx.session_key_id = key_id;
    let mut bnd = binding();
    bnd.session_key_id = key_id;
    let input = SessionKeyDerivationInputV1 {
        shared_secret: shared,
        session_encryption_context: ctx,
        storm_encryption_binding: bnd,
    };
    let key = derive_session_symmetric_key_v1(&input).unwrap();

    let context_bytes = encode_session_encryption_context_v1(&ctx).unwrap();
    let binding_bytes = encode_storm_encryption_binding_v1(&bnd).unwrap();
    let mut ikm = shared.bytes.to_vec();
    ikm.extend_from_slice(&context_bytes);
    ikm.extend_from_slice(&binding_bytes);
    let salt = ring::hkdf::Salt::new(ring::hkdf::HKDF_SHA256, &AURA_SESSION_SYMMETRIC_KEY_V1_DOMAIN_SEPARATOR);
    let prk = salt.extract(&ikm);
    let info = [
        &AURA_SESSION_SYMMETRIC_KEY_V1_INFO_LABEL[..],
        &context_bytes[..],
        &binding_bytes[..],
    ];
    let okm = prk.expand(&info, ring::hkdf::HKDF_SHA256).unwrap();
    let mut expected = [0u8; 32];
    okm.fill(&mut expected).unwrap();
    assert_eq!(key.bytes, expected);
    assert_ne!(key.bytes, shared.bytes);
}

#[test]
fn symmetric_key_errors_are_reported() {
    let shared = SharedSecretV1 { bytes: [0x33; 32] };
    let key_id = derive_session_key_id_v1(&shared, &context(), &binding()).unwrap();

    let mut sender = binding();
    sender.sender_id = [0x0f; 32];
    assert_eq!(
        derive_session_key_id_v1(&shared, &context(), &sender).err(),
        Some(SessionKeyV1Error::StormBindingMismatch { field: "sender_id" })
    );
    let mut version = context();
    version.version = 9;
    assert_eq!(
        derive_session_key_id_v1(&shared, &version, &binding()).err(),
        Some(SessionKeyV1Error::InvalidSessionEncryptionContext)
    );
    let mut point = binding();
    point.final_state_y = [0xff; 66];
    assert_eq!(
        derive_session_key_id_v1(&shared, &context(), &point).err(),
        Some(SessionKeyV1Error::InvalidStormEncryptionBinding(
            StormEncryptionBindingErrorV1::InvalidFinalStateY
        ))
    );

    let mut ctx = context();
    ctx.session_key_id = key_id;
    let input = SessionKeyDerivationInputV1 {
        shared_secret: shared,
        session_encryption_context: ctx,
        storm_encryption_binding: binding(),
    };
    assert_eq!(
        derive_session_symmetric_key_v1(&input).err(),
        Some(SessionKeyV1Error::SessionKeyIdMismatch { expected: key_id, actual: [0u8; 32] })
    );
}
