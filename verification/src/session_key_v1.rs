//! Session key agreement (X25519) and symmetric key derivation (HKDF-SHA256)
//! for session encryption, bound to a session encryption context and to a
//! Storm encryption binding.

use crate::digest_v1::{sha256_domain_separated, sha256_domain_separated_spec};
use crate::session_encryption_context_v1::{
    encode_session_encryption_context_v1, session_context_bytes_spec, session_context_error_spec,
    AuraSessionEncryptionContextV1,
};
use crate::storm_encryption_binding_v1::{
    binding_bytes_spec, binding_error_spec, encode_storm_encryption_binding_v1,
    StormEncryptionBindingErrorV1, StormEncryptionBindingV1,
};
use crate::encoding_v1::append_bytes;
use crate::field_521_v1::bytes_equal;
use curve25519_dalek::constants::X25519_BASEPOINT;
use curve25519_dalek::montgomery::MontgomeryPoint;
use curve25519_dalek::scalar::Scalar;
use ring::rand::SecureRandom;
use vstd::prelude::*;

verus! {

pub const SESSION_KEY_MATERIAL_V1_LEN: usize = 32;

/// `"AURA_SESSION_KEY_ID_V1"`.
pub const AURA_SESSION_KEY_ID_V1_DOMAIN_SEPARATOR: [u8; 22] = [0x41, 0x55, 0x52, 0x41, 0x5f, 0x53, 0x45, 0x53, 0x53, 0x49, 0x4f, 0x4e, 0x5f, 0x4b, 0x45, 0x59, 0x5f, 0x49, 0x44, 0x5f, 0x56, 0x31];

/// `"AURA_SESSION_SYMMETRIC_KEY_V1"`.
pub const AURA_SESSION_SYMMETRIC_KEY_V1_DOMAIN_SEPARATOR: [u8; 29] = [0x41, 0x55, 0x52, 0x41, 0x5f, 0x53, 0x45, 0x53, 0x53, 0x49, 0x4f, 0x4e, 0x5f, 0x53, 0x59, 0x4d, 0x4d, 0x45, 0x54, 0x52, 0x49, 0x43, 0x5f, 0x4b, 0x45, 0x59, 0x5f, 0x56, 0x31];

/// `"AURA_SESSION_SYMMETRIC_KEY_V1_INFO"`.
pub const AURA_SESSION_SYMMETRIC_KEY_V1_INFO_LABEL: [u8; 34] = [0x41, 0x55, 0x52, 0x41, 0x5f, 0x53, 0x45, 0x53, 0x53, 0x49, 0x4f, 0x4e, 0x5f, 0x53, 0x59, 0x4d, 0x4d, 0x45, 0x54, 0x52, 0x49, 0x43, 0x5f, 0x4b, 0x45, 0x59, 0x5f, 0x56, 0x31, 0x5f, 0x49, 0x4e, 0x46, 0x4f];

#[verifier::external_type_specification]
#[verifier::external_body]
pub struct ExRingUnspecified(ring::error::Unspecified);

#[verifier::external_type_specification]
#[verifier::external_body]
pub struct ExRingSystemRandom(ring::rand::SystemRandom);

/// An X25519 public key.
#[derive(Clone, Copy, Debug, PartialEq, Eq)]
pub struct SessionPublicKeyV1 {
    pub bytes: [u8; 32],
}

/// An X25519 secret key. It has no `Debug`, so that it is never printed.
#[derive(Clone, Copy, PartialEq, Eq)]
pub struct SessionSecretKeyV1 {
    pub bytes: [u8; 32],
}

/// An X25519 shared secret. It has no `Debug`, so that it is never printed.
#[derive(Clone, Copy, PartialEq, Eq)]
pub struct SharedSecretV1 {
    pub bytes: [u8; 32],
}

/// What a symmetric key is derived from.
#[derive(Clone, Copy, PartialEq, Eq)]
pub struct SessionKeyDerivationInputV1 {
    pub shared_secret: SharedSecretV1,
    pub session_encryption_context: AuraSessionEncryptionContextV1,
    pub storm_encryption_binding: StormEncryptionBindingV1,
}

/// A symmetric session key. It has no `Debug`, so that it is never printed.
#[derive(Clone, Copy, PartialEq, Eq)]
pub struct SessionSymmetricKeyV1 {
    pub bytes: [u8; 32],
}

/// Why a key is not produced.
#[derive(Clone, Copy, Debug, PartialEq, Eq)]
pub enum SessionKeyV1Error {
    SecureRandomUnavailable,
    InvalidPeerPublicKey,
    SharedSecretIsIdentity,
    InvalidSessionEncryptionContext,
    InvalidStormEncryptionBinding(StormEncryptionBindingErrorV1),
    StormBindingMismatch { field: &'static str },
    SessionKeyIdMismatch { expected: [u8; 32], actual: [u8; 32] },
    KeyExpansionFailed,
}

impl SessionPublicKeyV1 {
    pub fn as_bytes(&self) -> (bytes: &[u8; 32])
        ensures
            *bytes == self.bytes,
    {
        &self.bytes
    }
}

impl SessionSecretKeyV1 {
    pub fn as_bytes(&self) -> (bytes: &[u8; 32])
        ensures
            *bytes == self.bytes,
    {
        &self.bytes
    }
}

impl SharedSecretV1 {
    pub fn as_bytes(&self) -> (bytes: &[u8; 32])
        ensures
            *bytes == self.bytes,
    {
        &self.bytes
    }
}

impl SessionSymmetricKeyV1 {
    pub fn as_bytes(&self) -> (bytes: &[u8; 32])
        ensures
            *bytes == self.bytes,
    {
        &self.bytes
    }
}

/// The X25519 Montgomery-ladder product of a 32-byte scalar (its top bit
/// ignored) and the u-coordinate of a point, encoded in 32 bytes.
pub uninterp spec fn x25519_montgomery_spec(scalar_bits: Seq<u8>, point: Seq<u8>) -> Seq<u8>;

/// The 32 bytes of HKDF-SHA256 output keying material for a salt, input
/// keying material and info string.
pub uninterp spec fn hkdf_sha256_32_spec(salt: Seq<u8>, ikm: Seq<u8>, info: Seq<u8>) -> Seq<u8>;

/// The u-coordinate of the X25519 base point: 9.
pub open spec fn x25519_basepoint_spec() -> Seq<u8> {
    seq![9u8] + Seq::new(31, |i: int| 0u8)
}

/// Clamping of an X25519 secret: the low three bits of the first byte are
/// cleared, the top bit of the last byte cleared and the one below it set.
pub open spec fn clamp_spec(bytes: Seq<u8>) -> Seq<u8> {
    bytes.update(0, bytes[0] & 248).update(31, (bytes[31] & 127) | 64)
}

/// The public key of a secret key.
pub open spec fn session_public_key_spec(secret: Seq<u8>) -> Seq<u8> {
    x25519_montgomery_spec(clamp_spec(secret), x25519_basepoint_spec())
}

/// The shared secret of a secret key and a peer public key.
pub open spec fn shared_secret_spec(secret: Seq<u8>, peer: Seq<u8>) -> Seq<u8> {
    x25519_montgomery_spec(clamp_spec(secret), peer)
}

/// Every byte is zero.
pub open spec fn all_zero(bytes: Seq<u8>) -> bool {
    forall|i: int| 0 <= i < bytes.len() ==> bytes[i] == 0
}

/// Calls `Scalar::from_bits` on the scalar bytes (which clears their top
/// bit), multiplies the Montgomery point with those u-coordinate bytes by it
/// (`&Scalar * &MontgomeryPoint`) and returns `to_bytes` of the product.
/// Trusted: the product is `x25519_montgomery_spec` of the two arguments.
#[verifier::external_body]
fn x25519_montgomery_mul(scalar_bits: [u8; 32], point: [u8; 32]) -> (product: [u8; 32])
    ensures
        product@ == x25519_montgomery_spec(scalar_bits@, point@),
{
    #[allow(deprecated)]
    let scalar = Scalar::from_bits(scalar_bits);
    (&scalar * &MontgomeryPoint(point)).to_bytes()
}

/// The bytes of `curve25519_dalek::constants::X25519_BASEPOINT`. Trusted: the
/// constant is defined in that crate as the u-coordinate 9, little-endian.
#[verifier::external_body]
fn x25519_basepoint_bytes() -> (bytes: [u8; 32])
    ensures
        bytes@ == x25519_basepoint_spec(),
{
    X25519_BASEPOINT.to_bytes()
}

/// Runs `ring::hkdf` with `HKDF_SHA256`: `Salt::new` and `extract` (the
/// HKDF-Extract step), then `Prk::expand` to 32 bytes and `Okm::fill` (the
/// HKDF-Expand step). Trusted: the output is `hkdf_sha256_32_spec` of the
/// salt, the input keying material and the info, and the call succeeds, as
/// ring fails only for outputs longer than 255 digests or for an output
/// buffer of another length than the one expanded to.
#[verifier::external_body]
fn hkdf_sha256_32(salt: &[u8], ikm: &[u8], info: &[u8]) -> (result: Result<[u8; 32], ring::error::Unspecified>)
    ensures
        result is Ok,
        result->Ok_0@ == hkdf_sha256_32_spec(salt@, ikm@, info@),
{
    let prk = ring::hkdf::Salt::new(ring::hkdf::HKDF_SHA256, salt).extract(ikm);
    let info_parts = [info];
    let okm = prk.expand(&info_parts, ring::hkdf::HKDF_SHA256)?;
    let mut out = [0u8; 32];
    okm.fill(&mut out)?;
    Ok(out)
}

/// Calls `ring::rand::SystemRandom::new`.
#[verifier::external_body]
fn system_random_new() -> (rng: ring::rand::SystemRandom) {
    ring::rand::SystemRandom::new()
}

/// Calls `SecureRandom::fill` of a `SystemRandom` on 32 bytes. Nothing is
/// stated of the bytes: they come from the operating system.
#[verifier::external_body]
fn system_random_fill(rng: &ring::rand::SystemRandom, dest: &mut [u8; 32]) -> (result: Result<(), ring::error::Unspecified>) {
    rng.fill(dest)
}

/// Clamps X25519 secret bytes.
fn clamp_x25519_scalar_bytes_v1(scalar_bytes: [u8; 32]) -> (clamped: [u8; 32])
    ensures
        clamped@ == clamp_spec(scalar_bytes@),
{
    let mut clamped = scalar_bytes;
    clamped[0] = clamped[0] & 248;
    clamped[31] = clamped[31] & 127;
    clamped[31] = clamped[31] | 64;
    proof {
        assert(clamped@ =~= clamp_spec(scalar_bytes@));
    }
    clamped
}

fn is_all_zero(bytes: &[u8; 32]) -> (zero: bool)
    ensures
        zero == all_zero(bytes@),
{
    let mut index: usize = 0;
    while index < 32
        invariant
            0 <= index <= 32,
            bytes@.len() == 32,
            forall|i: int| 0 <= i < index ==> bytes@[i] == 0,
        decreases 32 - index,
    {
        if bytes[index] != 0 {
            return false;
        }
        index += 1;
    }
    true
}

/// The public key of a secret key: the clamped secret times the base point.
pub fn derive_session_public_key_v1(secret_key: &SessionSecretKeyV1) -> (public_key: SessionPublicKeyV1)
    ensures
        public_key.bytes@ == session_public_key_spec(secret_key.bytes@),
{
    let scalar_bits = clamp_x25519_scalar_bytes_v1(secret_key.bytes);
    let basepoint = x25519_basepoint_bytes();
    SessionPublicKeyV1 { bytes: x25519_montgomery_mul(scalar_bits, basepoint) }
}

/// A fresh key pair: 32 random secret bytes and their public key.
pub fn generate_session_keypair_v1() -> (result: Result<(SessionSecretKeyV1, SessionPublicKeyV1), SessionKeyV1Error>)
    ensures
        result matches Ok((secret_key, public_key)) ==> public_key.bytes@ == session_public_key_spec(
            secret_key.bytes@,
        ),
        result matches Err(error) ==> error == SessionKeyV1Error::SecureRandomUnavailable,
{
    let rng = system_random_new();
    let mut secret_bytes = [0u8; 32];
    match system_random_fill(&rng, &mut secret_bytes) {
        Ok(()) => {},
        Err(_) => {
            return Err(SessionKeyV1Error::SecureRandomUnavailable);
        },
    }
    let secret_key = SessionSecretKeyV1 { bytes: secret_bytes };
    let public_key = derive_session_public_key_v1(&secret_key);
    Ok((secret_key, public_key))
}

/// The X25519 shared secret of a local secret key and a peer public key; an
/// all-zero peer key and an all-zero result are refused.
pub fn derive_shared_secret_v1(local_secret_key: &SessionSecretKeyV1, peer_public_key: &SessionPublicKeyV1) -> (result: Result<SharedSecretV1, SessionKeyV1Error>)
    ensures
        all_zero(peer_public_key.bytes@) ==> result == Err::<SharedSecretV1, SessionKeyV1Error>(
            SessionKeyV1Error::InvalidPeerPublicKey,
        ),
        !all_zero(peer_public_key.bytes@) && all_zero(
            shared_secret_spec(local_secret_key.bytes@, peer_public_key.bytes@),
        ) ==> result == Err::<SharedSecretV1, SessionKeyV1Error>(
            SessionKeyV1Error::SharedSecretIsIdentity,
        ),
        !all_zero(peer_public_key.bytes@) && !all_zero(
            shared_secret_spec(local_secret_key.bytes@, peer_public_key.bytes@),
        ) ==> (result matches Ok(shared) && shared.bytes@ == shared_secret_spec(
            local_secret_key.bytes@,
            peer_public_key.bytes@,
        )),
{
    if is_all_zero(&peer_public_key.bytes) {
        return Err(SessionKeyV1Error::InvalidPeerPublicKey);
    }
    let scalar_bits = clamp_x25519_scalar_bytes_v1(local_secret_key.bytes);
    let shared_secret = x25519_montgomery_mul(scalar_bits, peer_public_key.bytes);
    if is_all_zero(&shared_secret) {
        return Err(SessionKeyV1Error::SharedSecretIsIdentity);
    }
    Ok(SharedSecretV1 { bytes: shared_secret })
}

/// The first of the claim digest, sender and receiver on which the context
/// and the binding disagree, if any.
pub open spec fn alignment_error_spec(context: AuraSessionEncryptionContextV1, binding: StormEncryptionBindingV1) -> Option<SessionKeyV1Error> {
    if context.storm_claim_digest@ != binding.storm_claim_digest@ {
        Some(SessionKeyV1Error::StormBindingMismatch { field: "storm_claim_digest" })
    } else if context.sender_id@ != binding.sender_id@ {
        Some(SessionKeyV1Error::StormBindingMismatch { field: "sender_id" })
    } else if context.receiver_id@ != binding.receiver_id@ {
        Some(SessionKeyV1Error::StormBindingMismatch { field: "receiver_id" })
    } else {
        None
    }
}

/// The error a key-id derivation reports, if any: misalignment, then an
/// invalid context, then an invalid binding.
pub open spec fn key_id_error_spec(context: AuraSessionEncryptionContextV1, binding: StormEncryptionBindingV1) -> Option<SessionKeyV1Error> {
    if alignment_error_spec(context, binding) is Some {
        alignment_error_spec(context, binding)
    } else if session_context_error_spec(context) is Some {
        Some(SessionKeyV1Error::InvalidSessionEncryptionContext)
    } else if binding_error_spec(binding) is Some {
        Some(SessionKeyV1Error::InvalidStormEncryptionBinding(binding_error_spec(binding)->0))
    } else {
        None
    }
}

/// Thirty-two zero bytes.
pub open spec fn zero_key_id() -> Seq<u8> {
    Seq::new(32, |i: int| 0u8)
}

/// The encoding of a context with its session key id replaced.
pub open spec fn context_bytes_with_key_id(context: AuraSessionEncryptionContextV1, key_id: Seq<u8>) -> Seq<u8> {
    seq![context.version] + context.storm_claim_digest@ + context.sender_id@
        + context.receiver_id@ + context.freshness_nonce@ + crate::encoding_v1::u64_le(
        context.valid_from,
    ) + crate::encoding_v1::u64_le(context.valid_until) + context.route_tag@ + key_id
}

/// The encoding of a binding with its session key id replaced.
pub open spec fn binding_bytes_with_key_id(binding: StormEncryptionBindingV1, key_id: Seq<u8>) -> Seq<u8> {
    binding.storm_claim_digest@ + binding.trace_root@ + binding.final_state_x@
        + binding.final_state_y@ + binding.context_hash@ + binding.sender_id@
        + binding.receiver_id@ + key_id
}

/// The session key id: domain-separated SHA-256 of the shared secret, the
/// context and the binding, both with their key ids zeroed.
pub open spec fn session_key_id_spec(shared_secret: Seq<u8>, context: AuraSessionEncryptionContextV1, binding: StormEncryptionBindingV1) -> Seq<u8> {
    sha256_domain_separated_spec(
        AURA_SESSION_KEY_ID_V1_DOMAIN_SEPARATOR@,
        shared_secret + context_bytes_with_key_id(context, zero_key_id()) + binding_bytes_with_key_id(
            binding,
            zero_key_id(),
        ),
    )
}

/// The symmetric key: HKDF-SHA256 with the symmetric-key separator as salt,
/// the shared secret, context and binding as input keying material, and the
/// info label, context and binding as info.
pub open spec fn session_symmetric_key_spec(shared_secret: Seq<u8>, context: AuraSessionEncryptionContextV1, binding: StormEncryptionBindingV1) -> Seq<u8> {
    let context_bytes = session_context_bytes_spec(context);
    let binding_bytes = binding_bytes_spec(binding);
    hkdf_sha256_32_spec(
        AURA_SESSION_SYMMETRIC_KEY_V1_DOMAIN_SEPARATOR@,
        shared_secret + context_bytes + binding_bytes,
        AURA_SESSION_SYMMETRIC_KEY_V1_INFO_LABEL@ + context_bytes + binding_bytes,
    )
}

fn validate_context_and_binding_alignment_v1(session_encryption_context: &AuraSessionEncryptionContextV1, storm_encryption_binding: &StormEncryptionBindingV1) -> (result: Result<(), SessionKeyV1Error>)
    ensures
        alignment_error_spec(*session_encryption_context, *storm_encryption_binding) is None ==> result is Ok,
        alignment_error_spec(*session_encryption_context, *storm_encryption_binding) is Some ==> result
            == Err::<(), SessionKeyV1Error>(
            alignment_error_spec(*session_encryption_context, *storm_encryption_binding)->0,
        ),
{
    if !bytes_equal(
        &session_encryption_context.storm_claim_digest,
        &storm_encryption_binding.storm_claim_digest,
    ) {
        proof {
            assert(session_encryption_context.storm_claim_digest@ != storm_encryption_binding.storm_claim_digest@);
        }
        return Err(SessionKeyV1Error::StormBindingMismatch { field: "storm_claim_digest" });
    }
    proof {
        assert(session_encryption_context.storm_claim_digest@ =~= storm_encryption_binding.storm_claim_digest@);
    }
    if !bytes_equal(&session_encryption_context.sender_id, &storm_encryption_binding.sender_id) {
        return Err(SessionKeyV1Error::StormBindingMismatch { field: "sender_id" });
    }
    proof {
        assert(session_encryption_context.sender_id@ =~= storm_encryption_binding.sender_id@);
    }
    if !bytes_equal(&session_encryption_context.receiver_id, &storm_encryption_binding.receiver_id) {
        return Err(SessionKeyV1Error::StormBindingMismatch { field: "receiver_id" });
    }
    proof {
        assert(session_encryption_context.receiver_id@ =~= storm_encryption_binding.receiver_id@);
    }
    Ok(())
}

/// The session key id of a shared secret under a context and a binding that
/// agree on the claim digest and the parties.
pub fn derive_session_key_id_v1(shared_secret: &SharedSecretV1, session_encryption_context: &AuraSessionEncryptionContextV1, storm_encryption_binding: &StormEncryptionBindingV1) -> (result: Result<[u8; 32], SessionKeyV1Error>)
    ensures
        key_id_error_spec(*session_encryption_context, *storm_encryption_binding) is Some ==> result
            == Err::<[u8; 32], SessionKeyV1Error>(
            key_id_error_spec(*session_encryption_context, *storm_encryption_binding)->0,
        ),
        key_id_error_spec(*session_encryption_context, *storm_encryption_binding) is None ==> (
        result matches Ok(key_id) && key_id@ == session_key_id_spec(
            shared_secret.bytes@,
            *session_encryption_context,
            *storm_encryption_binding,
        )),
{
    match validate_context_and_binding_alignment_v1(session_encryption_context, storm_encryption_binding) {
        Ok(()) => {},
        Err(error) => {
            return Err(error);
        },
    }
    let normalized_context = AuraSessionEncryptionContextV1 {
        session_key_id: [0u8; 32],
        ..*session_encryption_context
    };
    let normalized_binding = StormEncryptionBindingV1 {
        session_key_id: [0u8; 32],
        ..*storm_encryption_binding
    };
    proof {
        assert(session_context_error_spec(normalized_context) == session_context_error_spec(
            *session_encryption_context,
        ));
        assert(binding_error_spec(normalized_binding) == binding_error_spec(*storm_encryption_binding));
    }
    let context_bytes = match encode_session_encryption_context_v1(&normalized_context) {
        Ok(bytes) => bytes,
        Err(_) => {
            return Err(SessionKeyV1Error::InvalidSessionEncryptionContext);
        },
    };
    let binding_bytes = match encode_storm_encryption_binding_v1(&normalized_binding) {
        Ok(bytes) => bytes,
        Err(error) => {
            return Err(SessionKeyV1Error::InvalidStormEncryptionBinding(error));
        },
    };
    let mut payload: Vec<u8> = Vec::new();
    append_bytes(&mut payload, &shared_secret.bytes);
    append_bytes(&mut payload, &context_bytes);
    append_bytes(&mut payload, &binding_bytes);
    let domain = AURA_SESSION_KEY_ID_V1_DOMAIN_SEPARATOR;
    proof {
        assert(normalized_context.session_key_id@ =~= zero_key_id());
        assert(normalized_binding.session_key_id@ =~= zero_key_id());
        assert(payload@ =~= shared_secret.bytes@ + context_bytes_with_key_id(
            *session_encryption_context,
            zero_key_id(),
        ) + binding_bytes_with_key_id(*storm_encryption_binding, zero_key_id()));
    }
    Ok(sha256_domain_separated(&domain, payload.as_slice()))
}

/// Derives the symmetric key of a session whose context and binding carry
/// the session key id their shared secret determines.
pub fn derive_session_symmetric_key_v1(input: &SessionKeyDerivationInputV1) -> (result: Result<SessionSymmetricKeyV1, SessionKeyV1Error>)
    ensures
        key_id_error_spec(input.session_encryption_context, input.storm_encryption_binding) is Some
            ==> result == Err::<SessionSymmetricKeyV1, SessionKeyV1Error>(
            key_id_error_spec(input.session_encryption_context, input.storm_encryption_binding)->0,
        ),
        key_id_error_spec(input.session_encryption_context, input.storm_encryption_binding) is None
            && input.session_encryption_context.session_key_id@ != session_key_id_spec(
            input.shared_secret.bytes@,
            input.session_encryption_context,
            input.storm_encryption_binding,
        ) ==> (result matches Err(SessionKeyV1Error::SessionKeyIdMismatch { expected, actual })
            && expected@ == session_key_id_spec(
            input.shared_secret.bytes@,
            input.session_encryption_context,
            input.storm_encryption_binding,
        ) && actual == input.session_encryption_context.session_key_id),
        key_id_error_spec(input.session_encryption_context, input.storm_encryption_binding) is None
            && input.session_encryption_context.session_key_id@ == session_key_id_spec(
            input.shared_secret.bytes@,
            input.session_encryption_context,
            input.storm_encryption_binding,
        ) && input.storm_encryption_binding.session_key_id@ != session_key_id_spec(
            input.shared_secret.bytes@,
            input.session_encryption_context,
            input.storm_encryption_binding,
        ) ==> (result matches Err(SessionKeyV1Error::SessionKeyIdMismatch { expected, actual })
            && expected@ == session_key_id_spec(
            input.shared_secret.bytes@,
            input.session_encryption_context,
            input.storm_encryption_binding,
        ) && actual == input.storm_encryption_binding.session_key_id),
        key_id_error_spec(input.session_encryption_context, input.storm_encryption_binding) is None
            && input.session_encryption_context.session_key_id@ == session_key_id_spec(
            input.shared_secret.bytes@,
            input.session_encryption_context,
            input.storm_encryption_binding,
        ) && input.storm_encryption_binding.session_key_id@ == session_key_id_spec(
            input.shared_secret.bytes@,
            input.session_encryption_context,
            input.storm_encryption_binding,
        ) ==> (result matches Ok(key) && key.bytes@ == session_symmetric_key_spec(
            input.shared_secret.bytes@,
            input.session_encryption_context,
            input.storm_encryption_binding,
        )),
{
    match validate_context_and_binding_alignment_v1(
        &input.session_encryption_context,
        &input.storm_encryption_binding,
    ) {
        Ok(()) => {},
        Err(error) => {
            return Err(error);
        },
    }
    let expected_session_key_id = match derive_session_key_id_v1(
        &input.shared_secret,
        &input.session_encryption_context,
        &input.storm_encryption_binding,
    ) {
        Ok(key_id) => key_id,
        Err(error) => {
            return Err(error);
        },
    };
    if !bytes_equal(&input.session_encryption_context.session_key_id, &expected_session_key_id) {
        return Err(
            SessionKeyV1Error::SessionKeyIdMismatch {
                expected: expected_session_key_id,
                actual: input.session_encryption_context.session_key_id,
            },
        );
    }
    if !bytes_equal(&input.storm_encryption_binding.session_key_id, &expected_session_key_id) {
        return Err(
            SessionKeyV1Error::SessionKeyIdMismatch {
                expected: expected_session_key_id,
                actual: input.storm_encryption_binding.session_key_id,
            },
        );
    }
    let context_bytes = match encode_session_encryption_context_v1(&input.session_encryption_context) {
        Ok(bytes) => bytes,
        Err(_) => {
            return Err(SessionKeyV1Error::InvalidSessionEncryptionContext);
        },
    };
    let binding_bytes = match encode_storm_encryption_binding_v1(&input.storm_encryption_binding) {
        Ok(bytes) => bytes,
        Err(error) => {
            return Err(SessionKeyV1Error::InvalidStormEncryptionBinding(error));
        },
    };
    let mut ikm: Vec<u8> = Vec::new();
    append_bytes(&mut ikm, &input.shared_secret.bytes);
    append_bytes(&mut ikm, &context_bytes);
    append_bytes(&mut ikm, &binding_bytes);
    let label = AURA_SESSION_SYMMETRIC_KEY_V1_INFO_LABEL;
    let mut info: Vec<u8> = Vec::new();
    append_bytes(&mut info, &label);
    append_bytes(&mut info, &context_bytes);
    append_bytes(&mut info, &binding_bytes);
    let salt = AURA_SESSION_SYMMETRIC_KEY_V1_DOMAIN_SEPARATOR;
    let key_bytes = match hkdf_sha256_32(&salt, ikm.as_slice(), info.as_slice()) {
        Ok(okm) => okm,
        Err(_) => {
            return Err(SessionKeyV1Error::KeyExpansionFailed);
        },
    };
    Ok(SessionSymmetricKeyV1 { bytes: key_bytes })
}


/// The session key id is SHA-256 of `"AURA_SESSION_KEY_ID_V1"`, then the shared secret,
/// then the context encoding and the binding encoding, each with its own key
/// id replaced by thirty-two zero bytes. The symmetric key is HKDF-SHA256 with
/// salt `"AURA_SESSION_SYMMETRIC_KEY_V1"`, keyed by the shared secret followed by
/// both encodings, with info `"AURA_SESSION_SYMMETRIC_KEY_V1_INFO"` followed by both encodings.
pub proof fn lemma_session_key_preimages(shared_secret: Seq<u8>, context: AuraSessionEncryptionContextV1, binding: StormEncryptionBindingV1)
    ensures
        session_key_id_spec(shared_secret, context, binding) == crate::digest_v1::sha256_spec(
            seq![0x41u8, 0x55, 0x52, 0x41, 0x5f, 0x53, 0x45, 0x53, 0x53, 0x49, 0x4f, 0x4e, 0x5f, 0x4b, 0x45, 0x59, 0x5f, 0x49, 0x44, 0x5f, 0x56, 0x31] + shared_secret + context_bytes_with_key_id(context, Seq::new(32, |i: int| 0u8))
                + binding_bytes_with_key_id(binding, Seq::new(32, |i: int| 0u8)),
        ),
        session_symmetric_key_spec(shared_secret, context, binding) == hkdf_sha256_32_spec(
            seq![0x41u8, 0x55, 0x52, 0x41, 0x5f, 0x53, 0x45, 0x53, 0x53, 0x49, 0x4f, 0x4e, 0x5f, 0x53, 0x59, 0x4d, 0x4d, 0x45, 0x54, 0x52, 0x49, 0x43, 0x5f, 0x4b, 0x45, 0x59, 0x5f, 0x56, 0x31],
            shared_secret + session_context_bytes_spec(context) + binding_bytes_spec(binding),
            seq![0x41u8, 0x55, 0x52, 0x41, 0x5f, 0x53, 0x45, 0x53, 0x53, 0x49, 0x4f, 0x4e, 0x5f, 0x53, 0x59, 0x4d, 0x4d, 0x45, 0x54, 0x52, 0x49, 0x43, 0x5f, 0x4b, 0x45, 0x59, 0x5f, 0x56, 0x31, 0x5f, 0x49, 0x4e, 0x46, 0x4f] + session_context_bytes_spec(context) + binding_bytes_spec(binding),
        ),
{
    assert(AURA_SESSION_KEY_ID_V1_DOMAIN_SEPARATOR@ =~= seq![0x41u8, 0x55, 0x52, 0x41, 0x5f, 0x53, 0x45, 0x53, 0x53, 0x49, 0x4f, 0x4e, 0x5f, 0x4b, 0x45, 0x59, 0x5f, 0x49, 0x44, 0x5f, 0x56, 0x31]);
    assert(AURA_SESSION_SYMMETRIC_KEY_V1_DOMAIN_SEPARATOR@ =~= seq![0x41u8, 0x55, 0x52, 0x41, 0x5f, 0x53, 0x45, 0x53, 0x53, 0x49, 0x4f, 0x4e, 0x5f, 0x53, 0x59, 0x4d, 0x4d, 0x45, 0x54, 0x52, 0x49, 0x43, 0x5f, 0x4b, 0x45, 0x59, 0x5f, 0x56, 0x31]);
    assert(AURA_SESSION_SYMMETRIC_KEY_V1_INFO_LABEL@ =~= seq![0x41u8, 0x55, 0x52, 0x41, 0x5f, 0x53, 0x45, 0x53, 0x53, 0x49, 0x4f, 0x4e, 0x5f, 0x53, 0x59, 0x4d, 0x4d, 0x45, 0x54, 0x52, 0x49, 0x43, 0x5f, 0x4b, 0x45, 0x59, 0x5f, 0x56, 0x31, 0x5f, 0x49, 0x4e, 0x46, 0x4f]);
    assert(seq![0x41u8, 0x55, 0x52, 0x41, 0x5f, 0x53, 0x45, 0x53, 0x53, 0x49, 0x4f, 0x4e, 0x5f, 0x4b, 0x45, 0x59, 0x5f, 0x49, 0x44, 0x5f, 0x56, 0x31] + (shared_secret + context_bytes_with_key_id(context, zero_key_id())
        + binding_bytes_with_key_id(binding, zero_key_id())) =~= seq![0x41u8, 0x55, 0x52, 0x41, 0x5f, 0x53, 0x45, 0x53, 0x53, 0x49, 0x4f, 0x4e, 0x5f, 0x4b, 0x45, 0x59, 0x5f, 0x49, 0x44, 0x5f, 0x56, 0x31] + shared_secret
        + context_bytes_with_key_id(context, Seq::new(32, |i: int| 0u8)) + binding_bytes_with_key_id(
        binding,
        Seq::new(32, |i: int| 0u8),
    ));
    assert(seq![0x41u8, 0x55, 0x52, 0x41, 0x5f, 0x53, 0x45, 0x53, 0x53, 0x49, 0x4f, 0x4e, 0x5f, 0x53, 0x59, 0x4d, 0x4d, 0x45, 0x54, 0x52, 0x49, 0x43, 0x5f, 0x4b, 0x45, 0x59, 0x5f, 0x56, 0x31, 0x5f, 0x49, 0x4e, 0x46, 0x4f] + session_context_bytes_spec(context) + binding_bytes_spec(binding) =~= seq![0x41u8, 0x55, 0x52, 0x41, 0x5f, 0x53, 0x45, 0x53, 0x53, 0x49, 0x4f, 0x4e, 0x5f, 0x53, 0x59, 0x4d, 0x4d, 0x45, 0x54, 0x52, 0x49, 0x43, 0x5f, 0x4b, 0x45, 0x59, 0x5f, 0x56, 0x31, 0x5f, 0x49, 0x4e, 0x46, 0x4f]
        + session_context_bytes_spec(context) + binding_bytes_spec(binding));
}

} // verus!
