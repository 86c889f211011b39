//! The Storm-native binding material of a session: the claim digest, the
//! trace root, the final state, the context hash and the session parties,
//! with its 324-byte encoding and its domain-separated SHA-256 digest.

use crate::digest_v1::{sha256_domain_separated, sha256_domain_separated_spec};
use crate::encoding_v1::append_bytes;
use crate::field_521_v1::{fe_decode_error, FieldElement521V1};
use crate::storm_claim_v1::{StormClaim521V1, StormPublicInputs521V1};
use vstd::prelude::*;

verus! {

pub const STORM_ENCRYPTION_BINDING_V1_LEN: usize = 324;

/// `"AURA_STORM_ENCRYPTION_BINDING_V1"`.
pub const AURA_STORM_ENCRYPTION_BINDING_V1_DOMAIN_SEPARATOR: [u8; 32] = [0x41, 0x55, 0x52, 0x41, 0x5f, 0x53, 0x54, 0x4f, 0x52, 0x4d, 0x5f, 0x45, 0x4e, 0x43, 0x52, 0x59, 0x50, 0x54, 0x49, 0x4f, 0x4e, 0x5f, 0x42, 0x49, 0x4e, 0x44, 0x49, 0x4e, 0x47, 0x5f, 0x56, 0x31];

/// What binds a session to a Storm claim.
#[derive(Clone, Copy, Debug, PartialEq, Eq)]
pub struct StormEncryptionBindingV1 {
    pub storm_claim_digest: [u8; 32],
    pub trace_root: [u8; 32],
    pub final_state_x: [u8; 66],
    pub final_state_y: [u8; 66],
    pub context_hash: [u8; 32],
    pub sender_id: [u8; 32],
    pub receiver_id: [u8; 32],
    pub session_key_id: [u8; 32],
}

/// Which final-state coordinate is not a canonical field element.
#[derive(Clone, Copy, Debug, PartialEq, Eq, Structural)]
pub enum StormEncryptionBindingErrorV1 {
    InvalidFinalStateX,
    InvalidFinalStateY,
}

/// The error validation reports for a binding, if any.
pub open spec fn binding_error_spec(binding: StormEncryptionBindingV1) -> Option<StormEncryptionBindingErrorV1> {
    if fe_decode_error(binding.final_state_x@) is Some {
        Some(StormEncryptionBindingErrorV1::InvalidFinalStateX)
    } else if fe_decode_error(binding.final_state_y@) is Some {
        Some(StormEncryptionBindingErrorV1::InvalidFinalStateY)
    } else {
        None
    }
}

/// The encoding of a binding, field by field.
pub open spec fn binding_bytes_spec(binding: StormEncryptionBindingV1) -> Seq<u8> {
    binding.storm_claim_digest@ + binding.trace_root@ + binding.final_state_x@
        + binding.final_state_y@ + binding.context_hash@ + binding.sender_id@
        + binding.receiver_id@ + binding.session_key_id@
}

/// Builds the binding of a claim, its public inputs and the session parties.
pub fn build_storm_encryption_binding_v1(
    lower_layer_claim: &StormClaim521V1,
    lower_layer_public_inputs: &StormPublicInputs521V1,
    storm_claim_digest: [u8; 32],
    sender_id: [u8; 32],
    receiver_id: [u8; 32],
    session_key_id: [u8; 32],
) -> (binding: StormEncryptionBindingV1)
    ensures
        binding.storm_claim_digest == storm_claim_digest,
        binding.trace_root == lower_layer_claim.trace_root,
        binding.final_state_x@ == lower_layer_claim.final_state.x@,
        binding.final_state_y@ == lower_layer_claim.final_state.y@,
        binding.context_hash == lower_layer_public_inputs.context_hash,
        binding.sender_id == sender_id,
        binding.receiver_id == receiver_id,
        binding.session_key_id == session_key_id,
        binding_error_spec(binding) is None,
{
    proof {
        use_type_invariant(&lower_layer_claim.final_state.x);
        use_type_invariant(&lower_layer_claim.final_state.y);
        crate::limbs_521_v1::lemma_be_top_byte(lower_layer_claim.final_state.x@);
        crate::limbs_521_v1::lemma_be_top_byte(lower_layer_claim.final_state.y@);
    }
    StormEncryptionBindingV1 {
        storm_claim_digest,
        trace_root: lower_layer_claim.trace_root,
        final_state_x: lower_layer_claim.final_state.x.to_bytes(),
        final_state_y: lower_layer_claim.final_state.y.to_bytes(),
        context_hash: lower_layer_public_inputs.context_hash,
        sender_id,
        receiver_id,
        session_key_id,
    }
}

/// Checks that both final-state coordinates are canonical field elements.
pub fn validate_storm_encryption_binding_v1(binding: &StormEncryptionBindingV1) -> (result: Result<(), StormEncryptionBindingErrorV1>)
    ensures
        binding_error_spec(*binding) is None ==> result is Ok,
        binding_error_spec(*binding) is Some ==> result == Err::<(), StormEncryptionBindingErrorV1>(
            binding_error_spec(*binding)->0,
        ),
{
    if FieldElement521V1::from_bytes(binding.final_state_x).is_err() {
        return Err(StormEncryptionBindingErrorV1::InvalidFinalStateX);
    }
    if FieldElement521V1::from_bytes(binding.final_state_y).is_err() {
        return Err(StormEncryptionBindingErrorV1::InvalidFinalStateY);
    }
    Ok(())
}

/// The 324-byte encoding of a valid binding.
pub fn encode_storm_encryption_binding_v1(binding: &StormEncryptionBindingV1) -> (result: Result<[u8; 324], StormEncryptionBindingErrorV1>)
    ensures
        binding_error_spec(*binding) is None ==> (result matches Ok(bytes) && bytes@
            == binding_bytes_spec(*binding)),
        binding_error_spec(*binding) is Some ==> result == Err::<[u8; 324], StormEncryptionBindingErrorV1>(
            binding_error_spec(*binding)->0,
        ),
{
    match validate_storm_encryption_binding_v1(binding) {
        Ok(()) => {},
        Err(error) => {
            return Err(error);
        },
    }
    let mut buffer: Vec<u8> = Vec::new();
    append_bytes(&mut buffer, &binding.storm_claim_digest);
    append_bytes(&mut buffer, &binding.trace_root);
    append_bytes(&mut buffer, &binding.final_state_x);
    append_bytes(&mut buffer, &binding.final_state_y);
    append_bytes(&mut buffer, &binding.context_hash);
    append_bytes(&mut buffer, &binding.sender_id);
    append_bytes(&mut buffer, &binding.receiver_id);
    append_bytes(&mut buffer, &binding.session_key_id);
    proof {
        assert(buffer@ =~= binding_bytes_spec(*binding));
    }
    let mut bytes = [0u8; 324];
    crate::encoding_v1::copy_range_into(&mut bytes, buffer.as_slice(), 0);
    proof {
        assert(buffer@.subrange(0, 324) =~= buffer@);
    }
    Ok(bytes)
}

/// The domain-separated SHA-256 digest of a valid binding.
pub fn derive_storm_encryption_binding_hash_v1(binding: &StormEncryptionBindingV1) -> (result: Result<[u8; 32], StormEncryptionBindingErrorV1>)
    ensures
        binding_error_spec(*binding) is None ==> (result matches Ok(hash) && hash@
            == sha256_domain_separated_spec(
            AURA_STORM_ENCRYPTION_BINDING_V1_DOMAIN_SEPARATOR@,
            binding_bytes_spec(*binding),
        )),
        binding_error_spec(*binding) is Some ==> result == Err::<[u8; 32], StormEncryptionBindingErrorV1>(
            binding_error_spec(*binding)->0,
        ),
        result matches Ok(hash) ==> hash@ == crate::digest_v1::sha256_spec(
            seq![0x41u8, 0x55, 0x52, 0x41, 0x5f, 0x53, 0x54, 0x4f, 0x52, 0x4d, 0x5f, 0x45, 0x4e, 0x43, 0x52, 0x59, 0x50, 0x54, 0x49, 0x4f, 0x4e, 0x5f, 0x42, 0x49, 0x4e, 0x44, 0x49, 0x4e, 0x47, 0x5f, 0x56, 0x31] + binding.storm_claim_digest@ + binding.trace_root@ + binding.final_state_x@
                + binding.final_state_y@ + binding.context_hash@ + binding.sender_id@
                + binding.receiver_id@ + binding.session_key_id@,
        ),
{
    proof {
        assert(AURA_STORM_ENCRYPTION_BINDING_V1_DOMAIN_SEPARATOR@ =~= seq![0x41u8, 0x55, 0x52, 0x41, 0x5f, 0x53, 0x54, 0x4f, 0x52, 0x4d, 0x5f, 0x45, 0x4e, 0x43, 0x52, 0x59, 0x50, 0x54, 0x49, 0x4f, 0x4e, 0x5f, 0x42, 0x49, 0x4e, 0x44, 0x49, 0x4e, 0x47, 0x5f, 0x56, 0x31]);
        assert(seq![0x41u8, 0x55, 0x52, 0x41, 0x5f, 0x53, 0x54, 0x4f, 0x52, 0x4d, 0x5f, 0x45, 0x4e, 0x43, 0x52, 0x59, 0x50, 0x54, 0x49, 0x4f, 0x4e, 0x5f, 0x42, 0x49, 0x4e, 0x44, 0x49, 0x4e, 0x47, 0x5f, 0x56, 0x31] + binding_bytes_spec(*binding) =~= seq![0x41u8, 0x55, 0x52, 0x41, 0x5f, 0x53, 0x54, 0x4f, 0x52, 0x4d, 0x5f, 0x45, 0x4e, 0x43, 0x52, 0x59, 0x50, 0x54, 0x49, 0x4f, 0x4e, 0x5f, 0x42, 0x49, 0x4e, 0x44, 0x49, 0x4e, 0x47, 0x5f, 0x56, 0x31] + binding.storm_claim_digest@
            + binding.trace_root@ + binding.final_state_x@ + binding.final_state_y@
            + binding.context_hash@ + binding.sender_id@ + binding.receiver_id@
            + binding.session_key_id@);
    }
    let bytes = match encode_storm_encryption_binding_v1(binding) {
        Ok(bytes) => bytes,
        Err(error) => {
            return Err(error);
        },
    };
    let domain = AURA_STORM_ENCRYPTION_BINDING_V1_DOMAIN_SEPARATOR;
    Ok(sha256_domain_separated(&domain, &bytes))
}

} // verus!
