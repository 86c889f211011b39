//! The 209-byte session encryption context and the session fields carried by
//! a Storm context.

use crate::encoding_v1::{append_bytes, copy_range_into, u64_from_le_bytes, u64_le, u64_to_le_bytes};
use crate::storm_context_v1::{
    storm_context_bytes_valid, storm_context_error_spec, validate_context_bytes_v1,
    StormContextErrorV1,
};
use vstd::prelude::*;

verus! {

pub const SESSION_ENCRYPTION_CONTEXT_V1_VERSION: u8 = 0x01;

pub const SESSION_ENCRYPTION_CONTEXT_V1_LEN: usize = 209;

/// The fields of a session encryption context.
#[derive(Clone, Copy, Debug, PartialEq, Eq)]
pub struct AuraSessionEncryptionContextV1 {
    pub version: u8,
    pub storm_claim_digest: [u8; 32],
    pub sender_id: [u8; 32],
    pub receiver_id: [u8; 32],
    pub freshness_nonce: [u8; 32],
    pub valid_from: u64,
    pub valid_until: u64,
    pub route_tag: [u8; 32],
    pub session_key_id: [u8; 32],
}

/// The session fields of a Storm context.
#[derive(Clone, Copy, Debug, PartialEq, Eq)]
pub struct StormSessionEncryptionFieldsV1 {
    pub freshness_nonce: [u8; 32],
    pub valid_from: u64,
    pub valid_until: u64,
    pub route_tag: [u8; 32],
}

/// Why a session encryption context is refused.
#[derive(Clone, Copy, Debug, PartialEq, Eq)]
pub enum SessionEncryptionContextErrorV1 {
    InvalidVersion { expected: u8, actual: u8 },
    InvalidValidityWindow { valid_from: u64, valid_until: u64 },
    InvalidStormContext(StormContextErrorV1),
}

/// The encoding of a context, field by field.
pub open spec fn session_context_bytes_spec(context: AuraSessionEncryptionContextV1) -> Seq<u8> {
    seq![context.version] + context.storm_claim_digest@ + context.sender_id@
        + context.receiver_id@ + context.freshness_nonce@ + u64_le(context.valid_from) + u64_le(
        context.valid_until,
    ) + context.route_tag@ + context.session_key_id@
}

/// The error validation reports, if any: a wrong version first, then a
/// window that starts after it ends.
pub open spec fn session_context_error_spec(context: AuraSessionEncryptionContextV1) -> Option<SessionEncryptionContextErrorV1> {
    if context.version != SESSION_ENCRYPTION_CONTEXT_V1_VERSION {
        Some(
            SessionEncryptionContextErrorV1::InvalidVersion {
                expected: SESSION_ENCRYPTION_CONTEXT_V1_VERSION,
                actual: context.version,
            },
        )
    } else if context.valid_from > context.valid_until {
        Some(
            SessionEncryptionContextErrorV1::InvalidValidityWindow {
                valid_from: context.valid_from,
                valid_until: context.valid_until,
            },
        )
    } else {
        None
    }
}

/// Checks the version and the validity window.
pub fn validate_session_encryption_context_v1(context: &AuraSessionEncryptionContextV1) -> (result: Result<(), SessionEncryptionContextErrorV1>)
    ensures
        session_context_error_spec(*context) is None ==> result is Ok,
        session_context_error_spec(*context) is Some ==> result == Err::<(), SessionEncryptionContextErrorV1>(
            session_context_error_spec(*context)->0,
        ),
{
    if context.version != SESSION_ENCRYPTION_CONTEXT_V1_VERSION {
        return Err(
            SessionEncryptionContextErrorV1::InvalidVersion {
                expected: SESSION_ENCRYPTION_CONTEXT_V1_VERSION,
                actual: context.version,
            },
        );
    }
    if context.valid_from > context.valid_until {
        return Err(
            SessionEncryptionContextErrorV1::InvalidValidityWindow {
                valid_from: context.valid_from,
                valid_until: context.valid_until,
            },
        );
    }
    Ok(())
}

/// The 209-byte encoding of a valid context.
pub fn encode_session_encryption_context_v1(context: &AuraSessionEncryptionContextV1) -> (result: Result<[u8; 209], SessionEncryptionContextErrorV1>)
    ensures
        session_context_error_spec(*context) is None ==> (result matches Ok(bytes) && bytes@
            == session_context_bytes_spec(*context)),
        session_context_error_spec(*context) is Some ==> result == Err::<[u8; 209], SessionEncryptionContextErrorV1>(
            session_context_error_spec(*context)->0,
        ),
{
    match validate_session_encryption_context_v1(context) {
        Ok(()) => {},
        Err(error) => {
            return Err(error);
        },
    }
    let mut buffer: Vec<u8> = Vec::new();
    buffer.push(context.version);
    append_bytes(&mut buffer, &context.storm_claim_digest);
    append_bytes(&mut buffer, &context.sender_id);
    append_bytes(&mut buffer, &context.receiver_id);
    append_bytes(&mut buffer, &context.freshness_nonce);
    let from = u64_to_le_bytes(context.valid_from);
    append_bytes(&mut buffer, &from);
    let until = u64_to_le_bytes(context.valid_until);
    append_bytes(&mut buffer, &until);
    append_bytes(&mut buffer, &context.route_tag);
    append_bytes(&mut buffer, &context.session_key_id);
    proof {
        crate::encoding_v1::lemma_le_bytes_len(context.valid_from as nat, 8);
        crate::encoding_v1::lemma_le_bytes_len(context.valid_until as nat, 8);
        assert(buffer@ =~= session_context_bytes_spec(*context));
    }
    let mut bytes = [0u8; 209];
    copy_range_into(&mut bytes, buffer.as_slice(), 0);
    proof {
        assert(buffer@.subrange(0, 209) =~= buffer@);
    }
    Ok(bytes)
}

/// Reads the freshness nonce, the validity window and the route tag out of
/// a canonical Storm context.
pub fn extract_storm_session_encryption_fields_v1(storm_context_bytes: &[u8]) -> (result: Result<StormSessionEncryptionFieldsV1, SessionEncryptionContextErrorV1>)
    ensures
        !storm_context_bytes_valid(storm_context_bytes@) ==> (result matches Err(
            SessionEncryptionContextErrorV1::InvalidStormContext(error),
        ) && storm_context_error_spec(error, storm_context_bytes@)),
        storm_context_bytes_valid(storm_context_bytes@) ==> (result matches Ok(fields)
            && fields.freshness_nonce@ == storm_context_bytes@.subrange(97, 129) && u64_le(
            fields.valid_from,
        ) == storm_context_bytes@.subrange(129, 137) && u64_le(fields.valid_until)
            == storm_context_bytes@.subrange(137, 145) && fields.route_tag@
            == storm_context_bytes@.subrange(177, 209)),
{
    let canonical = match validate_context_bytes_v1(storm_context_bytes) {
        Ok(canonical) => canonical,
        Err(error) => {
            return Err(SessionEncryptionContextErrorV1::InvalidStormContext(error));
        },
    };
    let mut freshness_nonce = [0u8; 32];
    copy_range_into(&mut freshness_nonce, &canonical, 97);
    let mut valid_from_bytes = [0u8; 8];
    copy_range_into(&mut valid_from_bytes, &canonical, 129);
    let mut valid_until_bytes = [0u8; 8];
    copy_range_into(&mut valid_until_bytes, &canonical, 137);
    let mut route_tag = [0u8; 32];
    copy_range_into(&mut route_tag, &canonical, 177);
    Ok(
        StormSessionEncryptionFieldsV1 {
            freshness_nonce,
            valid_from: u64_from_le_bytes(&valid_from_bytes),
            valid_until: u64_from_le_bytes(&valid_until_bytes),
            route_tag,
        },
    )
}

} // verus!
