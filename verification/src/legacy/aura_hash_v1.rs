//! The historical SHA-256 identity hash and its message preparation.

pub use crate::aura_hash_v1::{
    AURA_HASH_V1_DOMAIN_SEPARATOR,
    AURA_HASH_V1_LENGTH_PREFIX_BYTES,
    AURA_HASH_V1_BOM_CODEPOINT,
    AuraHashV1Error,
    normalize_text_message_v1,
    decode_and_normalize_message_utf8_v1,
    canonical_text_payload_bytes_from_text_v1,
    canonical_text_payload_bytes_v1,
    canonical_message_bytes_v1,
    canonical_message_hash_preimage_v1,
    aura_hash_v1,
};
