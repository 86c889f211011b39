//! The 209-byte Storm context: version, network, execution domain, intent,
//! freshness nonce, validity window, controller and route.

use crate::digest_v1::{sha3_512_bytes, sha3_512_spec};
use crate::encoding_v1::{append_bytes, copy_range_into, u64_le, u64_to_le_bytes};
use crate::field_521_v1::bytes_equal;
use vstd::prelude::*;

verus! {

pub const STORM_CONTEXT_V1_VERSION: u8 = 0x01;

pub const STORM_CONTEXT_V1_LEN: usize = 209;

/// `"AURA_STORM_EXECUTION_V1"`.
pub const STORM_CONTEXT_V1_EXECUTION_DOMAIN_LABEL: [u8; 23] = [0x41, 0x55, 0x52, 0x41, 0x5f, 0x53, 0x54, 0x4f, 0x52, 0x4d, 0x5f, 0x45, 0x58, 0x45, 0x43, 0x55, 0x54, 0x49, 0x4f, 0x4e, 0x5f, 0x56, 0x31];

/// The fields of a Storm context.
#[derive(Clone, Copy, Debug, PartialEq, Eq)]
pub struct StormContextV1 {
    pub context_version: u8,
    pub network_id: [u8; 32],
    pub intent_hash: [u8; 32],
    pub freshness_nonce: [u8; 32],
    pub valid_from: u64,
    pub valid_until: u64,
    pub controller_id: [u8; 32],
    pub route_tag: [u8; 32],
}

/// Why a byte string is not a canonical Storm context.
#[allow(inconsistent_fields)]
#[derive(Clone, Copy, Debug, PartialEq, Eq)]
pub enum StormContextErrorV1 {
    InvalidLength { expected: usize, actual: usize },
    InvalidContextVersion { expected: u8, actual: u8 },
    InvalidExecutionDomain { expected: [u8; 32], actual: [u8; 32] },
}

/// The execution domain: the first 32 bytes of SHA3-512 of the label.
pub open spec fn execution_domain_spec() -> Seq<u8> {
    Seq::new(32, |i: int| sha3_512_spec(STORM_CONTEXT_V1_EXECUTION_DOMAIN_LABEL@)[i])
}

/// The canonical encoding of a context; the execution domain always occupies
/// bytes 33 to 65.
pub open spec fn storm_context_bytes_spec(context: StormContextV1) -> Seq<u8> {
    seq![context.context_version] + context.network_id@ + execution_domain_spec()
        + context.intent_hash@ + context.freshness_nonce@ + u64_le(context.valid_from) + u64_le(
        context.valid_until,
    ) + context.controller_id@ + context.route_tag@
}

/// Whether `bytes` is a canonical context: 209 bytes, version one, and the
/// execution domain in place.
pub open spec fn storm_context_bytes_valid(bytes: Seq<u8>) -> bool {
    &&& bytes.len() == 209
    &&& bytes[0] == STORM_CONTEXT_V1_VERSION
    &&& bytes.subrange(33, 65) == execution_domain_spec()
}

impl StormContextV1 {
    /// The canonical 209-byte encoding.
    pub fn to_bytes(&self) -> (bytes: [u8; 209])
        ensures
            bytes@ == storm_context_bytes_spec(*self),
    {
        let mut buffer: Vec<u8> = Vec::new();
        buffer.push(self.context_version);
        append_bytes(&mut buffer, &self.network_id);
        let domain = execution_domain_v1();
        append_bytes(&mut buffer, &domain);
        append_bytes(&mut buffer, &self.intent_hash);
        append_bytes(&mut buffer, &self.freshness_nonce);
        let from = u64_to_le_bytes(self.valid_from);
        append_bytes(&mut buffer, &from);
        let until = u64_to_le_bytes(self.valid_until);
        append_bytes(&mut buffer, &until);
        append_bytes(&mut buffer, &self.controller_id);
        append_bytes(&mut buffer, &self.route_tag);
        proof {
            crate::encoding_v1::lemma_le_bytes_len(self.valid_from as nat, 8);
            crate::encoding_v1::lemma_le_bytes_len(self.valid_until as nat, 8);
            assert(buffer@ =~= storm_context_bytes_spec(*self));
        }
        let mut bytes = [0u8; 209];
        copy_range_into(&mut bytes, buffer.as_slice(), 0);
        proof {
            assert(buffer@.subrange(0, 209) =~= buffer@);
        }
        bytes
    }
}

/// The execution domain of the version-one context.
pub fn execution_domain_v1() -> (domain: [u8; 32])
    ensures
        domain@ == execution_domain_spec(),
{
    let label = STORM_CONTEXT_V1_EXECUTION_DOMAIN_LABEL;
    let digest = sha3_512_bytes(&label);
    let mut domain = [0u8; 32];
    copy_range_into(&mut domain, &digest, 0);
    proof {
        assert(digest@.subrange(0, 32) =~= execution_domain_spec());
    }
    domain
}

/// Whether `error` is the error the validator reports for `bytes`: the first
/// check that fails, with the expected and actual values.
pub open spec fn storm_context_error_spec(error: StormContextErrorV1, bytes: Seq<u8>) -> bool {
    match error {
        StormContextErrorV1::InvalidLength { expected, actual } => bytes.len() != 209 && expected
            == 209 && actual == bytes.len(),
        StormContextErrorV1::InvalidContextVersion { expected, actual } => bytes.len() == 209
            && bytes[0] != STORM_CONTEXT_V1_VERSION && expected == STORM_CONTEXT_V1_VERSION
            && actual == bytes[0],
        StormContextErrorV1::InvalidExecutionDomain { expected, actual } => bytes.len() == 209
            && bytes[0] == STORM_CONTEXT_V1_VERSION && bytes.subrange(33, 65)
            != execution_domain_spec() && expected@ == execution_domain_spec() && actual@
            == bytes.subrange(33, 65),
    }
}

/// Checks that `bytes` is a canonical context and returns a copy of it.
pub fn validate_context_bytes_v1(bytes: &[u8]) -> (result: Result<[u8; 209], StormContextErrorV1>)
    ensures
        storm_context_bytes_valid(bytes@) ==> (result matches Ok(canonical) && canonical@
            == bytes@),
        !storm_context_bytes_valid(bytes@) ==> (result matches Err(error)
            && storm_context_error_spec(error, bytes@)),
{
    if bytes.len() != 209 {
        return Err(StormContextErrorV1::InvalidLength { expected: 209, actual: bytes.len() });
    }
    let mut canonical = [0u8; 209];
    copy_range_into(&mut canonical, bytes, 0);
    proof {
        assert(bytes@.subrange(0, 209) =~= bytes@);
    }
    if canonical[0] != STORM_CONTEXT_V1_VERSION {
        return Err(
            StormContextErrorV1::InvalidContextVersion {
                expected: STORM_CONTEXT_V1_VERSION,
                actual: canonical[0],
            },
        );
    }
    let mut actual = [0u8; 32];
    copy_range_into(&mut actual, &canonical, 33);
    let expected = execution_domain_v1();
    if !bytes_equal(&actual, &expected) {
        return Err(StormContextErrorV1::InvalidExecutionDomain { expected, actual });
    }
    Ok(canonical)
}

/// Every context encoding is accepted by the validator when its version is
/// one: the encoding is 209 bytes with the execution domain in place.
pub proof fn lemma_context_bytes_valid(context: StormContextV1)
    requires
        context.context_version == STORM_CONTEXT_V1_VERSION,
    ensures
        storm_context_bytes_valid(storm_context_bytes_spec(context)),
{
    let bytes = storm_context_bytes_spec(context);
    crate::encoding_v1::lemma_le_bytes_len(context.valid_from as nat, 8);
    crate::encoding_v1::lemma_le_bytes_len(context.valid_until as nat, 8);
    assert(bytes.subrange(33, 65) =~= execution_domain_spec());
}


/// The execution domain of every context is the first 32 bytes of the
/// SHA3-512 digest of `"AURA_STORM_EXECUTION_V1"`.
pub proof fn lemma_execution_domain_is_labelled_digest()
    ensures
        execution_domain_spec() == Seq::new(32, |i: int| crate::digest_v1::sha3_512_spec(seq![0x41u8, 0x55, 0x52, 0x41, 0x5f, 0x53, 0x54, 0x4f, 0x52, 0x4d, 0x5f, 0x45, 0x58, 0x45, 0x43, 0x55, 0x54, 0x49, 0x4f, 0x4e, 0x5f, 0x56, 0x31])[i]),
{
    assert(STORM_CONTEXT_V1_EXECUTION_DOMAIN_LABEL@ =~= seq![0x41u8, 0x55, 0x52, 0x41, 0x5f, 0x53, 0x54, 0x4f, 0x52, 0x4d, 0x5f, 0x45, 0x58, 0x45, 0x43, 0x55, 0x54, 0x49, 0x4f, 0x4e, 0x5f, 0x56, 0x31]);
    assert(execution_domain_spec() =~= Seq::new(32, |i: int| crate::digest_v1::sha3_512_spec(seq![0x41u8, 0x55, 0x52, 0x41, 0x5f, 0x53, 0x54, 0x4f, 0x52, 0x4d, 0x5f, 0x45, 0x58, 0x45, 0x43, 0x55, 0x54, 0x49, 0x4f, 0x4e, 0x5f, 0x56, 0x31])[i]));
}


/// Where each field of a context stands in its 209-byte encoding: the
/// version, the network id, the execution domain, the intent hash, the
/// freshness nonce, `valid_from` and `valid_until` (eight little-endian bytes
/// each), the controller id and the route tag. Every encoding is canonical
/// when the version is one.
pub proof fn lemma_storm_context_layout(context: StormContextV1)
    ensures
        ({
            let b = storm_context_bytes_spec(context);
            &&& b.len() == 209
            &&& b[0] == context.context_version
            &&& b.subrange(1, 33) == context.network_id@
            &&& b.subrange(33, 65) == execution_domain_spec()
            &&& b.subrange(65, 97) == context.intent_hash@
            &&& b.subrange(97, 129) == context.freshness_nonce@
            &&& b.subrange(129, 137) == u64_le(context.valid_from)
            &&& b.subrange(137, 145) == u64_le(context.valid_until)
            &&& b.subrange(145, 177) == context.controller_id@
            &&& b.subrange(177, 209) == context.route_tag@
            &&& (context.context_version == STORM_CONTEXT_V1_VERSION ==> storm_context_bytes_valid(b))
        }),
{
    let b = storm_context_bytes_spec(context);
    crate::encoding_v1::lemma_le_bytes_len(context.valid_from as nat, 8);
    crate::encoding_v1::lemma_le_bytes_len(context.valid_until as nat, 8);
    assert(b.subrange(1, 33) =~= context.network_id@);
    assert(b.subrange(33, 65) =~= execution_domain_spec());
    assert(b.subrange(65, 97) =~= context.intent_hash@);
    assert(b.subrange(97, 129) =~= context.freshness_nonce@);
    assert(b.subrange(129, 137) =~= u64_le(context.valid_from));
    assert(b.subrange(137, 145) =~= u64_le(context.valid_until));
    assert(b.subrange(145, 177) =~= context.controller_id@);
    assert(b.subrange(177, 209) =~= context.route_tag@);
}

} // verus!
