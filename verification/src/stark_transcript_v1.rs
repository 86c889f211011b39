//! A Fiat-Shamir style transcript for the cat-map AIR: digests of the public
//! inputs and of the trace commitment, and the transition row they select for
//! a query.

use crate::dcm_air_v1::{dcm_air_public_inputs_bytes_spec, DcmAirPublicInputsV1};
use crate::digest_v1::{sha256_domain_separated, sha256_domain_separated_spec};
use crate::encoding_v1::{append_bytes, copy_range_into, le_value, u64_from_le_bytes, u64_le, u64_to_le_bytes};
use crate::stark_trace_commitment_v1::StarkTraceCommitmentV1;
use vstd::prelude::*;

verus! {

pub const STARK_TRANSCRIPT_VERSION_V1: u8 = 1;

/// `"AURA_DCM_STARK_TRANSCRIPT_V1_PUBLIC_INPUTS"`.
pub const AURA_DCM_STARK_TRANSCRIPT_V1_PUBLIC_INPUT_DOMAIN_SEPARATOR: [u8; 42] = [0x41, 0x55, 0x52, 0x41, 0x5f, 0x44, 0x43, 0x4d, 0x5f, 0x53, 0x54, 0x41, 0x52, 0x4b, 0x5f, 0x54, 0x52, 0x41, 0x4e, 0x53, 0x43, 0x52, 0x49, 0x50, 0x54, 0x5f, 0x56, 0x31, 0x5f, 0x50, 0x55, 0x42, 0x4c, 0x49, 0x43, 0x5f, 0x49, 0x4e, 0x50, 0x55, 0x54, 0x53];

/// `"AURA_DCM_STARK_TRANSCRIPT_V1_TRANSCRIPT"`.
pub const AURA_DCM_STARK_TRANSCRIPT_V1_TRANSCRIPT_DOMAIN_SEPARATOR: [u8; 39] = [0x41, 0x55, 0x52, 0x41, 0x5f, 0x44, 0x43, 0x4d, 0x5f, 0x53, 0x54, 0x41, 0x52, 0x4b, 0x5f, 0x54, 0x52, 0x41, 0x4e, 0x53, 0x43, 0x52, 0x49, 0x50, 0x54, 0x5f, 0x56, 0x31, 0x5f, 0x54, 0x52, 0x41, 0x4e, 0x53, 0x43, 0x52, 0x49, 0x50, 0x54];

/// `"AURA_DCM_STARK_TRANSCRIPT_V1_QUERY"`.
pub const AURA_DCM_STARK_TRANSCRIPT_V1_QUERY_DOMAIN_SEPARATOR: [u8; 34] = [0x41, 0x55, 0x52, 0x41, 0x5f, 0x44, 0x43, 0x4d, 0x5f, 0x53, 0x54, 0x41, 0x52, 0x4b, 0x5f, 0x54, 0x52, 0x41, 0x4e, 0x53, 0x43, 0x52, 0x49, 0x50, 0x54, 0x5f, 0x56, 0x31, 0x5f, 0x51, 0x55, 0x45, 0x52, 0x59];

/// The transcript: its digests, and the transition row it queries.
#[derive(Clone, Copy, Debug, PartialEq, Eq)]
pub struct DcmAirStarkTranscriptV1 {
    pub transcript_version: u8,
    pub public_input_digest: [u8; 32],
    pub transcript_digest: [u8; 32],
    pub query_challenge_digest: [u8; 32],
    pub transition_query_count: u8,
    pub queried_transition_row_index: u64,
}

/// Why no transcript is derived.
#[derive(Clone, Copy, Debug, PartialEq, Eq)]
pub enum DcmAirStarkTranscriptErrorV1 {
    UnsupportedTraceShape { reason: &'static str },
}

pub open spec fn transcript_public_input_digest_spec(inputs: DcmAirPublicInputsV1) -> Seq<u8> {
    sha256_domain_separated_spec(
        AURA_DCM_STARK_TRANSCRIPT_V1_PUBLIC_INPUT_DOMAIN_SEPARATOR@,
        dcm_air_public_inputs_bytes_spec(inputs),
    )
}

/// The transcript seed: the versions, the public input digest, the root, the
/// leaf count and the height.
pub open spec fn transcript_seed_spec(public_input_digest: Seq<u8>, commitment: StarkTraceCommitmentV1) -> Seq<u8> {
    seq![STARK_TRANSCRIPT_VERSION_V1, commitment.commitment_version] + public_input_digest
        + commitment.root@ + u64_le(commitment.leaf_count) + u64_le(commitment.tree_height)
}

/// The query seed: the transcript digest, the leaf count and the height.
pub open spec fn query_seed_spec(transcript_digest: Seq<u8>, commitment: StarkTraceCommitmentV1) -> Seq<u8> {
    transcript_digest + u64_le(commitment.leaf_count) + u64_le(commitment.tree_height)
}

pub open spec fn transcript_digest_spec(inputs: DcmAirPublicInputsV1, commitment: StarkTraceCommitmentV1) -> Seq<u8> {
    sha256_domain_separated_spec(
        AURA_DCM_STARK_TRANSCRIPT_V1_TRANSCRIPT_DOMAIN_SEPARATOR@,
        transcript_seed_spec(transcript_public_input_digest_spec(inputs), commitment),
    )
}

pub open spec fn query_challenge_digest_spec(inputs: DcmAirPublicInputsV1, commitment: StarkTraceCommitmentV1) -> Seq<u8> {
    sha256_domain_separated_spec(
        AURA_DCM_STARK_TRANSCRIPT_V1_QUERY_DOMAIN_SEPARATOR@,
        query_seed_spec(transcript_digest_spec(inputs, commitment), commitment),
    )
}

/// The row a challenge selects among `transition_count` transitions: its
/// first eight bytes, little-endian, reduced modulo the count.
pub open spec fn challenge_row_index_spec(challenge: Seq<u8>, transition_count: u64) -> nat {
    le_value(challenge.subrange(0, 8)) % (transition_count as nat)
}

/// The digest of the public inputs.
pub fn derive_dcm_air_stark_public_input_digest_v1(public_inputs: &DcmAirPublicInputsV1) -> (digest: [u8; 32])
    ensures
        digest@ == transcript_public_input_digest_spec(*public_inputs),
{
    let domain = AURA_DCM_STARK_TRANSCRIPT_V1_PUBLIC_INPUT_DOMAIN_SEPARATOR;
    let bytes = public_inputs.canonical_bytes();
    sha256_domain_separated(&domain, bytes.as_slice())
}

fn canonical_transcript_seed_bytes_v1(public_input_digest: &[u8; 32], trace_commitment: &StarkTraceCommitmentV1) -> (bytes: Vec<u8>)
    ensures
        bytes@ == transcript_seed_spec(public_input_digest@, *trace_commitment),
{
    let mut bytes: Vec<u8> = Vec::new();
    bytes.push(STARK_TRANSCRIPT_VERSION_V1);
    bytes.push(trace_commitment.commitment_version);
    append_bytes(&mut bytes, public_input_digest);
    append_bytes(&mut bytes, &trace_commitment.root);
    let count = u64_to_le_bytes(trace_commitment.leaf_count);
    append_bytes(&mut bytes, &count);
    let height = u64_to_le_bytes(trace_commitment.tree_height);
    append_bytes(&mut bytes, &height);
    proof {
        assert(bytes@ =~= transcript_seed_spec(public_input_digest@, *trace_commitment));
    }
    bytes
}

fn canonical_query_seed_bytes_v1(transcript_digest: &[u8; 32], trace_commitment: &StarkTraceCommitmentV1) -> (bytes: Vec<u8>)
    ensures
        bytes@ == query_seed_spec(transcript_digest@, *trace_commitment),
{
    let mut bytes: Vec<u8> = Vec::new();
    append_bytes(&mut bytes, transcript_digest);
    let count = u64_to_le_bytes(trace_commitment.leaf_count);
    append_bytes(&mut bytes, &count);
    let height = u64_to_le_bytes(trace_commitment.tree_height);
    append_bytes(&mut bytes, &height);
    proof {
        assert(bytes@ =~= query_seed_spec(transcript_digest@, *trace_commitment));
    }
    bytes
}

fn reduce_challenge_digest_to_row_index_v1(challenge_digest: &[u8; 32], transition_count: u64) -> (row_index: u64)
    requires
        transition_count > 0,
    ensures
        row_index == challenge_row_index_spec(challenge_digest@, transition_count),
        row_index < transition_count,
{
    let mut reduced = [0u8; 8];
    copy_range_into(&mut reduced, challenge_digest, 0);
    u64_from_le_bytes(&reduced) % transition_count
}

/// Derives the transcript of the public inputs and a trace commitment over
/// at least one leaf; a trace of two rows or more gets one transition query.
pub fn derive_dcm_air_stark_transcript_v1(public_inputs: &DcmAirPublicInputsV1, trace_commitment: &StarkTraceCommitmentV1) -> (result: Result<DcmAirStarkTranscriptV1, DcmAirStarkTranscriptErrorV1>)
    ensures
        trace_commitment.leaf_count == 0 ==> result == Err::<
            DcmAirStarkTranscriptV1,
            DcmAirStarkTranscriptErrorV1,
        >(
            DcmAirStarkTranscriptErrorV1::UnsupportedTraceShape {
                reason: "trace_commitment.leaf_count_must_be_non_zero",
            },
        ),
        trace_commitment.leaf_count > 0 ==> (result matches Ok(transcript) && {
            &&& transcript.transcript_version == STARK_TRANSCRIPT_VERSION_V1
            &&& transcript.public_input_digest@ == transcript_public_input_digest_spec(
                *public_inputs,
            )
            &&& transcript.transcript_digest@ == transcript_digest_spec(
                *public_inputs,
                *trace_commitment,
            )
            &&& transcript.query_challenge_digest@ == query_challenge_digest_spec(
                *public_inputs,
                *trace_commitment,
            )
            &&& transcript.transition_query_count == (if trace_commitment.leaf_count > 1 {
                1u8
            } else {
                0u8
            })
            &&& transcript.queried_transition_row_index == (if trace_commitment.leaf_count > 1 {
                challenge_row_index_spec(
                    query_challenge_digest_spec(*public_inputs, *trace_commitment),
                    (trace_commitment.leaf_count - 1) as u64,
                )
            } else {
                0
            })
            &&& transcript.transition_query_count == 1 ==> transcript.queried_transition_row_index
                + 1 < trace_commitment.leaf_count
        }),
{
    if trace_commitment.leaf_count == 0 {
        return Err(
            DcmAirStarkTranscriptErrorV1::UnsupportedTraceShape {
                reason: "trace_commitment.leaf_count_must_be_non_zero",
            },
        );
    }
    let public_input_digest = derive_dcm_air_stark_public_input_digest_v1(public_inputs);
    let transcript_domain = AURA_DCM_STARK_TRANSCRIPT_V1_TRANSCRIPT_DOMAIN_SEPARATOR;
    let transcript_seed = canonical_transcript_seed_bytes_v1(&public_input_digest, trace_commitment);
    let transcript_digest = sha256_domain_separated(&transcript_domain, transcript_seed.as_slice());
    let query_domain = AURA_DCM_STARK_TRANSCRIPT_V1_QUERY_DOMAIN_SEPARATOR;
    let query_seed = canonical_query_seed_bytes_v1(&transcript_digest, trace_commitment);
    let query_challenge_digest = sha256_domain_separated(&query_domain, query_seed.as_slice());
    let transition_query_count: u8 = if trace_commitment.leaf_count > 1 {
        1
    } else {
        0
    };
    let queried_transition_row_index = if transition_query_count == 0 {
        0
    } else {
        reduce_challenge_digest_to_row_index_v1(
            &query_challenge_digest,
            trace_commitment.leaf_count - 1,
        )
    };
    Ok(
        DcmAirStarkTranscriptV1 {
            transcript_version: STARK_TRANSCRIPT_VERSION_V1,
            public_input_digest,
            transcript_digest,
            query_challenge_digest,
            transition_query_count,
            queried_transition_row_index,
        },
    )
}


/// The transcript digests are SHA-256 of their own ASCII separator, then the
/// public-input encoding, the transcript seed, or the query seed.
pub proof fn lemma_transcript_digest_preimages(inputs: DcmAirPublicInputsV1, commitment: StarkTraceCommitmentV1)
    ensures
        transcript_public_input_digest_spec(inputs) == crate::digest_v1::sha256_spec(seq![0x41u8, 0x55, 0x52, 0x41, 0x5f, 0x44, 0x43, 0x4d, 0x5f, 0x53, 0x54, 0x41, 0x52, 0x4b, 0x5f, 0x54, 0x52, 0x41, 0x4e, 0x53, 0x43, 0x52, 0x49, 0x50, 0x54, 0x5f, 0x56, 0x31, 0x5f, 0x50, 0x55, 0x42, 0x4c, 0x49, 0x43, 0x5f, 0x49, 0x4e, 0x50, 0x55, 0x54, 0x53] + (dcm_air_public_inputs_bytes_spec(inputs))),
        transcript_digest_spec(inputs, commitment) == crate::digest_v1::sha256_spec(seq![0x41u8, 0x55, 0x52, 0x41, 0x5f, 0x44, 0x43, 0x4d, 0x5f, 0x53, 0x54, 0x41, 0x52, 0x4b, 0x5f, 0x54, 0x52, 0x41, 0x4e, 0x53, 0x43, 0x52, 0x49, 0x50, 0x54, 0x5f, 0x56, 0x31, 0x5f, 0x54, 0x52, 0x41, 0x4e, 0x53, 0x43, 0x52, 0x49, 0x50, 0x54] + (transcript_seed_spec(transcript_public_input_digest_spec(inputs), commitment))),
        query_challenge_digest_spec(inputs, commitment) == crate::digest_v1::sha256_spec(seq![0x41u8, 0x55, 0x52, 0x41, 0x5f, 0x44, 0x43, 0x4d, 0x5f, 0x53, 0x54, 0x41, 0x52, 0x4b, 0x5f, 0x54, 0x52, 0x41, 0x4e, 0x53, 0x43, 0x52, 0x49, 0x50, 0x54, 0x5f, 0x56, 0x31, 0x5f, 0x51, 0x55, 0x45, 0x52, 0x59] + (query_seed_spec(transcript_digest_spec(inputs, commitment), commitment))),
{
    assert(AURA_DCM_STARK_TRANSCRIPT_V1_PUBLIC_INPUT_DOMAIN_SEPARATOR@ =~= seq![0x41u8, 0x55, 0x52, 0x41, 0x5f, 0x44, 0x43, 0x4d, 0x5f, 0x53, 0x54, 0x41, 0x52, 0x4b, 0x5f, 0x54, 0x52, 0x41, 0x4e, 0x53, 0x43, 0x52, 0x49, 0x50, 0x54, 0x5f, 0x56, 0x31, 0x5f, 0x50, 0x55, 0x42, 0x4c, 0x49, 0x43, 0x5f, 0x49, 0x4e, 0x50, 0x55, 0x54, 0x53]);
    assert(AURA_DCM_STARK_TRANSCRIPT_V1_QUERY_DOMAIN_SEPARATOR@ =~= seq![0x41u8, 0x55, 0x52, 0x41, 0x5f, 0x44, 0x43, 0x4d, 0x5f, 0x53, 0x54, 0x41, 0x52, 0x4b, 0x5f, 0x54, 0x52, 0x41, 0x4e, 0x53, 0x43, 0x52, 0x49, 0x50, 0x54, 0x5f, 0x56, 0x31, 0x5f, 0x51, 0x55, 0x45, 0x52, 0x59]);
    assert(AURA_DCM_STARK_TRANSCRIPT_V1_TRANSCRIPT_DOMAIN_SEPARATOR@ =~= seq![0x41u8, 0x55, 0x52, 0x41, 0x5f, 0x44, 0x43, 0x4d, 0x5f, 0x53, 0x54, 0x41, 0x52, 0x4b, 0x5f, 0x54, 0x52, 0x41, 0x4e, 0x53, 0x43, 0x52, 0x49, 0x50, 0x54, 0x5f, 0x56, 0x31, 0x5f, 0x54, 0x52, 0x41, 0x4e, 0x53, 0x43, 0x52, 0x49, 0x50, 0x54]);
}

} // verus!
