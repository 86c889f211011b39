//! The proving scaffold for the cat-map AIR: a Merkle commitment to the
//! trace, a transcript over it, openings of the boundary rows and of one
//! transition the transcript selects, and a digest over the whole artifact.
//! A scaffold, not a succinct proof.

use crate::dcm_air_v1::{
    dcm_air_accepts, validate_dcm_air_v1, DcmAirErrorV1, DcmAirPublicInputsV1, DcmAirTraceV1,
    DCM_AIR_TRACE_WIDTH_V1, DCM_AIR_TRANSITION_CONSTRAINT_COUNT_V1,
};
use crate::dcm_v1::{dcm521_state_bytes, DcmState521V1};
use crate::digest_v1::{sha256_domain_separated, sha256_domain_separated_spec};
use crate::encoding_v1::{append_bytes, u64_le, u64_to_le_bytes};
use crate::stark_trace_commitment_v1::{
    build_stark_trace_commitment_tree_v1, height_of_count, merkle_path, merkle_root,
    opening_siblings, trace_leaves, StarkTraceCommitmentErrorV1, StarkTraceCommitmentV1,
    StarkTraceMerkleOpeningV1, STARK_TRACE_COMMITMENT_VERSION_V1,
};
use crate::stark_transcript_v1::{
    challenge_row_index_spec, derive_dcm_air_stark_transcript_v1, query_challenge_digest_spec,
    transcript_digest_spec, transcript_public_input_digest_spec, DcmAirStarkTranscriptErrorV1,
};
use vstd::prelude::*;

verus! {

pub const DCM_AIR_STARK_PROOF_SCAFFOLD_VERSION_V1: u8 = 1;

/// `"AURA_DCM_AIR_STARK_PROOF_SCAFFOLD_V1"`.
pub const AURA_DCM_AIR_STARK_PROOF_SCAFFOLD_V1_DOMAIN_SEPARATOR: [u8; 36] = [0x41, 0x55, 0x52, 0x41, 0x5f, 0x44, 0x43, 0x4d, 0x5f, 0x41, 0x49, 0x52, 0x5f, 0x53, 0x54, 0x41, 0x52, 0x4b, 0x5f, 0x50, 0x52, 0x4f, 0x4f, 0x46, 0x5f, 0x53, 0x43, 0x41, 0x46, 0x46, 0x4f, 0x4c, 0x44, 0x5f, 0x56, 0x31];

/// The shape the openings claim.
#[derive(Clone, Copy, Debug, PartialEq, Eq)]
pub struct DcmAirStarkOpeningMetadataV1 {
    pub trace_row_count: u64,
    pub commitment_tree_height: u64,
    pub transition_query_count: u8,
    pub trace_width: u8,
    pub transition_constraint_count: u8,
}

/// The openings of a queried transition: the row and the one after it.
#[derive(Clone, Debug, PartialEq, Eq)]
pub struct DcmAirStarkTransitionOpeningsV1 {
    pub row_index: u64,
    pub current_row_opening: StarkTraceMerkleOpeningV1,
    pub next_row_opening: StarkTraceMerkleOpeningV1,
}

/// The scaffold artifact.
#[derive(Clone, Debug, PartialEq, Eq)]
pub struct DcmAirStarkProofArtifactV1 {
    pub proof_version: u8,
    pub trace_commitment_root: [u8; 32],
    pub public_input_digest: [u8; 32],
    pub transcript_digest: [u8; 32],
    pub query_challenge_digest: [u8; 32],
    pub boundary_first_row_opening: StarkTraceMerkleOpeningV1,
    pub boundary_last_row_opening: StarkTraceMerkleOpeningV1,
    pub queried_transition_openings: Option<DcmAirStarkTransitionOpeningsV1>,
    pub opening_metadata: DcmAirStarkOpeningMetadataV1,
    pub proof_artifact_digest: [u8; 32],
}

/// Why no artifact is produced.
#[derive(Clone, Copy, Debug, PartialEq, Eq)]
pub enum DcmAirStarkProverErrorV1 {
    AirEvaluationRequired(DcmAirErrorV1),
    CommitmentConstructionFailed(StarkTraceCommitmentErrorV1),
    TranscriptConstructionFailed(DcmAirStarkTranscriptErrorV1),
    OpeningConstructionFailed(StarkTraceCommitmentErrorV1),
}

/// The sibling hashes, one after another.
pub open spec fn sibling_bytes(siblings: Seq<[u8; 32]>) -> Seq<u8>
    decreases siblings.len(),
{
    if siblings.len() == 0 {
        Seq::empty()
    } else {
        sibling_bytes(siblings.drop_last()) + siblings.last()@
    }
}

/// The encoding of an opening: index, row, path length and path.
pub open spec fn opening_bytes_spec(opening: StarkTraceMerkleOpeningV1) -> Seq<u8> {
    u64_le(opening.row_index) + dcm521_state_bytes(opening.row_value) + u64_le(
        opening.sibling_hashes@.len() as u64,
    ) + sibling_bytes(opening.sibling_hashes@)
}

/// The encoding of the queried transition: a zero byte when there is none,
/// else a one byte, the row index and both openings.
pub open spec fn transition_openings_bytes_spec(openings: Option<DcmAirStarkTransitionOpeningsV1>) -> Seq<u8> {
    match openings {
        Some(t) => seq![1u8] + u64_le(t.row_index) + opening_bytes_spec(t.current_row_opening)
            + opening_bytes_spec(t.next_row_opening),
        None => seq![0u8],
    }
}

/// The encoding of the metadata.
pub open spec fn opening_metadata_bytes_spec(metadata: DcmAirStarkOpeningMetadataV1) -> Seq<u8> {
    u64_le(metadata.trace_row_count) + u64_le(metadata.commitment_tree_height) + seq![
        metadata.transition_query_count,
        metadata.trace_width,
        metadata.transition_constraint_count,
    ]
}

/// The encoding of an artifact, without its own digest.
pub open spec fn proof_artifact_bytes_spec(artifact: DcmAirStarkProofArtifactV1) -> Seq<u8> {
    seq![artifact.proof_version] + artifact.trace_commitment_root@ + artifact.public_input_digest@
        + artifact.transcript_digest@ + artifact.query_challenge_digest@ + opening_bytes_spec(
        artifact.boundary_first_row_opening,
    ) + opening_bytes_spec(artifact.boundary_last_row_opening) + transition_openings_bytes_spec(
        artifact.queried_transition_openings,
    ) + opening_metadata_bytes_spec(artifact.opening_metadata)
}

/// The digest of an artifact.
pub open spec fn proof_artifact_digest_spec(artifact: DcmAirStarkProofArtifactV1) -> Seq<u8> {
    sha256_domain_separated_spec(
        AURA_DCM_AIR_STARK_PROOF_SCAFFOLD_V1_DOMAIN_SEPARATOR@,
        proof_artifact_bytes_spec(artifact),
    )
}

/// The opening of row `index` of a trace.
pub open spec fn opening_of(rows: Seq<DcmState521V1>, index: int, opening: StarkTraceMerkleOpeningV1) -> bool {
    &&& opening.row_index == index
    &&& opening.row_value == rows[index]
    &&& opening_siblings(opening) == merkle_path(trace_leaves(rows), index)
}

/// The commitment an artifact claims, rebuilt from its root and metadata.
pub open spec fn claimed_commitment(artifact: DcmAirStarkProofArtifactV1) -> StarkTraceCommitmentV1 {
    StarkTraceCommitmentV1 {
        commitment_version: STARK_TRACE_COMMITMENT_VERSION_V1,
        leaf_count: artifact.opening_metadata.trace_row_count,
        tree_height: artifact.opening_metadata.commitment_tree_height,
        root: artifact.trace_commitment_root,
    }
}

/// The artifact the prover builds for a trace the AIR accepts.
pub open spec fn scaffold_artifact_for(public_inputs: DcmAirPublicInputsV1, rows: Seq<DcmState521V1>, artifact: DcmAirStarkProofArtifactV1) -> bool {
    let count = rows.len();
    let commitment = claimed_commitment(artifact);
    &&& artifact.proof_version == DCM_AIR_STARK_PROOF_SCAFFOLD_VERSION_V1
    &&& artifact.opening_metadata.trace_row_count == count
    &&& artifact.opening_metadata.commitment_tree_height == height_of_count(count)
    &&& artifact.opening_metadata.transition_query_count == (if count > 1 {
        1u8
    } else {
        0u8
    })
    &&& artifact.opening_metadata.trace_width == DCM_AIR_TRACE_WIDTH_V1
    &&& artifact.opening_metadata.transition_constraint_count
        == DCM_AIR_TRANSITION_CONSTRAINT_COUNT_V1
    &&& artifact.trace_commitment_root@ == merkle_root(trace_leaves(rows))
    &&& artifact.public_input_digest@ == transcript_public_input_digest_spec(public_inputs)
    &&& artifact.transcript_digest@ == transcript_digest_spec(public_inputs, commitment)
    &&& artifact.query_challenge_digest@ == query_challenge_digest_spec(public_inputs, commitment)
    &&& opening_of(rows, 0, artifact.boundary_first_row_opening)
    &&& opening_of(rows, count - 1, artifact.boundary_last_row_opening)
    &&& (count > 1 ==> (artifact.queried_transition_openings matches Some(t) && {
        &&& t.row_index == challenge_row_index_spec(
            query_challenge_digest_spec(public_inputs, commitment),
            (count - 1) as u64,
        )
        &&& opening_of(rows, t.row_index as int, t.current_row_opening)
        &&& opening_of(rows, t.row_index + 1, t.next_row_opening)
    }))
    &&& (count <= 1 ==> artifact.queried_transition_openings is None)
    &&& artifact.proof_artifact_digest@ == proof_artifact_digest_spec(artifact)
}

/// The encoding of an opening.
pub fn canonical_trace_opening_bytes_v1(opening: &StarkTraceMerkleOpeningV1) -> (bytes: Vec<u8>)
    ensures
        bytes@ == opening_bytes_spec(*opening),
{
    let index_bytes = u64_to_le_bytes(opening.row_index);
    let row_bytes = opening.row_value.canonical_bytes();
    let path_len = u64_to_le_bytes(opening.sibling_hashes.len() as u64);
    let mut bytes: Vec<u8> = Vec::new();
    append_bytes(&mut bytes, &index_bytes);
    append_bytes(&mut bytes, &row_bytes);
    append_bytes(&mut bytes, &path_len);
    let ghost head = bytes@;
    let mut index: usize = 0;
    while index < opening.sibling_hashes.len()
        invariant
            0 <= index <= opening.sibling_hashes@.len(),
            bytes@ == head + sibling_bytes(opening.sibling_hashes@.take(index as int)),
        decreases opening.sibling_hashes@.len() - index,
    {
        append_bytes(&mut bytes, &opening.sibling_hashes[index]);
        proof {
            assert(opening.sibling_hashes@.take(index + 1).drop_last() =~= opening.sibling_hashes@.take(
                index as int,
            ));
        }
        index += 1;
    }
    proof {
        assert(opening.sibling_hashes@.take(opening.sibling_hashes@.len() as int)
            =~= opening.sibling_hashes@);
    }
    bytes
}

fn canonical_transition_openings_bytes_v1(transition_openings: &Option<DcmAirStarkTransitionOpeningsV1>) -> (bytes: Vec<u8>)
    ensures
        bytes@ == transition_openings_bytes_spec(*transition_openings),
{
    match transition_openings {
        Some(openings) => {
            let current_bytes = canonical_trace_opening_bytes_v1(&openings.current_row_opening);
            let next_bytes = canonical_trace_opening_bytes_v1(&openings.next_row_opening);
            let index_bytes = u64_to_le_bytes(openings.row_index);
            let mut bytes: Vec<u8> = Vec::new();
            bytes.push(1);
            append_bytes(&mut bytes, &index_bytes);
            append_bytes(&mut bytes, current_bytes.as_slice());
            append_bytes(&mut bytes, next_bytes.as_slice());
            proof {
                assert(bytes@ =~= transition_openings_bytes_spec(*transition_openings));
            }
            bytes
        },
        None => {
            let mut bytes: Vec<u8> = Vec::new();
            bytes.push(0);
            proof {
                assert(bytes@ =~= seq![0u8]);
            }
            bytes
        },
    }
}

fn canonical_opening_metadata_bytes_v1(metadata: &DcmAirStarkOpeningMetadataV1) -> (bytes: Vec<u8>)
    ensures
        bytes@ == opening_metadata_bytes_spec(*metadata),
{
    let rows = u64_to_le_bytes(metadata.trace_row_count);
    let height = u64_to_le_bytes(metadata.commitment_tree_height);
    let mut bytes: Vec<u8> = Vec::new();
    append_bytes(&mut bytes, &rows);
    append_bytes(&mut bytes, &height);
    bytes.push(metadata.transition_query_count);
    bytes.push(metadata.trace_width);
    bytes.push(metadata.transition_constraint_count);
    proof {
        assert(bytes@ =~= opening_metadata_bytes_spec(*metadata));
    }
    bytes
}

fn canonical_proof_artifact_bytes_v1(proof_artifact: &DcmAirStarkProofArtifactV1) -> (bytes: Vec<u8>)
    ensures
        bytes@ == proof_artifact_bytes_spec(*proof_artifact),
{
    let first_opening_bytes = canonical_trace_opening_bytes_v1(&proof_artifact.boundary_first_row_opening);
    let last_opening_bytes = canonical_trace_opening_bytes_v1(&proof_artifact.boundary_last_row_opening);
    let transition_bytes = canonical_transition_openings_bytes_v1(
        &proof_artifact.queried_transition_openings,
    );
    let metadata_bytes = canonical_opening_metadata_bytes_v1(&proof_artifact.opening_metadata);
    let mut bytes: Vec<u8> = Vec::new();
    bytes.push(proof_artifact.proof_version);
    append_bytes(&mut bytes, &proof_artifact.trace_commitment_root);
    append_bytes(&mut bytes, &proof_artifact.public_input_digest);
    append_bytes(&mut bytes, &proof_artifact.transcript_digest);
    append_bytes(&mut bytes, &proof_artifact.query_challenge_digest);
    append_bytes(&mut bytes, first_opening_bytes.as_slice());
    append_bytes(&mut bytes, last_opening_bytes.as_slice());
    append_bytes(&mut bytes, transition_bytes.as_slice());
    append_bytes(&mut bytes, metadata_bytes.as_slice());
    proof {
        assert(bytes@ =~= proof_artifact_bytes_spec(*proof_artifact));
    }
    bytes
}

/// The digest of an artifact.
pub fn derive_dcm_air_stark_proof_artifact_digest_v1(proof_artifact: &DcmAirStarkProofArtifactV1) -> (digest: [u8; 32])
    ensures
        digest@ == proof_artifact_digest_spec(*proof_artifact),
{
    let domain = AURA_DCM_AIR_STARK_PROOF_SCAFFOLD_V1_DOMAIN_SEPARATOR;
    let bytes = canonical_proof_artifact_bytes_v1(proof_artifact);
    sha256_domain_separated(&domain, bytes.as_slice())
}

/// Builds the scaffold artifact of a trace the AIR accepts.
pub fn prove_dcm_air_stark_scaffold_v1(public_inputs: &DcmAirPublicInputsV1, trace: &DcmAirTraceV1) -> (result: Result<DcmAirStarkProofArtifactV1, DcmAirStarkProverErrorV1>)
    ensures
        dcm_air_accepts(*public_inputs, trace@) <==> result is Ok,
        !dcm_air_accepts(*public_inputs, trace@) ==> (result matches Err(
            DcmAirStarkProverErrorV1::AirEvaluationRequired(_),
        )),
        result matches Ok(artifact) ==> scaffold_artifact_for(*public_inputs, trace@, artifact),
{
    match validate_dcm_air_v1(public_inputs, trace) {
        Ok(_) => {},
        Err(error) => {
            return Err(DcmAirStarkProverErrorV1::AirEvaluationRequired(error));
        },
    }
    let commitment_tree = match build_stark_trace_commitment_tree_v1(trace) {
        Ok(tree) => tree,
        Err(error) => {
            return Err(DcmAirStarkProverErrorV1::CommitmentConstructionFailed(error));
        },
    };
    let trace_commitment = commitment_tree.commitment();
    let transcript = match derive_dcm_air_stark_transcript_v1(public_inputs, &trace_commitment) {
        Ok(transcript) => transcript,
        Err(error) => {
            return Err(DcmAirStarkProverErrorV1::TranscriptConstructionFailed(error));
        },
    };
    let boundary_first_row_opening = match commitment_tree.open_row(0) {
        Ok(opening) => opening,
        Err(error) => {
            return Err(DcmAirStarkProverErrorV1::OpeningConstructionFailed(error));
        },
    };
    let boundary_last_row_opening = match commitment_tree.open_row(trace_commitment.leaf_count - 1) {
        Ok(opening) => opening,
        Err(error) => {
            return Err(DcmAirStarkProverErrorV1::OpeningConstructionFailed(error));
        },
    };
    let queried_transition_openings = if transcript.transition_query_count == 0 {
        None
    } else {
        let row_index = transcript.queried_transition_row_index;
        let current_row_opening = match commitment_tree.open_row(row_index) {
            Ok(opening) => opening,
            Err(error) => {
                return Err(DcmAirStarkProverErrorV1::OpeningConstructionFailed(error));
            },
        };
        let next_row_opening = match commitment_tree.open_row(row_index + 1) {
            Ok(opening) => opening,
            Err(error) => {
                return Err(DcmAirStarkProverErrorV1::OpeningConstructionFailed(error));
            },
        };
        Some(DcmAirStarkTransitionOpeningsV1 { row_index, current_row_opening, next_row_opening })
    };
    let mut proof_artifact = DcmAirStarkProofArtifactV1 {
        proof_version: DCM_AIR_STARK_PROOF_SCAFFOLD_VERSION_V1,
        trace_commitment_root: trace_commitment.root,
        public_input_digest: transcript.public_input_digest,
        transcript_digest: transcript.transcript_digest,
        query_challenge_digest: transcript.query_challenge_digest,
        boundary_first_row_opening,
        boundary_last_row_opening,
        queried_transition_openings,
        opening_metadata: DcmAirStarkOpeningMetadataV1 {
            trace_row_count: trace_commitment.leaf_count,
            commitment_tree_height: trace_commitment.tree_height,
            transition_query_count: transcript.transition_query_count,
            trace_width: DCM_AIR_TRACE_WIDTH_V1,
            transition_constraint_count: DCM_AIR_TRANSITION_CONSTRAINT_COUNT_V1,
        },
        proof_artifact_digest: [0u8; 32],
    };
    let digest = derive_dcm_air_stark_proof_artifact_digest_v1(&proof_artifact);
    let ghost undigested = proof_artifact;
    proof_artifact.proof_artifact_digest = digest;
    proof {
        assert(proof_artifact_bytes_spec(proof_artifact) =~= proof_artifact_bytes_spec(undigested));
        assert(claimed_commitment(proof_artifact) == trace_commitment);
    }
    Ok(proof_artifact)
}

pub const DCM_AIR_REAL_STARK_LIMB_DIGIT_WIDTH_V1: usize = 4;

pub const DCM_AIR_REAL_STARK_LIMB_COUNT_V1: usize = 19;

/// `2^28`: the base of a limb of four 7-bit digits.
pub const DCM_AIR_REAL_STARK_LIMB_BASE_V1: u64 = 268435456;

/// Digit `k` weighted by `w`, or zero past the last digit.
pub open spec fn limb_term(digits: Seq<u8>, k: int, weight: int) -> int {
    if k < 75 {
        digits[k] * weight
    } else {
        0
    }
}

/// Limb `i`: digits `4i .. 4i + 3` in base 128.
pub open spec fn limb_spec(digits: Seq<u8>, i: int) -> int {
    limb_term(digits, 4 * i, 1) + limb_term(digits, 4 * i + 1, 128) + limb_term(
        digits,
        4 * i + 2,
        16384,
    ) + limb_term(digits, 4 * i + 3, 2097152)
}

/// The nineteen limbs of 75 digits.
pub open spec fn limbs_of(digits: Seq<u8>) -> Seq<int> {
    Seq::new(19, |i: int| limb_spec(digits, i))
}

/// The digits of `2^521 - 1`: seventy-four digits 127 and a top digit 7.
pub open spec fn modulus_digits_spec() -> Seq<u8> {
    Seq::new(75, |i: int| if i == 74 {
        7u8
    } else {
        127u8
    })
}

/// Limb equation `i`: `x_i + s y_i + c_i = n_i + q m_i + 2^28 c_{i+1}`, with
/// no carry out of the top limb.
pub open spec fn limb_equation(x: Seq<int>, y: Seq<int>, n: Seq<int>, m: Seq<int>, scale: int, quotient: int, carries: Seq<int>, i: int) -> bool {
    x[i] + scale * y[i] + carries[i] == n[i] + quotient * m[i] + (if i + 1 < 19 {
        268435456 * carries[i + 1]
    } else {
        0
    })
}

/// Carries that witness `x + s y = n + q m` limb by limb: none into the
/// lowest limb, each at most `max_carry`, and every limb equation holding.
pub open spec fn limb_witness(x: Seq<int>, y: Seq<int>, n: Seq<int>, m: Seq<int>, scale: int, quotient: int, max_carry: int, carries: Seq<int>) -> bool {
    &&& carries.len() == 19
    &&& carries[0] == 0
    &&& forall|i: int| 0 <= i < 19 ==> 0 <= #[trigger] carries[i] <= max_carry
    &&& forall|i: int|
        0 <= i < 19 ==> #[trigger] limb_equation(x, y, n, m, scale, quotient, carries, i)
}

/// Limbs read as integers.
pub open spec fn limbs_view(limbs: Seq<u32>) -> Seq<int> {
    limbs.map_values(|v: u32| v as int)
}

/// Bytes read as integers.
pub open spec fn carries_view(carries: Seq<u8>) -> Seq<int> {
    carries.map_values(|c: u8| c as int)
}

/// The limbs of 75 digits: four digits each, base 128, least significant
/// first.
pub fn u28_limbs_from_digits_le_v1(digits_le: &[u8; 75]) -> (limbs: [u32; 19])
    ensures
        forall|i: int| 0 <= i < 19 ==> #[trigger] limbs@[i] == limb_spec(digits_le@, i),
{
    let mut limbs = [0u32; 19];
    let mut limb_index: usize = 0;
    while limb_index < 19
        invariant
            0 <= limb_index <= 19,
            limbs@.len() == 19,
            forall|i: int| 0 <= i < limb_index ==> #[trigger] limbs@[i] == limb_spec(digits_le@, i),
        decreases 19 - limb_index,
    {
        let base = 4 * limb_index;
        let mut limb: u32 = digits_le[base] as u32;
        if base + 1 < 75 {
            limb = limb + 128 * digits_le[base + 1] as u32;
        }
        if base + 2 < 75 {
            limb = limb + 16384 * digits_le[base + 2] as u32;
        }
        if base + 3 < 75 {
            limb = limb + 2097152 * digits_le[base + 3] as u32;
        }
        limbs[limb_index] = limb;
        limb_index += 1;
    }
    limbs
}

/// The digits of the modulus `2^521 - 1`.
pub fn field_modulus_521_digits_le_v1() -> (digits: [u8; 75])
    ensures
        digits@ == modulus_digits_spec(),
{
    let mut digits = [127u8; 75];
    digits[74] = 7;
    proof {
        assert(digits@ =~= modulus_digits_spec());
    }
    digits
}

/// The digits of both coordinates of a state.
pub fn state_coordinate_digits_le_v1(state: DcmState521V1) -> (digits: ([u8; 75], [u8; 75]))
    ensures
        forall|i: int| 0 <= i < 75 ==> #[trigger] digits.0@[i] == crate::dcm_commitment_root_v1::digits_spec(state.x.value())[i],
        forall|i: int| 0 <= i < 75 ==> #[trigger] digits.1@[i] == crate::dcm_commitment_root_v1::digits_spec(state.y.value())[i],
{
    (
        crate::dcm_commitment_root_v1::digits_le_from_field_element_v1(&state.x),
        crate::dcm_commitment_root_v1::digits_le_from_field_element_v1(&state.y),
    )
}

/// Runs the carry chain of one quotient: the carries are forced limb by
/// limb, and the chain fails when a difference is negative, not a multiple
/// of the limb base, too large a carry, or nonzero at the top.
fn try_quotient_v1(x: &[u32; 19], y: &[u32; 19], n: &[u32; 19], m: &[u32; 19], y_scale: u8, quotient: u8, max_carry: u8) -> (result: Option<[u8; 19]>)
    ensures
        result matches Some(carries) ==> limb_witness(
            limbs_view(x@),
            limbs_view(y@),
            limbs_view(n@),
            limbs_view(m@),
            y_scale as int,
            quotient as int,
            max_carry as int,
            carries_view(carries@),
        ),
        result is None ==> forall|carries: Seq<int>|
            !#[trigger] limb_witness(
                limbs_view(x@),
                limbs_view(y@),
                limbs_view(n@),
                limbs_view(m@),
                y_scale as int,
                quotient as int,
                max_carry as int,
                carries,
            ),
{
    let ghost xs = limbs_view(x@);
    let ghost ys = limbs_view(y@);
    let ghost ns = limbs_view(n@);
    let ghost ms = limbs_view(m@);
    let mut carries = [0u8; 19];
    let mut carry_in: u64 = 0;
    let mut limb_index: usize = 0;
    while limb_index < 19
        invariant
            0 <= limb_index <= 19,
            carries@.len() == 19,
            xs == limbs_view(x@),
            ys == limbs_view(y@),
            ns == limbs_view(n@),
            ms == limbs_view(m@),
            carries@[0] == 0,
            limb_index < 19 ==> carry_in == carries@[limb_index as int],
            carry_in <= max_carry,
            forall|i: int| 0 <= i < 19 ==> #[trigger] carries@[i] <= max_carry,
            forall|i: int|
                0 <= i < limb_index ==> #[trigger] limb_equation(
                    xs,
                    ys,
                    ns,
                    ms,
                    y_scale as int,
                    quotient as int,
                    carries_view(carries@),
                    i,
                ),
            forall|c: Seq<int>|
                #[trigger] limb_witness(xs, ys, ns, ms, y_scale as int, quotient as int, max_carry as int, c)
                    ==> limb_index < 19 ==> c[limb_index as int] == carry_in,
        decreases 19 - limb_index,
    {
        let x_limb = x[limb_index] as u64;
        let y_limb = y[limb_index] as u64;
        let n_limb = n[limb_index] as u64;
        let m_limb = m[limb_index] as u64;
        assert(y_scale as u64 * y_limb <= 255 * 4294967295) by (nonlinear_arith)
            requires
                y_scale <= 255,
                y_limb <= 4294967295,
        ;
        assert(quotient as u64 * m_limb <= 255 * 4294967295) by (nonlinear_arith)
            requires
                quotient <= 255,
                m_limb <= 4294967295,
        ;
        let total = x_limb + y_scale as u64 * y_limb + carry_in;
        let rhs = n_limb + quotient as u64 * m_limb;
        proof {
            assert forall|c: Seq<int>| #[trigger]
                limb_witness(xs, ys, ns, ms, y_scale as int, quotient as int, max_carry as int, c)
                implies limb_equation(xs, ys, ns, ms, y_scale as int, quotient as int, c, limb_index as int)
                && c[limb_index as int] == carry_in by {}
        }
        if total < rhs {
            return None;
        }
        let diff = total - rhs;
        if limb_index + 1 == 19 {
            if diff != 0 {
                return None;
            }
            proof {
                assert(limb_equation(xs, ys, ns, ms, y_scale as int, quotient as int, carries_view(carries@), 18));
            }
            limb_index += 1;
        } else {
            if diff % DCM_AIR_REAL_STARK_LIMB_BASE_V1 != 0 {
                return None;
            }
            let carry_out = diff / DCM_AIR_REAL_STARK_LIMB_BASE_V1;
            if carry_out > max_carry as u64 {
                return None;
            }
            let ghost before = carries@;
            carries[limb_index + 1] = carry_out as u8;
            proof {
                assert forall|i: int| 0 <= i <= limb_index implies #[trigger] limb_equation(
                    xs,
                    ys,
                    ns,
                    ms,
                    y_scale as int,
                    quotient as int,
                    carries_view(carries@),
                    i,
                ) by {
                    if i < limb_index {
                        assert(limb_equation(xs, ys, ns, ms, y_scale as int, quotient as int, carries_view(before), i));
                    }
                }
            }
            carry_in = carry_out;
            limb_index += 1;
        }
    }
    proof {
        let cv = carries_view(carries@);
        assert forall|i: int| 0 <= i < 19 implies 0 <= #[trigger] cv[i] <= max_carry by {}
    }
    Some(carries)
}

/// Some quotient at most `max_quotient` has witnessing carries.
pub open spec fn limb_relation_solvable(x: Seq<int>, y: Seq<int>, n: Seq<int>, m: Seq<int>, scale: int, quotient: int, max_carry: int) -> bool {
    exists|carries: Seq<int>| #[trigger] limb_witness(x, y, n, m, scale, quotient, max_carry, carries)
}

proof fn lemma_limbs_view(digits: Seq<u8>, limbs: Seq<u32>)
    requires
        limbs.len() == 19,
        forall|i: int| 0 <= i < 19 ==> #[trigger] limbs[i] == limb_spec(digits, i),
    ensures
        limbs_view(limbs) == limbs_of(digits),
{
    assert(limbs_view(limbs) =~= limbs_of(digits));
}

/// Finds the least quotient `q <= max_quotient` and carries such that
/// `x + s y = next + q (2^521 - 1)` holds limb by limb (limbs of four 7-bit
/// digits, carries at most `max_carry`); none when no quotient in range has
/// such carries.
pub fn solve_mod_relation_v1(lhs_x: &[u8; 75], lhs_y: &[u8; 75], next: &[u8; 75], y_scale: u8, max_quotient: u8, max_carry: u8) -> (result: Option<(u8, [u8; 19])>)
    ensures
        result matches Some((quotient, carries)) ==> {
            &&& quotient <= max_quotient
            &&& limb_witness(
                limbs_of(lhs_x@),
                limbs_of(lhs_y@),
                limbs_of(next@),
                limbs_of(modulus_digits_spec()),
                y_scale as int,
                quotient as int,
                max_carry as int,
                carries_view(carries@),
            )
            &&& forall|q: int|
                0 <= q < quotient ==> !#[trigger] limb_relation_solvable(
                    limbs_of(lhs_x@),
                    limbs_of(lhs_y@),
                    limbs_of(next@),
                    limbs_of(modulus_digits_spec()),
                    y_scale as int,
                    q,
                    max_carry as int,
                )
        },
        result is None ==> forall|q: int|
            0 <= q <= max_quotient ==> !#[trigger] limb_relation_solvable(
                limbs_of(lhs_x@),
                limbs_of(lhs_y@),
                limbs_of(next@),
                limbs_of(modulus_digits_spec()),
                y_scale as int,
                q,
                max_carry as int,
            ),
{
    let modulus_digits = field_modulus_521_digits_le_v1();
    let modulus = u28_limbs_from_digits_le_v1(&modulus_digits);
    let lhs_x_limbs = u28_limbs_from_digits_le_v1(lhs_x);
    let lhs_y_limbs = u28_limbs_from_digits_le_v1(lhs_y);
    let next_limbs = u28_limbs_from_digits_le_v1(next);
    proof {
        lemma_limbs_view(modulus_digits@, modulus@);
        lemma_limbs_view(lhs_x@, lhs_x_limbs@);
        lemma_limbs_view(lhs_y@, lhs_y_limbs@);
        lemma_limbs_view(next@, next_limbs@);
    }
    let ghost xs = limbs_of(lhs_x@);
    let ghost ys = limbs_of(lhs_y@);
    let ghost ns = limbs_of(next@);
    let ghost ms = limbs_of(modulus_digits_spec());
    let mut quotient: u16 = 0;
    while quotient <= max_quotient as u16
        invariant
            quotient <= max_quotient as u16 + 1,
            xs == limbs_view(lhs_x_limbs@),
            ys == limbs_view(lhs_y_limbs@),
            ns == limbs_view(next_limbs@),
            ms == limbs_view(modulus@),
            xs == limbs_of(lhs_x@),
            ys == limbs_of(lhs_y@),
            ns == limbs_of(next@),
            ms == limbs_of(modulus_digits_spec()),
            forall|q: int|
                0 <= q < quotient ==> !#[trigger] limb_relation_solvable(
                    xs,
                    ys,
                    ns,
                    ms,
                    y_scale as int,
                    q,
                    max_carry as int,
                ),
        decreases max_quotient as u16 + 1 - quotient,
    {
        let q = quotient as u8;
        match try_quotient_v1(&lhs_x_limbs, &lhs_y_limbs, &next_limbs, &modulus, y_scale, q, max_carry) {
            Some(carries) => {
                return Some((q, carries));
            },
            None => {},
        }
        quotient += 1;
    }
    None
}


/// The scaffold artifact digest is SHA-256 of
/// `"AURA_DCM_AIR_STARK_PROOF_SCAFFOLD_V1"` then the artifact bytes.
pub proof fn lemma_scaffold_artifact_digest_preimage(artifact: DcmAirStarkProofArtifactV1)
    ensures
        proof_artifact_digest_spec(artifact) == crate::digest_v1::sha256_spec(seq![0x41u8, 0x55, 0x52, 0x41, 0x5f, 0x44, 0x43, 0x4d, 0x5f, 0x41, 0x49, 0x52, 0x5f, 0x53, 0x54, 0x41, 0x52, 0x4b, 0x5f, 0x50, 0x52, 0x4f, 0x4f, 0x46, 0x5f, 0x53, 0x43, 0x41, 0x46, 0x46, 0x4f, 0x4c, 0x44, 0x5f, 0x56, 0x31] + (proof_artifact_bytes_spec(artifact))),
{
    assert(AURA_DCM_AIR_STARK_PROOF_SCAFFOLD_V1_DOMAIN_SEPARATOR@ =~= seq![0x41u8, 0x55, 0x52, 0x41, 0x5f, 0x44, 0x43, 0x4d, 0x5f, 0x41, 0x49, 0x52, 0x5f, 0x53, 0x54, 0x41, 0x52, 0x4b, 0x5f, 0x50, 0x52, 0x4f, 0x4f, 0x46, 0x5f, 0x53, 0x43, 0x41, 0x46, 0x46, 0x4f, 0x4c, 0x44, 0x5f, 0x56, 0x31]);
}

} // verus!
