//! Packaging of an accepted cat-map AIR evaluation into a prover-facing and
//! a verifier-facing bundle, with a SHA-256 trace digest and a session id.
//! Neither bundle is a proof.

use crate::dcm_air_v1::{
    canonical_dcm_air_trace_bytes_v1, dcm_air_accepts, dcm_air_public_inputs_bytes_spec,
    dcm_rows_bytes, validate_dcm_air_v1, DcmAirErrorV1, DcmAirEvaluationSummaryV1,
    DcmAirPublicInputsV1, DcmAirTraceV1, DCM_AIR_TRACE_WIDTH_V1,
    DCM_AIR_TRANSITION_CONSTRAINT_COUNT_V1,
};
use crate::dcm_v1::{dcm521_same, DcmState521V1};
use crate::digest_v1::{sha256_domain_separated, sha256_domain_separated_spec};
use crate::encoding_v1::{append_bytes, u64_le, u64_to_le_bytes};
use vstd::prelude::*;

verus! {

pub const DCM_AIR_ADAPTER_PACKAGING_VERSION_V1: u8 = 1;

/// `"AURA_DCM_AIR_V1_TRACE_DIGEST"`.
pub const AURA_DCM_AIR_V1_TRACE_DIGEST_DOMAIN_SEPARATOR: [u8; 28] = [0x41, 0x55, 0x52, 0x41, 0x5f, 0x44, 0x43, 0x4d, 0x5f, 0x41, 0x49, 0x52, 0x5f, 0x56, 0x31, 0x5f, 0x54, 0x52, 0x41, 0x43, 0x45, 0x5f, 0x44, 0x49, 0x47, 0x45, 0x53, 0x54];

/// `"AURA_DCM_AIR_V1_SESSION_ID"`.
pub const AURA_DCM_AIR_V1_SESSION_ID_DOMAIN_SEPARATOR: [u8; 26] = [0x41, 0x55, 0x52, 0x41, 0x5f, 0x44, 0x43, 0x4d, 0x5f, 0x41, 0x49, 0x52, 0x5f, 0x56, 0x31, 0x5f, 0x53, 0x45, 0x53, 0x53, 0x49, 0x4f, 0x4e, 0x5f, 0x49, 0x44];

/// The id of a proof session.
#[derive(Clone, Copy, Debug, PartialEq, Eq)]
pub struct DcmAirProofSessionIdV1 {
    bytes: [u8; 32],
}

/// What a session packages.
#[derive(Clone, Copy, Debug, PartialEq, Eq)]
pub struct DcmAirProofSessionMetadataV1 {
    packaging_version: u8,
    trace_width: u8,
    row_count: u64,
    checked_transition_count: u64,
    transition_constraint_count: u8,
}

/// The prover-facing bundle: the whole trace and its evaluation.
#[derive(Clone, Debug, PartialEq, Eq)]
pub struct ProverInputV1 {
    packaging_version: u8,
    trace_width: u8,
    trace: DcmAirTraceV1,
    public_inputs: DcmAirPublicInputsV1,
    evaluation_summary: DcmAirEvaluationSummaryV1,
    transition_constraint_count: u8,
    trace_digest: [u8; 32],
}

/// The verifier-facing bundle: fixed width, without the trace.
#[derive(Clone, Copy, Debug, PartialEq, Eq)]
pub struct VerifierInputV1 {
    packaging_version: u8,
    trace_width: u8,
    public_inputs: DcmAirPublicInputsV1,
    row_count: u64,
    checked_transition_count: u64,
    transition_constraint_count: u8,
    trace_digest: [u8; 32],
}

/// A packaged session.
#[derive(Clone, Debug, PartialEq, Eq)]
pub struct DcmAirProofSessionV1 {
    session_id: DcmAirProofSessionIdV1,
    session_metadata: DcmAirProofSessionMetadataV1,
    prover_input: ProverInputV1,
    verifier_input: VerifierInputV1,
}

/// Why packaging fails.
#[derive(Clone, Copy, Debug, PartialEq, Eq)]
pub enum DcmAirAdapterErrorV1 {
    AirEvaluationFailed(DcmAirErrorV1),
    PackagingInvariantViolation { field: &'static str },
}

impl DcmAirProofSessionIdV1 {
    pub fn as_bytes(&self) -> (bytes: &[u8; 32])
        ensures
            *bytes == self.id_bytes(),
    {
        &self.bytes
    }

    /// The id bytes.
    pub closed spec fn id_bytes(self) -> [u8; 32] {
        self.bytes
    }
}

impl DcmAirProofSessionMetadataV1 {
    pub closed spec fn spec_packaging_version(self) -> u8 {
        self.packaging_version
    }

    pub closed spec fn spec_trace_width(self) -> u8 {
        self.trace_width
    }

    pub closed spec fn spec_row_count(self) -> u64 {
        self.row_count
    }

    pub closed spec fn spec_checked_transition_count(self) -> u64 {
        self.checked_transition_count
    }

    pub closed spec fn spec_transition_constraint_count(self) -> u8 {
        self.transition_constraint_count
    }

    pub fn packaging_version(&self) -> (version: u8)
        ensures
            version == self.spec_packaging_version(),
    {
        self.packaging_version
    }

    pub fn trace_width(&self) -> (width: u8)
        ensures
            width == self.spec_trace_width(),
    {
        self.trace_width
    }

    pub fn row_count(&self) -> (count: u64)
        ensures
            count == self.spec_row_count(),
    {
        self.row_count
    }

    pub fn checked_transition_count(&self) -> (count: u64)
        ensures
            count == self.spec_checked_transition_count(),
    {
        self.checked_transition_count
    }

    pub fn transition_constraint_count(&self) -> (count: u8)
        ensures
            count == self.spec_transition_constraint_count(),
    {
        self.transition_constraint_count
    }
}

impl ProverInputV1 {
    pub closed spec fn spec_trace(self) -> DcmAirTraceV1 {
        self.trace
    }

    pub closed spec fn spec_public_inputs(self) -> DcmAirPublicInputsV1 {
        self.public_inputs
    }

    pub closed spec fn spec_evaluation_summary(self) -> DcmAirEvaluationSummaryV1 {
        self.evaluation_summary
    }

    pub closed spec fn spec_trace_digest(self) -> [u8; 32] {
        self.trace_digest
    }

    pub closed spec fn spec_packaging_version(self) -> u8 {
        self.packaging_version
    }

    pub closed spec fn spec_trace_width(self) -> u8 {
        self.trace_width
    }

    pub closed spec fn spec_transition_constraint_count(self) -> u8 {
        self.transition_constraint_count
    }

    pub fn packaging_version(&self) -> (version: u8)
        ensures
            version == self.spec_packaging_version(),
    {
        self.packaging_version
    }

    pub fn trace_width(&self) -> (width: u8)
        ensures
            width == self.spec_trace_width(),
    {
        self.trace_width
    }

    pub fn trace(&self) -> (trace: &DcmAirTraceV1)
        ensures
            *trace == self.spec_trace(),
    {
        &self.trace
    }

    pub fn public_inputs(&self) -> (inputs: &DcmAirPublicInputsV1)
        ensures
            *inputs == self.spec_public_inputs(),
    {
        &self.public_inputs
    }

    pub fn evaluation_summary(&self) -> (summary: &DcmAirEvaluationSummaryV1)
        ensures
            *summary == self.spec_evaluation_summary(),
    {
        &self.evaluation_summary
    }

    pub fn transition_constraint_count(&self) -> (count: u8)
        ensures
            count == self.spec_transition_constraint_count(),
    {
        self.transition_constraint_count
    }

    pub fn trace_digest(&self) -> (digest: &[u8; 32])
        ensures
            *digest == self.spec_trace_digest(),
    {
        &self.trace_digest
    }
}

impl VerifierInputV1 {
    pub closed spec fn spec_packaging_version(self) -> u8 {
        self.packaging_version
    }

    pub closed spec fn spec_trace_width(self) -> u8 {
        self.trace_width
    }

    pub closed spec fn spec_public_inputs(self) -> DcmAirPublicInputsV1 {
        self.public_inputs
    }

    pub closed spec fn spec_row_count(self) -> u64 {
        self.row_count
    }

    pub closed spec fn spec_checked_transition_count(self) -> u64 {
        self.checked_transition_count
    }

    pub closed spec fn spec_transition_constraint_count(self) -> u8 {
        self.transition_constraint_count
    }

    pub closed spec fn spec_trace_digest(self) -> [u8; 32] {
        self.trace_digest
    }

    pub fn packaging_version(&self) -> (version: u8)
        ensures
            version == self.spec_packaging_version(),
    {
        self.packaging_version
    }

    pub fn trace_width(&self) -> (width: u8)
        ensures
            width == self.spec_trace_width(),
    {
        self.trace_width
    }

    pub fn public_inputs(&self) -> (inputs: &DcmAirPublicInputsV1)
        ensures
            *inputs == self.spec_public_inputs(),
    {
        &self.public_inputs
    }

    pub fn row_count(&self) -> (count: u64)
        ensures
            count == self.spec_row_count(),
    {
        self.row_count
    }

    pub fn checked_transition_count(&self) -> (count: u64)
        ensures
            count == self.spec_checked_transition_count(),
    {
        self.checked_transition_count
    }

    pub fn transition_constraint_count(&self) -> (count: u8)
        ensures
            count == self.spec_transition_constraint_count(),
    {
        self.transition_constraint_count
    }

    pub fn trace_digest(&self) -> (digest: &[u8; 32])
        ensures
            *digest == self.spec_trace_digest(),
    {
        &self.trace_digest
    }
}

impl DcmAirProofSessionV1 {
    pub closed spec fn spec_session_id(self) -> DcmAirProofSessionIdV1 {
        self.session_id
    }

    pub closed spec fn spec_session_metadata(self) -> DcmAirProofSessionMetadataV1 {
        self.session_metadata
    }

    pub closed spec fn spec_prover_input(self) -> ProverInputV1 {
        self.prover_input
    }

    pub closed spec fn spec_verifier_input(self) -> VerifierInputV1 {
        self.verifier_input
    }

    pub fn session_id(&self) -> (id: &DcmAirProofSessionIdV1)
        ensures
            *id == self.spec_session_id(),
    {
        &self.session_id
    }

    pub fn session_metadata(&self) -> (metadata: &DcmAirProofSessionMetadataV1)
        ensures
            *metadata == self.spec_session_metadata(),
    {
        &self.session_metadata
    }

    pub fn prover_input(&self) -> (input: &ProverInputV1)
        ensures
            *input == self.spec_prover_input(),
    {
        &self.prover_input
    }

    pub fn verifier_input(&self) -> (input: &VerifierInputV1)
        ensures
            *input == self.spec_verifier_input(),
    {
        &self.verifier_input
    }
}

/// The packaging invariants of an evaluation summary.
pub open spec fn packaging_invariants_hold(public_inputs: DcmAirPublicInputsV1, trace: Seq<DcmState521V1>, summary: DcmAirEvaluationSummaryV1) -> bool {
    &&& summary.row_count == trace.len()
    &&& summary.checked_transition_count == public_inputs.iteration_count
    &&& trace.len() > 0
    &&& dcm521_same(summary.first_row, public_inputs.initial_state)
    &&& dcm521_same(summary.first_row, trace[0])
    &&& dcm521_same(summary.final_row, public_inputs.final_state)
    &&& dcm521_same(summary.final_row, trace.last())
}

/// Checks that a summary agrees with the trace and the public inputs: row
/// count, transition count, first row and final row, in that order.
pub fn validate_packaging_invariants_v1(public_inputs: &DcmAirPublicInputsV1, trace: &DcmAirTraceV1, evaluation_summary: &DcmAirEvaluationSummaryV1) -> (result: Result<(), DcmAirAdapterErrorV1>)
    ensures
        packaging_invariants_hold(*public_inputs, trace@, *evaluation_summary) <==> result is Ok,
        evaluation_summary.row_count != trace@.len() ==> result == Err::<(), DcmAirAdapterErrorV1>(
            DcmAirAdapterErrorV1::PackagingInvariantViolation { field: "row_count" },
        ),
        evaluation_summary.row_count == trace@.len()
            && evaluation_summary.checked_transition_count != public_inputs.iteration_count
            ==> result == Err::<(), DcmAirAdapterErrorV1>(
            DcmAirAdapterErrorV1::PackagingInvariantViolation { field: "checked_transition_count" },
        ),
{
    if DCM_AIR_TRACE_WIDTH_V1 != 2 {
        return Err(DcmAirAdapterErrorV1::PackagingInvariantViolation { field: "trace_width" });
    }
    if DCM_AIR_TRANSITION_CONSTRAINT_COUNT_V1 != 2 {
        return Err(
            DcmAirAdapterErrorV1::PackagingInvariantViolation { field: "transition_constraint_count" },
        );
    }
    if evaluation_summary.row_count != trace.row_count() {
        return Err(DcmAirAdapterErrorV1::PackagingInvariantViolation { field: "row_count" });
    }
    if evaluation_summary.checked_transition_count != public_inputs.iteration_count {
        return Err(
            DcmAirAdapterErrorV1::PackagingInvariantViolation { field: "checked_transition_count" },
        );
    }
    let first_row = match trace.row(0) {
        Some(row) => row,
        None => {
            return Err(DcmAirAdapterErrorV1::PackagingInvariantViolation { field: "trace[0]" });
        },
    };
    if !evaluation_summary.first_row.same_as(&public_inputs.initial_state)
        || !evaluation_summary.first_row.same_as(&first_row) {
        return Err(DcmAirAdapterErrorV1::PackagingInvariantViolation { field: "first_row" });
    }
    let rows = crate::dcm_air_v1::trace_rows(trace);
    let final_row = rows[rows.len() - 1];
    if !evaluation_summary.final_row.same_as(&public_inputs.final_state)
        || !evaluation_summary.final_row.same_as(&final_row) {
        return Err(DcmAirAdapterErrorV1::PackagingInvariantViolation { field: "final_row" });
    }
    Ok(())
}

/// The trace digest: domain-separated SHA-256 of the trace encoding.
pub open spec fn trace_digest_spec(trace: Seq<DcmState521V1>) -> Seq<u8> {
    sha256_domain_separated_spec(
        AURA_DCM_AIR_V1_TRACE_DIGEST_DOMAIN_SEPARATOR@,
        u64_le(trace.len() as u64) + dcm_rows_bytes(trace),
    )
}

/// The session id payload: the metadata, then the verifier bundle.
pub open spec fn session_id_payload_spec(verifier_input: VerifierInputV1, metadata: DcmAirProofSessionMetadataV1) -> Seq<u8> {
    seq![metadata.spec_packaging_version(), metadata.spec_trace_width()] + u64_le(
        metadata.spec_row_count(),
    ) + u64_le(metadata.spec_checked_transition_count()) + seq![
        metadata.spec_transition_constraint_count(),
    ] + dcm_air_public_inputs_bytes_spec(verifier_input.spec_public_inputs()) + seq![
        verifier_input.spec_trace_width(),
    ] + u64_le(verifier_input.spec_row_count()) + u64_le(
        verifier_input.spec_checked_transition_count(),
    ) + seq![verifier_input.spec_transition_constraint_count()]
        + verifier_input.spec_trace_digest()@
}

fn derive_dcm_air_trace_digest_v1(trace: &DcmAirTraceV1) -> (digest: [u8; 32])
    ensures
        digest@ == trace_digest_spec(trace@),
{
    let domain = AURA_DCM_AIR_V1_TRACE_DIGEST_DOMAIN_SEPARATOR;
    let bytes = canonical_dcm_air_trace_bytes_v1(trace);
    sha256_domain_separated(&domain, bytes.as_slice())
}

/// The bytes a session id is derived from.
pub fn canonical_session_id_payload_v1(verifier_input: &VerifierInputV1, session_metadata: &DcmAirProofSessionMetadataV1) -> (bytes: Vec<u8>)
    ensures
        bytes@ == session_id_payload_spec(*verifier_input, *session_metadata),
{
    let mut bytes: Vec<u8> = Vec::new();
    bytes.push(session_metadata.packaging_version);
    bytes.push(session_metadata.trace_width);
    let rows = u64_to_le_bytes(session_metadata.row_count);
    append_bytes(&mut bytes, &rows);
    let checked = u64_to_le_bytes(session_metadata.checked_transition_count);
    append_bytes(&mut bytes, &checked);
    bytes.push(session_metadata.transition_constraint_count);
    let inputs = verifier_input.public_inputs.canonical_bytes();
    append_bytes(&mut bytes, inputs.as_slice());
    bytes.push(verifier_input.trace_width);
    let verifier_rows = u64_to_le_bytes(verifier_input.row_count);
    append_bytes(&mut bytes, &verifier_rows);
    let verifier_checked = u64_to_le_bytes(verifier_input.checked_transition_count);
    append_bytes(&mut bytes, &verifier_checked);
    bytes.push(verifier_input.transition_constraint_count);
    append_bytes(&mut bytes, &verifier_input.trace_digest);
    proof {
        assert(bytes@ =~= session_id_payload_spec(*verifier_input, *session_metadata));
    }
    bytes
}

fn derive_dcm_air_session_id_v1(verifier_input: &VerifierInputV1, session_metadata: &DcmAirProofSessionMetadataV1) -> (id: [u8; 32])
    ensures
        id@ == sha256_domain_separated_spec(
            AURA_DCM_AIR_V1_SESSION_ID_DOMAIN_SEPARATOR@,
            session_id_payload_spec(*verifier_input, *session_metadata),
        ),
{
    let domain = AURA_DCM_AIR_V1_SESSION_ID_DOMAIN_SEPARATOR;
    let payload = canonical_session_id_payload_v1(verifier_input, session_metadata);
    sha256_domain_separated(&domain, payload.as_slice())
}

/// Evaluates the AIR and, when the trace is accepted, packages both bundles
/// and the session id.
pub fn package_dcm_air_proof_session_v1(public_inputs: &DcmAirPublicInputsV1, trace: &DcmAirTraceV1) -> (result: Result<DcmAirProofSessionV1, DcmAirAdapterErrorV1>)
    ensures
        dcm_air_accepts(*public_inputs, trace@) <==> result is Ok,
        !dcm_air_accepts(*public_inputs, trace@) ==> (result matches Err(
            DcmAirAdapterErrorV1::AirEvaluationFailed(_),
        )),
        result matches Ok(session) ==> {
            &&& session.spec_prover_input().spec_trace()@ == trace@
            &&& session.spec_prover_input().spec_public_inputs() == *public_inputs
            &&& session.spec_verifier_input().spec_public_inputs() == *public_inputs
            &&& session.spec_verifier_input().spec_row_count() == trace@.len()
            &&& session.spec_verifier_input().spec_checked_transition_count()
                == public_inputs.iteration_count
            &&& session.spec_verifier_input().spec_trace_width() == DCM_AIR_TRACE_WIDTH_V1
            &&& session.spec_verifier_input().spec_transition_constraint_count()
                == DCM_AIR_TRANSITION_CONSTRAINT_COUNT_V1
            &&& session.spec_verifier_input().spec_trace_digest()@ == trace_digest_spec(trace@)
            &&& session.spec_prover_input().spec_trace_digest()@ == trace_digest_spec(trace@)
            &&& session.spec_session_metadata().spec_row_count() == trace@.len()
            &&& session.spec_session_metadata().spec_packaging_version()
                == DCM_AIR_ADAPTER_PACKAGING_VERSION_V1
            &&& session.spec_verifier_input().spec_packaging_version()
                == DCM_AIR_ADAPTER_PACKAGING_VERSION_V1
            &&& session.spec_session_metadata().spec_checked_transition_count()
                == public_inputs.iteration_count
            &&& session.spec_session_metadata().spec_trace_width() == DCM_AIR_TRACE_WIDTH_V1
            &&& session.spec_session_metadata().spec_transition_constraint_count()
                == DCM_AIR_TRANSITION_CONSTRAINT_COUNT_V1
            &&& session.spec_session_id().id_bytes()@ == sha256_domain_separated_spec(
                AURA_DCM_AIR_V1_SESSION_ID_DOMAIN_SEPARATOR@,
                session_id_payload_spec(
                    session.spec_verifier_input(),
                    session.spec_session_metadata(),
                ),
            )
        },
{
    let evaluation_summary = match validate_dcm_air_v1(public_inputs, trace) {
        Ok(summary) => summary,
        Err(error) => {
            return Err(DcmAirAdapterErrorV1::AirEvaluationFailed(error));
        },
    };
    proof {
        assert(dcm521_same(trace@[0], public_inputs.initial_state));
    }
    match validate_packaging_invariants_v1(public_inputs, trace, &evaluation_summary) {
        Ok(()) => {},
        Err(error) => {
            return Err(error);
        },
    }
    let trace_digest = derive_dcm_air_trace_digest_v1(trace);
    let session_metadata = DcmAirProofSessionMetadataV1 {
        packaging_version: DCM_AIR_ADAPTER_PACKAGING_VERSION_V1,
        trace_width: DCM_AIR_TRACE_WIDTH_V1,
        row_count: evaluation_summary.row_count,
        checked_transition_count: evaluation_summary.checked_transition_count,
        transition_constraint_count: DCM_AIR_TRANSITION_CONSTRAINT_COUNT_V1,
    };
    let prover_input = ProverInputV1 {
        packaging_version: DCM_AIR_ADAPTER_PACKAGING_VERSION_V1,
        trace_width: DCM_AIR_TRACE_WIDTH_V1,
        trace: crate::dcm_air_v1::copy_trace(trace),
        public_inputs: *public_inputs,
        evaluation_summary,
        transition_constraint_count: DCM_AIR_TRANSITION_CONSTRAINT_COUNT_V1,
        trace_digest,
    };
    let verifier_input = VerifierInputV1 {
        packaging_version: DCM_AIR_ADAPTER_PACKAGING_VERSION_V1,
        trace_width: DCM_AIR_TRACE_WIDTH_V1,
        public_inputs: *public_inputs,
        row_count: evaluation_summary.row_count,
        checked_transition_count: evaluation_summary.checked_transition_count,
        transition_constraint_count: DCM_AIR_TRANSITION_CONSTRAINT_COUNT_V1,
        trace_digest,
    };
    let session_id = DcmAirProofSessionIdV1 {
        bytes: derive_dcm_air_session_id_v1(&verifier_input, &session_metadata),
    };
    Ok(DcmAirProofSessionV1 { session_id, session_metadata, prover_input, verifier_input })
}


/// The trace digest is SHA-256 of `"AURA_DCM_AIR_V1_TRACE_DIGEST"`, the row count as eight
/// little-endian bytes, then the rows.
pub proof fn lemma_trace_digest_preimage(trace: Seq<DcmState521V1>)
    ensures
        trace_digest_spec(trace) == crate::digest_v1::sha256_spec(seq![0x41u8, 0x55, 0x52, 0x41, 0x5f, 0x44, 0x43, 0x4d, 0x5f, 0x41, 0x49, 0x52, 0x5f, 0x56, 0x31, 0x5f, 0x54, 0x52, 0x41, 0x43, 0x45, 0x5f, 0x44, 0x49, 0x47, 0x45, 0x53, 0x54] + (u64_le(trace.len() as u64) + dcm_rows_bytes(trace))),
{
    assert(AURA_DCM_AIR_V1_TRACE_DIGEST_DOMAIN_SEPARATOR@ =~= seq![0x41u8, 0x55, 0x52, 0x41, 0x5f, 0x44, 0x43, 0x4d, 0x5f, 0x41, 0x49, 0x52, 0x5f, 0x56, 0x31, 0x5f, 0x54, 0x52, 0x41, 0x43, 0x45, 0x5f, 0x44, 0x49, 0x47, 0x45, 0x53, 0x54]);
}

} // verus!
