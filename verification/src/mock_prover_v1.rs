//! A deterministic mock prover for the cat-map AIR: it evaluates the AIR,
//! packages the session, and binds the verifier-visible values by SHA-256
//! digests. The artifact is a placeholder binding, not a cryptographic proof.

use crate::dcm_air_adapter_v1::{
    package_dcm_air_proof_session_v1, trace_digest_spec, DcmAirAdapterErrorV1, DcmAirProofSessionV1,
    VerifierInputV1, AURA_DCM_AIR_V1_SESSION_ID_DOMAIN_SEPARATOR, DCM_AIR_ADAPTER_PACKAGING_VERSION_V1,
};
use crate::dcm_air_v1::{
    dcm_air_accepts, dcm_air_public_inputs_bytes_spec, validate_dcm_air_v1, DcmAirErrorV1,
    DcmAirPublicInputsV1, DcmAirTraceV1, DCM_AIR_TRACE_WIDTH_V1, DCM_AIR_TRANSITION_CONSTRAINT_COUNT_V1,
};
use crate::digest_v1::{sha256_domain_separated, sha256_domain_separated_spec};
use crate::encoding_v1::{append_bytes, u64_le, u64_to_le_bytes};
use crate::field_521_v1::bytes_equal;
use vstd::prelude::*;

verus! {

pub const DCM_AIR_MOCK_PROOF_VERSION_V1: u8 = 1;

/// `"AURA_DCM_AIR_MOCK_PROOF_V1_PUBLIC_INPUTS"`.
pub const AURA_DCM_AIR_MOCK_PROOF_V1_PUBLIC_INPUT_DOMAIN_SEPARATOR: [u8; 40] = [0x41, 0x55, 0x52, 0x41, 0x5f, 0x44, 0x43, 0x4d, 0x5f, 0x41, 0x49, 0x52, 0x5f, 0x4d, 0x4f, 0x43, 0x4b, 0x5f, 0x50, 0x52, 0x4f, 0x4f, 0x46, 0x5f, 0x56, 0x31, 0x5f, 0x50, 0x55, 0x42, 0x4c, 0x49, 0x43, 0x5f, 0x49, 0x4e, 0x50, 0x55, 0x54, 0x53];

/// `"AURA_DCM_AIR_MOCK_PROOF_V1_CONSTRAINTS"`.
pub const AURA_DCM_AIR_MOCK_PROOF_V1_CONSTRAINT_DOMAIN_SEPARATOR: [u8; 38] = [0x41, 0x55, 0x52, 0x41, 0x5f, 0x44, 0x43, 0x4d, 0x5f, 0x41, 0x49, 0x52, 0x5f, 0x4d, 0x4f, 0x43, 0x4b, 0x5f, 0x50, 0x52, 0x4f, 0x4f, 0x46, 0x5f, 0x56, 0x31, 0x5f, 0x43, 0x4f, 0x4e, 0x53, 0x54, 0x52, 0x41, 0x49, 0x4e, 0x54, 0x53];

/// `"AURA_DCM_AIR_MOCK_PROOF_V1_PLACEHOLDER"`.
pub const AURA_DCM_AIR_MOCK_PROOF_V1_PLACEHOLDER_DOMAIN_SEPARATOR: [u8; 38] = [0x41, 0x55, 0x52, 0x41, 0x5f, 0x44, 0x43, 0x4d, 0x5f, 0x41, 0x49, 0x52, 0x5f, 0x4d, 0x4f, 0x43, 0x4b, 0x5f, 0x50, 0x52, 0x4f, 0x4f, 0x46, 0x5f, 0x56, 0x31, 0x5f, 0x50, 0x4c, 0x41, 0x43, 0x45, 0x48, 0x4f, 0x4c, 0x44, 0x45, 0x52];

/// The verifier-visible values of a session; no witness material.
#[derive(Clone, Copy, Debug, PartialEq, Eq)]
pub struct DcmAirMockVerifierBindingsV1 {
    pub packaging_version: u8,
    pub trace_width: u8,
    pub public_inputs: DcmAirPublicInputsV1,
    pub row_count: u64,
    pub checked_transition_count: u64,
    pub transition_constraint_count: u8,
    pub trace_digest: [u8; 32],
}

/// The bindings a verifier bundle carries, field by field.
pub open spec fn bindings_of(input: VerifierInputV1) -> DcmAirMockVerifierBindingsV1 {
    DcmAirMockVerifierBindingsV1 {
        packaging_version: input.spec_packaging_version(),
        trace_width: input.spec_trace_width(),
        public_inputs: input.spec_public_inputs(),
        row_count: input.spec_row_count(),
        checked_transition_count: input.spec_checked_transition_count(),
        transition_constraint_count: input.spec_transition_constraint_count(),
        trace_digest: input.spec_trace_digest(),
    }
}

impl<'a> From<&'a VerifierInputV1> for DcmAirMockVerifierBindingsV1 {
    fn from(value: &'a VerifierInputV1) -> (bindings: Self) {
        Self {
            packaging_version: value.packaging_version(),
            trace_width: value.trace_width(),
            public_inputs: *value.public_inputs(),
            row_count: value.row_count(),
            checked_transition_count: value.checked_transition_count(),
            transition_constraint_count: value.transition_constraint_count(),
            trace_digest: *value.trace_digest(),
        }
    }
}

impl<'a> vstd::std_specs::convert::FromSpecImpl<&'a VerifierInputV1> for DcmAirMockVerifierBindingsV1 {
    open spec fn obeys_from_spec() -> bool {
        true
    }

    open spec fn from_spec(value: &'a VerifierInputV1) -> Self {
        bindings_of(*value)
    }
}

/// The placeholder artifact: the digests it binds and a digest over them.
#[derive(Clone, Copy, Debug, PartialEq, Eq)]
pub struct DcmAirMockProofArtifactV1 {
    pub proof_version: u8,
    pub bound_public_input_digest: [u8; 32],
    pub bound_constraint_digest: [u8; 32],
    pub bound_session_id: [u8; 32],
    pub proof_placeholder_digest: [u8; 32],
}

/// What the mock prover returns.
#[derive(Clone, Copy, Debug, PartialEq, Eq)]
pub struct DcmAirMockProverOutputV1 {
    pub verifier_bindings: DcmAirMockVerifierBindingsV1,
    pub mock_proof_artifact: DcmAirMockProofArtifactV1,
}

/// Why the mock prover returns nothing.
#[derive(Clone, Copy, Debug, PartialEq, Eq)]
pub enum DcmAirMockProverErrorV1 {
    AirEvaluationFailed(DcmAirErrorV1),
    AdapterPackagingFailed(DcmAirAdapterErrorV1),
    SessionBindingMismatch { expected: [u8; 32], actual: [u8; 32] },
}

/// The constraint payload: the shape values and the trace digest.
pub open spec fn constraint_bytes_spec(bindings: DcmAirMockVerifierBindingsV1) -> Seq<u8> {
    seq![bindings.packaging_version, bindings.trace_width] + u64_le(bindings.row_count) + u64_le(
        bindings.checked_transition_count,
    ) + seq![bindings.transition_constraint_count] + bindings.trace_digest@
}

/// The session payload: the shape values, the public inputs, the shape values
/// again and the trace digest.
pub open spec fn session_binding_bytes_spec(bindings: DcmAirMockVerifierBindingsV1) -> Seq<u8> {
    seq![bindings.packaging_version, bindings.trace_width] + u64_le(bindings.row_count) + u64_le(
        bindings.checked_transition_count,
    ) + seq![bindings.transition_constraint_count] + dcm_air_public_inputs_bytes_spec(
        bindings.public_inputs,
    ) + seq![bindings.trace_width] + u64_le(bindings.row_count) + u64_le(
        bindings.checked_transition_count,
    ) + seq![bindings.transition_constraint_count] + bindings.trace_digest@
}

/// The placeholder payload: the version and the three bound digests.
pub open spec fn placeholder_bytes_spec(proof_version: u8, public_input_digest: Seq<u8>, constraint_digest: Seq<u8>, session_id: Seq<u8>) -> Seq<u8> {
    seq![proof_version] + public_input_digest + constraint_digest + session_id
}

pub open spec fn mock_public_input_digest_spec(inputs: DcmAirPublicInputsV1) -> Seq<u8> {
    sha256_domain_separated_spec(
        AURA_DCM_AIR_MOCK_PROOF_V1_PUBLIC_INPUT_DOMAIN_SEPARATOR@,
        dcm_air_public_inputs_bytes_spec(inputs),
    )
}

pub open spec fn mock_constraint_digest_spec(bindings: DcmAirMockVerifierBindingsV1) -> Seq<u8> {
    sha256_domain_separated_spec(
        AURA_DCM_AIR_MOCK_PROOF_V1_CONSTRAINT_DOMAIN_SEPARATOR@,
        constraint_bytes_spec(bindings),
    )
}

pub open spec fn mock_session_id_spec(bindings: DcmAirMockVerifierBindingsV1) -> Seq<u8> {
    sha256_domain_separated_spec(
        AURA_DCM_AIR_V1_SESSION_ID_DOMAIN_SEPARATOR@,
        session_binding_bytes_spec(bindings),
    )
}

pub open spec fn mock_placeholder_digest_spec(proof_version: u8, public_input_digest: Seq<u8>, constraint_digest: Seq<u8>, session_id: Seq<u8>) -> Seq<u8> {
    sha256_domain_separated_spec(
        AURA_DCM_AIR_MOCK_PROOF_V1_PLACEHOLDER_DOMAIN_SEPARATOR@,
        placeholder_bytes_spec(proof_version, public_input_digest, constraint_digest, session_id),
    )
}

/// The artifact the mock prover binds to the given bindings.
pub open spec fn mock_artifact_for(bindings: DcmAirMockVerifierBindingsV1, artifact: DcmAirMockProofArtifactV1) -> bool {
    &&& artifact.proof_version == DCM_AIR_MOCK_PROOF_VERSION_V1
    &&& artifact.bound_public_input_digest@ == mock_public_input_digest_spec(bindings.public_inputs)
    &&& artifact.bound_constraint_digest@ == mock_constraint_digest_spec(bindings)
    &&& artifact.bound_session_id@ == mock_session_id_spec(bindings)
    &&& artifact.proof_placeholder_digest@ == mock_placeholder_digest_spec(
        DCM_AIR_MOCK_PROOF_VERSION_V1,
        artifact.bound_public_input_digest@,
        artifact.bound_constraint_digest@,
        artifact.bound_session_id@,
    )
}

/// The constraint payload of the bindings.
pub fn canonical_constraint_bytes_v1(verifier_bindings: &DcmAirMockVerifierBindingsV1) -> (bytes: Vec<u8>)
    ensures
        bytes@ == constraint_bytes_spec(*verifier_bindings),
{
    let mut bytes: Vec<u8> = Vec::new();
    bytes.push(verifier_bindings.packaging_version);
    bytes.push(verifier_bindings.trace_width);
    let rows = u64_to_le_bytes(verifier_bindings.row_count);
    append_bytes(&mut bytes, &rows);
    let checked = u64_to_le_bytes(verifier_bindings.checked_transition_count);
    append_bytes(&mut bytes, &checked);
    bytes.push(verifier_bindings.transition_constraint_count);
    append_bytes(&mut bytes, &verifier_bindings.trace_digest);
    proof {
        assert(bytes@ =~= constraint_bytes_spec(*verifier_bindings));
    }
    bytes
}

/// The session payload of the bindings.
pub fn canonical_session_binding_bytes_v1(verifier_bindings: &DcmAirMockVerifierBindingsV1) -> (bytes: Vec<u8>)
    ensures
        bytes@ == session_binding_bytes_spec(*verifier_bindings),
{
    let mut bytes: Vec<u8> = Vec::new();
    bytes.push(verifier_bindings.packaging_version);
    bytes.push(verifier_bindings.trace_width);
    let rows = u64_to_le_bytes(verifier_bindings.row_count);
    append_bytes(&mut bytes, &rows);
    let checked = u64_to_le_bytes(verifier_bindings.checked_transition_count);
    append_bytes(&mut bytes, &checked);
    bytes.push(verifier_bindings.transition_constraint_count);
    let inputs = verifier_bindings.public_inputs.canonical_bytes();
    append_bytes(&mut bytes, inputs.as_slice());
    bytes.push(verifier_bindings.trace_width);
    append_bytes(&mut bytes, &rows);
    append_bytes(&mut bytes, &checked);
    bytes.push(verifier_bindings.transition_constraint_count);
    append_bytes(&mut bytes, &verifier_bindings.trace_digest);
    proof {
        assert(bytes@ =~= session_binding_bytes_spec(*verifier_bindings));
    }
    bytes
}

fn canonical_placeholder_bytes_v1(proof_version: u8, bound_public_input_digest: &[u8; 32], bound_constraint_digest: &[u8; 32], bound_session_id: &[u8; 32]) -> (bytes: Vec<u8>)
    ensures
        bytes@ == placeholder_bytes_spec(
            proof_version,
            bound_public_input_digest@,
            bound_constraint_digest@,
            bound_session_id@,
        ),
{
    let mut bytes: Vec<u8> = Vec::new();
    bytes.push(proof_version);
    append_bytes(&mut bytes, bound_public_input_digest);
    append_bytes(&mut bytes, bound_constraint_digest);
    append_bytes(&mut bytes, bound_session_id);
    proof {
        assert(bytes@ =~= placeholder_bytes_spec(
            proof_version,
            bound_public_input_digest@,
            bound_constraint_digest@,
            bound_session_id@,
        ));
    }
    bytes
}

/// The digest of the public inputs.
pub fn derive_dcm_air_mock_public_input_digest_v1(public_inputs: &DcmAirPublicInputsV1) -> (digest: [u8; 32])
    ensures
        digest@ == mock_public_input_digest_spec(*public_inputs),
{
    let domain = AURA_DCM_AIR_MOCK_PROOF_V1_PUBLIC_INPUT_DOMAIN_SEPARATOR;
    let bytes = public_inputs.canonical_bytes();
    sha256_domain_separated(&domain, bytes.as_slice())
}

/// The digest of the constraint payload.
pub fn derive_dcm_air_mock_constraint_digest_v1(verifier_bindings: &DcmAirMockVerifierBindingsV1) -> (digest: [u8; 32])
    ensures
        digest@ == mock_constraint_digest_spec(*verifier_bindings),
{
    let domain = AURA_DCM_AIR_MOCK_PROOF_V1_CONSTRAINT_DOMAIN_SEPARATOR;
    let bytes = canonical_constraint_bytes_v1(verifier_bindings);
    sha256_domain_separated(&domain, bytes.as_slice())
}

/// The session id the bindings determine.
pub fn derive_dcm_air_mock_session_id_v1(verifier_bindings: &DcmAirMockVerifierBindingsV1) -> (digest: [u8; 32])
    ensures
        digest@ == mock_session_id_spec(*verifier_bindings),
{
    let domain = AURA_DCM_AIR_V1_SESSION_ID_DOMAIN_SEPARATOR;
    let bytes = canonical_session_binding_bytes_v1(verifier_bindings);
    sha256_domain_separated(&domain, bytes.as_slice())
}

/// The digest over the version and the three bound digests.
pub fn derive_dcm_air_mock_placeholder_digest_v1(proof_version: u8, bound_public_input_digest: &[u8; 32], bound_constraint_digest: &[u8; 32], bound_session_id: &[u8; 32]) -> (digest: [u8; 32])
    ensures
        digest@ == mock_placeholder_digest_spec(
            proof_version,
            bound_public_input_digest@,
            bound_constraint_digest@,
            bound_session_id@,
        ),
{
    let domain = AURA_DCM_AIR_MOCK_PROOF_V1_PLACEHOLDER_DOMAIN_SEPARATOR;
    let bytes = canonical_placeholder_bytes_v1(
        proof_version,
        bound_public_input_digest,
        bound_constraint_digest,
        bound_session_id,
    );
    sha256_domain_separated(&domain, bytes.as_slice())
}

/// The bindings of a packaged, accepted trace.
pub open spec fn mock_bindings_of_trace(bindings: DcmAirMockVerifierBindingsV1, public_inputs: DcmAirPublicInputsV1, trace: Seq<crate::dcm_v1::DcmState521V1>) -> bool {
    &&& bindings.packaging_version == DCM_AIR_ADAPTER_PACKAGING_VERSION_V1
    &&& bindings.trace_width == DCM_AIR_TRACE_WIDTH_V1
    &&& bindings.public_inputs == public_inputs
    &&& bindings.row_count == trace.len()
    &&& bindings.checked_transition_count == public_inputs.iteration_count
    &&& bindings.transition_constraint_count == DCM_AIR_TRANSITION_CONSTRAINT_COUNT_V1
    &&& bindings.trace_digest@ == trace_digest_spec(trace)
}

/// Binds the verifier bundle of a session; the session id must be the one
/// its bindings determine.
fn build_mock_prover_output_from_session_v1(session: &DcmAirProofSessionV1) -> (result: Result<DcmAirMockProverOutputV1, DcmAirMockProverErrorV1>)
    ensures
        mock_session_id_spec(bindings_of(session.spec_verifier_input()))
            == session.spec_session_id().id_bytes()@ ==> (result matches Ok(output)
            && output.verifier_bindings == bindings_of(session.spec_verifier_input())
            && mock_artifact_for(output.verifier_bindings, output.mock_proof_artifact)),
        mock_session_id_spec(bindings_of(session.spec_verifier_input()))
            != session.spec_session_id().id_bytes()@ ==> (result matches Err(
            DcmAirMockProverErrorV1::SessionBindingMismatch { expected, actual },
        ) && expected@ == mock_session_id_spec(bindings_of(session.spec_verifier_input()))
            && actual == session.spec_session_id().id_bytes()),
{
    let verifier_bindings = DcmAirMockVerifierBindingsV1::from(session.verifier_input());
    let bound_public_input_digest = derive_dcm_air_mock_public_input_digest_v1(
        &verifier_bindings.public_inputs,
    );
    let bound_constraint_digest = derive_dcm_air_mock_constraint_digest_v1(&verifier_bindings);
    let expected_session_id = derive_dcm_air_mock_session_id_v1(&verifier_bindings);
    let actual_session_id = *session.session_id().as_bytes();
    if !bytes_equal(&expected_session_id, &actual_session_id) {
        return Err(
            DcmAirMockProverErrorV1::SessionBindingMismatch {
                expected: expected_session_id,
                actual: actual_session_id,
            },
        );
    }
    let proof_placeholder_digest = derive_dcm_air_mock_placeholder_digest_v1(
        DCM_AIR_MOCK_PROOF_VERSION_V1,
        &bound_public_input_digest,
        &bound_constraint_digest,
        &actual_session_id,
    );
    let mock_proof_artifact = DcmAirMockProofArtifactV1 {
        proof_version: DCM_AIR_MOCK_PROOF_VERSION_V1,
        bound_public_input_digest,
        bound_constraint_digest,
        bound_session_id: actual_session_id,
        proof_placeholder_digest,
    };
    Ok(DcmAirMockProverOutputV1 { verifier_bindings, mock_proof_artifact })
}

/// Evaluates the AIR, packages the session and binds it with the placeholder
/// artifact.
pub fn prove_dcm_air_with_mock_proof_v1(public_inputs: &DcmAirPublicInputsV1, trace: &DcmAirTraceV1) -> (result: Result<DcmAirMockProverOutputV1, DcmAirMockProverErrorV1>)
    ensures
        dcm_air_accepts(*public_inputs, trace@) <==> result is Ok,
        !dcm_air_accepts(*public_inputs, trace@) ==> (result matches Err(
            DcmAirMockProverErrorV1::AirEvaluationFailed(_),
        )),
        result matches Ok(output) ==> mock_bindings_of_trace(
            output.verifier_bindings,
            *public_inputs,
            trace@,
        ) && mock_artifact_for(output.verifier_bindings, output.mock_proof_artifact),
{
    match validate_dcm_air_v1(public_inputs, trace) {
        Ok(_) => {},
        Err(error) => {
            return Err(DcmAirMockProverErrorV1::AirEvaluationFailed(error));
        },
    }
    let session = match package_dcm_air_proof_session_v1(public_inputs, trace) {
        Ok(session) => session,
        Err(error) => {
            return Err(DcmAirMockProverErrorV1::AdapterPackagingFailed(error));
        },
    };
    proof {
        let vi = session.spec_verifier_input();
        let md = session.spec_session_metadata();
        assert(crate::dcm_air_adapter_v1::session_id_payload_spec(vi, md)
            =~= session_binding_bytes_spec(bindings_of(vi)));
    }
    build_mock_prover_output_from_session_v1(&session)
}


/// Each mock digest is SHA-256 of its own ASCII separator, then what it
/// covers: the public-input encoding, the constraint bytes, the session
/// binding bytes, or the placeholder bytes.
pub proof fn lemma_mock_digest_preimages(inputs: DcmAirPublicInputsV1, bindings: DcmAirMockVerifierBindingsV1, proof_version: u8, public_input_digest: Seq<u8>, constraint_digest: Seq<u8>, session_id: Seq<u8>)
    ensures
        mock_public_input_digest_spec(inputs) == crate::digest_v1::sha256_spec(seq![0x41u8, 0x55, 0x52, 0x41, 0x5f, 0x44, 0x43, 0x4d, 0x5f, 0x41, 0x49, 0x52, 0x5f, 0x4d, 0x4f, 0x43, 0x4b, 0x5f, 0x50, 0x52, 0x4f, 0x4f, 0x46, 0x5f, 0x56, 0x31, 0x5f, 0x50, 0x55, 0x42, 0x4c, 0x49, 0x43, 0x5f, 0x49, 0x4e, 0x50, 0x55, 0x54, 0x53] + (dcm_air_public_inputs_bytes_spec(inputs))),
        mock_constraint_digest_spec(bindings) == crate::digest_v1::sha256_spec(seq![0x41u8, 0x55, 0x52, 0x41, 0x5f, 0x44, 0x43, 0x4d, 0x5f, 0x41, 0x49, 0x52, 0x5f, 0x4d, 0x4f, 0x43, 0x4b, 0x5f, 0x50, 0x52, 0x4f, 0x4f, 0x46, 0x5f, 0x56, 0x31, 0x5f, 0x43, 0x4f, 0x4e, 0x53, 0x54, 0x52, 0x41, 0x49, 0x4e, 0x54, 0x53] + (constraint_bytes_spec(bindings))),
        mock_session_id_spec(bindings) == crate::digest_v1::sha256_spec(seq![0x41u8, 0x55, 0x52, 0x41, 0x5f, 0x44, 0x43, 0x4d, 0x5f, 0x41, 0x49, 0x52, 0x5f, 0x56, 0x31, 0x5f, 0x53, 0x45, 0x53, 0x53, 0x49, 0x4f, 0x4e, 0x5f, 0x49, 0x44] + (session_binding_bytes_spec(bindings))),
        mock_placeholder_digest_spec(proof_version, public_input_digest, constraint_digest, session_id) == crate::digest_v1::sha256_spec(seq![0x41u8, 0x55, 0x52, 0x41, 0x5f, 0x44, 0x43, 0x4d, 0x5f, 0x41, 0x49, 0x52, 0x5f, 0x4d, 0x4f, 0x43, 0x4b, 0x5f, 0x50, 0x52, 0x4f, 0x4f, 0x46, 0x5f, 0x56, 0x31, 0x5f, 0x50, 0x4c, 0x41, 0x43, 0x45, 0x48, 0x4f, 0x4c, 0x44, 0x45, 0x52] + (placeholder_bytes_spec(proof_version, public_input_digest, constraint_digest, session_id))),
{
    assert(AURA_DCM_AIR_MOCK_PROOF_V1_CONSTRAINT_DOMAIN_SEPARATOR@ =~= seq![0x41u8, 0x55, 0x52, 0x41, 0x5f, 0x44, 0x43, 0x4d, 0x5f, 0x41, 0x49, 0x52, 0x5f, 0x4d, 0x4f, 0x43, 0x4b, 0x5f, 0x50, 0x52, 0x4f, 0x4f, 0x46, 0x5f, 0x56, 0x31, 0x5f, 0x43, 0x4f, 0x4e, 0x53, 0x54, 0x52, 0x41, 0x49, 0x4e, 0x54, 0x53]);
    assert(AURA_DCM_AIR_MOCK_PROOF_V1_PLACEHOLDER_DOMAIN_SEPARATOR@ =~= seq![0x41u8, 0x55, 0x52, 0x41, 0x5f, 0x44, 0x43, 0x4d, 0x5f, 0x41, 0x49, 0x52, 0x5f, 0x4d, 0x4f, 0x43, 0x4b, 0x5f, 0x50, 0x52, 0x4f, 0x4f, 0x46, 0x5f, 0x56, 0x31, 0x5f, 0x50, 0x4c, 0x41, 0x43, 0x45, 0x48, 0x4f, 0x4c, 0x44, 0x45, 0x52]);
    assert(AURA_DCM_AIR_MOCK_PROOF_V1_PUBLIC_INPUT_DOMAIN_SEPARATOR@ =~= seq![0x41u8, 0x55, 0x52, 0x41, 0x5f, 0x44, 0x43, 0x4d, 0x5f, 0x41, 0x49, 0x52, 0x5f, 0x4d, 0x4f, 0x43, 0x4b, 0x5f, 0x50, 0x52, 0x4f, 0x4f, 0x46, 0x5f, 0x56, 0x31, 0x5f, 0x50, 0x55, 0x42, 0x4c, 0x49, 0x43, 0x5f, 0x49, 0x4e, 0x50, 0x55, 0x54, 0x53]);
    assert(AURA_DCM_AIR_V1_SESSION_ID_DOMAIN_SEPARATOR@ =~= seq![0x41u8, 0x55, 0x52, 0x41, 0x5f, 0x44, 0x43, 0x4d, 0x5f, 0x41, 0x49, 0x52, 0x5f, 0x56, 0x31, 0x5f, 0x53, 0x45, 0x53, 0x53, 0x49, 0x4f, 0x4e, 0x5f, 0x49, 0x44]);
}

} // verus!
