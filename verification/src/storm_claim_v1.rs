//! The Storm claim: the execution inputs, the boundary states and the trace
//! root, with its 799-byte canonical encoding, its validation by re-execution,
//! and the compact public inputs derived from it.

use crate::digest_v1::{sha3_256_bytes, sha3_256_spec};
use crate::encoding_v1::{append_bytes, copy_range_into, u64_from_le_bytes, u64_le, u64_to_le_bytes};
use crate::field_521_v1::{bytes_equal, lemma_fe_encoding};
use crate::storm_context_v1::{
    storm_context_bytes_valid, storm_context_error_spec, validate_context_bytes_v1,
    StormContextErrorV1,
};
use crate::storm_execution_v1::{
    execute_storm_v1, lemma_trace_root_of_matching_trace, state_values, storm_expected_trace_root,
    storm_inputs_valid, storm_state_at, StormExecutionInputsV1,
};
use crate::storm_state_v1::{
    decode_row_bytes, state_canonical, storm_row_decode_error, storm_row_spec, StormState521V1,
    StormStateEncodingErrorV1,
};
use crate::storm_trace_commitment_v1::compute_storm_trace_root;
use vstd::prelude::*;

verus! {

pub const STORM_CLAIM_521_V1_VERSION: u8 = 0x01;

pub const STORM_MODULUS_ID_521_V1: u8 = 0x01;

pub const STORM_CLAIM_521_CANONICAL_BYTE_LEN_V1: usize = 799;

pub const STORM_PUBLIC_INPUTS_521_CANONICAL_BYTE_LEN_V1: usize = 402;

/// `"AURA_STORM_SIDE_A_HASH_V1"`.
pub const AURA_STORM_SIDE_A_HASH_V1_DOMAIN_SEPARATOR: [u8; 25] = [0x41, 0x55, 0x52, 0x41, 0x5f, 0x53, 0x54, 0x4f, 0x52, 0x4d, 0x5f, 0x53, 0x49, 0x44, 0x45, 0x5f, 0x41, 0x5f, 0x48, 0x41, 0x53, 0x48, 0x5f, 0x56, 0x31];

/// `"AURA_STORM_SIDE_B_HASH_V1"`.
pub const AURA_STORM_SIDE_B_HASH_V1_DOMAIN_SEPARATOR: [u8; 25] = [0x41, 0x55, 0x52, 0x41, 0x5f, 0x53, 0x54, 0x4f, 0x52, 0x4d, 0x5f, 0x53, 0x49, 0x44, 0x45, 0x5f, 0x42, 0x5f, 0x48, 0x41, 0x53, 0x48, 0x5f, 0x56, 0x31];

/// `"AURA_STORM_CONTEXT_HASH_V1"`.
pub const AURA_STORM_CONTEXT_HASH_V1_DOMAIN_SEPARATOR: [u8; 26] = [0x41, 0x55, 0x52, 0x41, 0x5f, 0x53, 0x54, 0x4f, 0x52, 0x4d, 0x5f, 0x43, 0x4f, 0x4e, 0x54, 0x45, 0x58, 0x54, 0x5f, 0x48, 0x41, 0x53, 0x48, 0x5f, 0x56, 0x31];

/// A claim that a Storm execution from the given inputs starts and ends in
/// the given states and has the given trace root.
#[derive(Clone, Copy, Debug, PartialEq, Eq)]
pub struct StormClaim521V1 {
    pub version: u8,
    pub modulus_id: u8,
    pub iteration_count: u64,
    pub side_a: [u8; 110],
    pub side_b: [u8; 110],
    pub context_bytes_v1: [u8; 209],
    pub initial_state: StormState521V1,
    pub final_state: StormState521V1,
    pub trace_root: [u8; 32],
    pub legacy_commitment_root: [u8; 32],
    pub legacy_trace_commitment: [u8; 32],
}

/// The public inputs of a claim: the sides and the context replaced by their
/// domain-separated SHA3-256 digests.
#[derive(Clone, Copy, Debug, PartialEq, Eq)]
pub struct StormPublicInputs521V1 {
    pub version: u8,
    pub modulus_id: u8,
    pub iteration_count: u64,
    pub side_a_hash: [u8; 32],
    pub side_b_hash: [u8; 32],
    pub context_hash: [u8; 32],
    pub initial_state: StormState521V1,
    pub final_state: StormState521V1,
    pub trace_root: [u8; 32],
}

/// Why a claim does not validate.
#[allow(inconsistent_fields)]
#[derive(Clone, Copy, Debug, PartialEq, Eq)]
pub enum StormClaimErrorV1 {
    InvalidVersion { expected: u8, actual: u8 },
    InvalidModulusId { expected: u8, actual: u8 },
    InvalidContext(StormContextErrorV1),
    InitialStateMismatch { expected: StormState521V1, actual: StormState521V1 },
    FinalStateMismatch { expected: StormState521V1, actual: StormState521V1 },
    TraceRootMismatch { expected: [u8; 32], actual: [u8; 32] },
}

/// Why bytes are not a canonical claim encoding.
#[derive(Clone, Copy, Debug, PartialEq, Eq, Structural)]
pub enum StormClaimEncodingErrorV1 {
    InvalidLength { expected: usize, actual: usize },
    InvalidInitialState(StormStateEncodingErrorV1),
    InvalidFinalState(StormStateEncodingErrorV1),
}

/// The execution inputs a claim names.
pub open spec fn claim_inputs(claim: StormClaim521V1) -> StormExecutionInputsV1 {
    StormExecutionInputsV1 {
        side_a: claim.side_a,
        side_b: claim.side_b,
        context_bytes_v1: claim.context_bytes_v1,
        iteration_count: claim.iteration_count,
    }
}

/// The checks `validate` makes before it re-executes a claim: the version,
/// the modulus and the context.
pub open spec fn storm_claim_header_valid(claim: StormClaim521V1) -> bool {
    &&& claim.version == STORM_CLAIM_521_V1_VERSION
    &&& claim.modulus_id == STORM_MODULUS_ID_521_V1
    &&& storm_context_bytes_valid(claim.context_bytes_v1@)
}

/// The error `validate` reports for a claim: the first check, in the order
/// version, modulus, context, initial state, final state and trace root, that
/// the claim fails.
pub open spec fn storm_claim_error_of(claim: StormClaim521V1, error: StormClaimErrorV1) -> bool {
    let inputs = claim_inputs(claim);
    if claim.version != STORM_CLAIM_521_V1_VERSION {
        error == StormClaimErrorV1::InvalidVersion {
            expected: STORM_CLAIM_521_V1_VERSION,
            actual: claim.version,
        }
    } else if claim.modulus_id != STORM_MODULUS_ID_521_V1 {
        error == StormClaimErrorV1::InvalidModulusId {
            expected: STORM_MODULUS_ID_521_V1,
            actual: claim.modulus_id,
        }
    } else if !storm_context_bytes_valid(claim.context_bytes_v1@) {
        error matches StormClaimErrorV1::InvalidContext(context_error) && storm_context_error_spec(
            context_error,
            claim.context_bytes_v1@,
        )
    } else if state_values(claim.initial_state) != storm_state_at(inputs, 0) {
        error matches StormClaimErrorV1::InitialStateMismatch { expected, actual } && state_values(
            expected,
        ) == storm_state_at(inputs, 0) && actual == claim.initial_state
    } else if state_values(claim.final_state) != storm_state_at(
        inputs,
        claim.iteration_count as nat,
    ) {
        error matches StormClaimErrorV1::FinalStateMismatch { expected, actual } && state_values(
            expected,
        ) == storm_state_at(inputs, claim.iteration_count as nat) && actual == claim.final_state
    } else if claim.trace_root@ != storm_expected_trace_root(inputs) {
        error matches StormClaimErrorV1::TraceRootMismatch { expected, actual } && expected@
            == storm_expected_trace_root(inputs) && actual == claim.trace_root
    } else {
        false
    }
}

/// A valid claim: version and modulus one, a canonical context, and boundary
/// states and trace root equal to those of the execution it names.
pub open spec fn storm_claim_valid(claim: StormClaim521V1) -> bool {
    &&& claim.version == STORM_CLAIM_521_V1_VERSION
    &&& claim.modulus_id == STORM_MODULUS_ID_521_V1
    &&& storm_context_bytes_valid(claim.context_bytes_v1@)
    &&& state_values(claim.initial_state) == storm_state_at(claim_inputs(claim), 0)
    &&& state_values(claim.final_state) == storm_state_at(
        claim_inputs(claim),
        claim.iteration_count as nat,
    )
    &&& claim.trace_root@ == storm_expected_trace_root(claim_inputs(claim))
}

/// The canonical encoding of a claim, field by field.
pub open spec fn storm_claim_bytes_spec(claim: StormClaim521V1) -> Seq<u8> {
    seq![claim.version, claim.modulus_id] + u64_le(claim.iteration_count) + claim.side_a@
        + claim.side_b@ + claim.context_bytes_v1@ + storm_row_spec(claim.initial_state)
        + storm_row_spec(claim.final_state) + claim.trace_root@ + claim.legacy_commitment_root@
        + claim.legacy_trace_commitment@
}

/// The canonical encoding of public inputs, field by field.
pub open spec fn storm_public_inputs_bytes_spec(inputs: StormPublicInputs521V1) -> Seq<u8> {
    seq![inputs.version, inputs.modulus_id] + u64_le(inputs.iteration_count)
        + inputs.side_a_hash@ + inputs.side_b_hash@ + inputs.context_hash@ + storm_row_spec(
        inputs.initial_state,
    ) + storm_row_spec(inputs.final_state) + inputs.trace_root@
}

/// The error decoding reports for `bytes`, if any.
pub open spec fn storm_claim_decode_error(bytes: Seq<u8>) -> Option<StormClaimEncodingErrorV1> {
    if bytes.len() != 799 {
        Some(StormClaimEncodingErrorV1::InvalidLength { expected: 799, actual: bytes.len() as usize })
    } else if storm_row_decode_error(bytes.subrange(439, 571)) is Some {
        Some(
            StormClaimEncodingErrorV1::InvalidInitialState(
                storm_row_decode_error(bytes.subrange(439, 571))->0,
            ),
        )
    } else if storm_row_decode_error(bytes.subrange(571, 703)) is Some {
        Some(
            StormClaimEncodingErrorV1::InvalidFinalState(
                storm_row_decode_error(bytes.subrange(571, 703))->0,
            ),
        )
    } else {
        None
    }
}

/// Domain-separated SHA3-256.
pub open spec fn sha3_256_domain_separated_spec(domain: Seq<u8>, payload: Seq<u8>) -> Seq<u8> {
    sha3_256_spec(domain + payload)
}

impl StormClaim521V1 {
    /// The number of states in the trace: one more than the iteration count.
    pub fn trace_state_count(&self) -> (count: u64)
        requires
            self.iteration_count < u64::MAX,
        ensures
            count == self.iteration_count + 1,
    {
        self.iteration_count + 1
    }

    /// Re-executes the claimed inputs and checks every claimed surface.
    pub fn validate(&self) -> (result: Result<(), StormClaimErrorV1>)
        requires
            storm_claim_header_valid(*self) ==> (self.iteration_count as int) < usize::MAX,
        ensures
            storm_claim_valid(*self) <==> result is Ok,
            result matches Err(error) ==> storm_claim_error_of(*self, error),
            self.version != STORM_CLAIM_521_V1_VERSION ==> result == Err::<(), StormClaimErrorV1>(
                StormClaimErrorV1::InvalidVersion {
                    expected: STORM_CLAIM_521_V1_VERSION,
                    actual: self.version,
                },
            ),
            self.version == STORM_CLAIM_521_V1_VERSION && self.modulus_id != STORM_MODULUS_ID_521_V1
                ==> result == Err::<(), StormClaimErrorV1>(
                StormClaimErrorV1::InvalidModulusId {
                    expected: STORM_MODULUS_ID_521_V1,
                    actual: self.modulus_id,
                },
            ),
            self.version == STORM_CLAIM_521_V1_VERSION && self.modulus_id == STORM_MODULUS_ID_521_V1
                && !storm_context_bytes_valid(self.context_bytes_v1@) ==> (result matches Err(
                StormClaimErrorV1::InvalidContext(error),
            ) && storm_context_error_spec(error, self.context_bytes_v1@)),
            self.version == STORM_CLAIM_521_V1_VERSION && self.modulus_id == STORM_MODULUS_ID_521_V1
                && storm_context_bytes_valid(self.context_bytes_v1@) && state_values(
                self.initial_state,
            ) != storm_state_at(claim_inputs(*self), 0) ==> (result matches Err(
                StormClaimErrorV1::InitialStateMismatch { expected, actual },
            ) && state_values(expected) == storm_state_at(claim_inputs(*self), 0) && actual
                == self.initial_state),
            self.version == STORM_CLAIM_521_V1_VERSION && self.modulus_id == STORM_MODULUS_ID_521_V1
                && storm_context_bytes_valid(self.context_bytes_v1@) && state_values(
                self.initial_state,
            ) == storm_state_at(claim_inputs(*self), 0) && state_values(self.final_state)
                != storm_state_at(claim_inputs(*self), self.iteration_count as nat) ==> (result matches Err(
                StormClaimErrorV1::FinalStateMismatch { expected, actual },
            ) && state_values(expected) == storm_state_at(
                claim_inputs(*self),
                self.iteration_count as nat,
            ) && actual == self.final_state),
            self.version == STORM_CLAIM_521_V1_VERSION && self.modulus_id == STORM_MODULUS_ID_521_V1
                && storm_context_bytes_valid(self.context_bytes_v1@) && state_values(
                self.initial_state,
            ) == storm_state_at(claim_inputs(*self), 0) && state_values(self.final_state)
                == storm_state_at(claim_inputs(*self), self.iteration_count as nat)
                && self.trace_root@ != storm_expected_trace_root(claim_inputs(*self)) ==> (result matches Err(
                StormClaimErrorV1::TraceRootMismatch { expected, actual },
            ) && expected@ == storm_expected_trace_root(claim_inputs(*self)) && actual
                == self.trace_root),
    {
        if self.version != STORM_CLAIM_521_V1_VERSION {
            return Err(
                StormClaimErrorV1::InvalidVersion {
                    expected: STORM_CLAIM_521_V1_VERSION,
                    actual: self.version,
                },
            );
        }
        if self.modulus_id != STORM_MODULUS_ID_521_V1 {
            return Err(
                StormClaimErrorV1::InvalidModulusId {
                    expected: STORM_MODULUS_ID_521_V1,
                    actual: self.modulus_id,
                },
            );
        }
        match validate_context_bytes_v1(&self.context_bytes_v1) {
            Ok(_) => {},
            Err(error) => {
                return Err(StormClaimErrorV1::InvalidContext(error));
            },
        }
        let inputs = StormExecutionInputsV1 {
            side_a: self.side_a,
            side_b: self.side_b,
            context_bytes_v1: self.context_bytes_v1,
            iteration_count: self.iteration_count,
        };
        proof {
            assert(inputs == claim_inputs(*self));
        }
        let execution = execute_storm_v1(&inputs);
        proof {
            assert(state_values(execution.trace@[0]) == storm_state_at(inputs, 0));
            assert(state_values(execution.trace@[self.iteration_count as int]) == storm_state_at(
                inputs,
                self.iteration_count as nat,
            ));
            use_type_invariant(&self.initial_state.x);
            use_type_invariant(&self.initial_state.y);
            use_type_invariant(&self.final_state.x);
            use_type_invariant(&self.final_state.y);
            use_type_invariant(&execution.initial_state.x);
            use_type_invariant(&execution.initial_state.y);
            use_type_invariant(&execution.final_state.x);
            use_type_invariant(&execution.final_state.y);
            lemma_fe_encoding(self.initial_state.x);
            lemma_fe_encoding(self.initial_state.y);
            lemma_fe_encoding(self.final_state.x);
            lemma_fe_encoding(self.final_state.y);
            lemma_fe_encoding(execution.initial_state.x);
            lemma_fe_encoding(execution.initial_state.y);
            lemma_fe_encoding(execution.final_state.x);
            lemma_fe_encoding(execution.final_state.y);
        }
        if !self.initial_state.same_as(&execution.initial_state) {
            return Err(
                StormClaimErrorV1::InitialStateMismatch {
                    expected: execution.initial_state,
                    actual: self.initial_state,
                },
            );
        }
        if !self.final_state.same_as(&execution.final_state) {
            return Err(
                StormClaimErrorV1::FinalStateMismatch {
                    expected: execution.final_state,
                    actual: self.final_state,
                },
            );
        }
        let expected_trace_root = compute_storm_trace_root(execution.trace.as_slice());
        proof {
            lemma_trace_root_of_matching_trace(inputs, execution.trace@);
        }
        if !bytes_equal(&self.trace_root, &expected_trace_root) {
            return Err(
                StormClaimErrorV1::TraceRootMismatch {
                    expected: expected_trace_root,
                    actual: self.trace_root,
                },
            );
        }
        Ok(())
    }

    /// The 799-byte canonical encoding.
    pub fn canonical_bytes(&self) -> (bytes: Vec<u8>)
        ensures
            bytes@ == storm_claim_bytes_spec(*self),
    {
        let mut bytes: Vec<u8> = Vec::new();
        bytes.push(self.version);
        bytes.push(self.modulus_id);
        let count = u64_to_le_bytes(self.iteration_count);
        append_bytes(&mut bytes, &count);
        append_bytes(&mut bytes, &self.side_a);
        append_bytes(&mut bytes, &self.side_b);
        append_bytes(&mut bytes, &self.context_bytes_v1);
        let initial = self.initial_state.encode_row_bytes();
        append_bytes(&mut bytes, &initial);
        let final_row = self.final_state.encode_row_bytes();
        append_bytes(&mut bytes, &final_row);
        append_bytes(&mut bytes, &self.trace_root);
        append_bytes(&mut bytes, &self.legacy_commitment_root);
        append_bytes(&mut bytes, &self.legacy_trace_commitment);
        proof {
            assert(bytes@ =~= storm_claim_bytes_spec(*self));
        }
        bytes
    }
}

impl StormPublicInputs521V1 {
    /// The 402-byte canonical encoding.
    pub fn canonical_bytes(&self) -> (bytes: Vec<u8>)
        ensures
            bytes@ == storm_public_inputs_bytes_spec(*self),
    {
        let mut bytes: Vec<u8> = Vec::new();
        bytes.push(self.version);
        bytes.push(self.modulus_id);
        let count = u64_to_le_bytes(self.iteration_count);
        append_bytes(&mut bytes, &count);
        append_bytes(&mut bytes, &self.side_a_hash);
        append_bytes(&mut bytes, &self.side_b_hash);
        append_bytes(&mut bytes, &self.context_hash);
        let initial = self.initial_state.encode_row_bytes();
        append_bytes(&mut bytes, &initial);
        let final_row = self.final_state.encode_row_bytes();
        append_bytes(&mut bytes, &final_row);
        append_bytes(&mut bytes, &self.trace_root);
        proof {
            assert(bytes@ =~= storm_public_inputs_bytes_spec(*self));
        }
        bytes
    }
}

/// A copy of `bytes[start..start + 132]`.
fn row_slice(bytes: &[u8], start: usize) -> (row: [u8; 132])
    requires
        start + 132 <= bytes@.len(),
    ensures
        row@ == bytes@.subrange(start as int, start + 132),
{
    let mut row = [0u8; 132];
    copy_range_into(&mut row, bytes, start);
    row
}

/// Decodes the canonical encoding of a claim.
pub fn decode_storm_claim_canonical_bytes_v1(bytes: &[u8]) -> (result: Result<StormClaim521V1, StormClaimEncodingErrorV1>)
    ensures
        storm_claim_decode_error(bytes@) is Some ==> result == Err::<
            StormClaim521V1,
            StormClaimEncodingErrorV1,
        >(storm_claim_decode_error(bytes@)->0),
        storm_claim_decode_error(bytes@) is None ==> (result matches Ok(claim)
            && storm_claim_bytes_spec(claim) == bytes@),
        result matches Ok(claim) ==> claim_canonical(claim),
{
    if bytes.len() != 799 {
        return Err(StormClaimEncodingErrorV1::InvalidLength { expected: 799, actual: bytes.len() });
    }
    let version = bytes[0];
    let modulus_id = bytes[1];
    let mut count_bytes = [0u8; 8];
    copy_range_into(&mut count_bytes, bytes, 2);
    let iteration_count = u64_from_le_bytes(&count_bytes);
    let mut side_a = [0u8; 110];
    copy_range_into(&mut side_a, bytes, 10);
    let mut side_b = [0u8; 110];
    copy_range_into(&mut side_b, bytes, 120);
    let mut context_bytes_v1 = [0u8; 209];
    copy_range_into(&mut context_bytes_v1, bytes, 230);
    let initial_row = row_slice(bytes, 439);
    let initial_state = match decode_row_bytes(&initial_row) {
        Ok(state) => state,
        Err(error) => {
            return Err(StormClaimEncodingErrorV1::InvalidInitialState(error));
        },
    };
    let final_row = row_slice(bytes, 571);
    let final_state = match decode_row_bytes(&final_row) {
        Ok(state) => state,
        Err(error) => {
            return Err(StormClaimEncodingErrorV1::InvalidFinalState(error));
        },
    };
    let mut trace_root = [0u8; 32];
    copy_range_into(&mut trace_root, bytes, 703);
    let mut legacy_commitment_root = [0u8; 32];
    copy_range_into(&mut legacy_commitment_root, bytes, 735);
    let mut legacy_trace_commitment = [0u8; 32];
    copy_range_into(&mut legacy_trace_commitment, bytes, 767);
    let claim = StormClaim521V1 {
        version,
        modulus_id,
        iteration_count,
        side_a,
        side_b,
        context_bytes_v1,
        initial_state,
        final_state,
        trace_root,
        legacy_commitment_root,
        legacy_trace_commitment,
    };
    proof {
        assert(storm_claim_bytes_spec(claim) =~= bytes@);
        use_type_invariant(&claim.initial_state.x);
        use_type_invariant(&claim.initial_state.y);
        use_type_invariant(&claim.final_state.x);
        use_type_invariant(&claim.final_state.y);
    }
    Ok(claim)
}

/// Runs the execution and builds the claim it supports.
pub fn build_storm_claim_v1(inputs: &StormExecutionInputsV1, legacy_commitment_root: [u8; 32], legacy_trace_commitment: [u8; 32]) -> (claim: StormClaim521V1)
    requires
        storm_inputs_valid(*inputs),
    ensures
        claim_inputs(claim) == *inputs,
        claim.version == STORM_CLAIM_521_V1_VERSION,
        claim.modulus_id == STORM_MODULUS_ID_521_V1,
        claim.legacy_commitment_root == legacy_commitment_root,
        claim.legacy_trace_commitment == legacy_trace_commitment,
        storm_claim_valid(claim),
{
    let execution = execute_storm_v1(inputs);
    let trace_root = compute_storm_trace_root(execution.trace.as_slice());
    proof {
        lemma_trace_root_of_matching_trace(*inputs, execution.trace@);
    }
    StormClaim521V1 {
        version: STORM_CLAIM_521_V1_VERSION,
        modulus_id: STORM_MODULUS_ID_521_V1,
        iteration_count: inputs.iteration_count,
        side_a: inputs.side_a,
        side_b: inputs.side_b,
        context_bytes_v1: inputs.context_bytes_v1,
        initial_state: execution.initial_state,
        final_state: execution.final_state,
        trace_root,
        legacy_commitment_root,
        legacy_trace_commitment,
    }
}

/// `SHA3-256(domain || payload)`.
fn sha3_256_domain_separated(domain_separator: &[u8], payload: &[u8]) -> (hash: [u8; 32])
    ensures
        hash@ == sha3_256_domain_separated_spec(domain_separator@, payload@),
{
    let mut message: Vec<u8> = Vec::new();
    append_bytes(&mut message, domain_separator);
    append_bytes(&mut message, payload);
    sha3_256_bytes(message.as_slice())
}

/// The public inputs of a claim.
pub fn build_storm_public_inputs_v1(claim: &StormClaim521V1) -> (public_inputs: StormPublicInputs521V1)
    ensures
        public_inputs.version == claim.version,
        public_inputs.modulus_id == claim.modulus_id,
        public_inputs.iteration_count == claim.iteration_count,
        public_inputs.side_a_hash@ == sha3_256_domain_separated_spec(
            AURA_STORM_SIDE_A_HASH_V1_DOMAIN_SEPARATOR@,
            claim.side_a@,
        ),
        public_inputs.side_b_hash@ == sha3_256_domain_separated_spec(
            AURA_STORM_SIDE_B_HASH_V1_DOMAIN_SEPARATOR@,
            claim.side_b@,
        ),
        public_inputs.context_hash@ == sha3_256_domain_separated_spec(
            AURA_STORM_CONTEXT_HASH_V1_DOMAIN_SEPARATOR@,
            claim.context_bytes_v1@,
        ),
        public_inputs.initial_state == claim.initial_state,
        public_inputs.final_state == claim.final_state,
        public_inputs.trace_root == claim.trace_root,
        public_inputs.side_a_hash@ == sha3_256_spec(seq![0x41u8, 0x55, 0x52, 0x41, 0x5f, 0x53, 0x54, 0x4f, 0x52, 0x4d, 0x5f, 0x53, 0x49, 0x44, 0x45, 0x5f, 0x41, 0x5f, 0x48, 0x41, 0x53, 0x48, 0x5f, 0x56, 0x31] + claim.side_a@),
        public_inputs.side_b_hash@ == sha3_256_spec(seq![0x41u8, 0x55, 0x52, 0x41, 0x5f, 0x53, 0x54, 0x4f, 0x52, 0x4d, 0x5f, 0x53, 0x49, 0x44, 0x45, 0x5f, 0x42, 0x5f, 0x48, 0x41, 0x53, 0x48, 0x5f, 0x56, 0x31] + claim.side_b@),
        public_inputs.context_hash@ == sha3_256_spec(seq![0x41u8, 0x55, 0x52, 0x41, 0x5f, 0x53, 0x54, 0x4f, 0x52, 0x4d, 0x5f, 0x43, 0x4f, 0x4e, 0x54, 0x45, 0x58, 0x54, 0x5f, 0x48, 0x41, 0x53, 0x48, 0x5f, 0x56, 0x31] + claim.context_bytes_v1@),
{
    proof {
        assert(AURA_STORM_SIDE_A_HASH_V1_DOMAIN_SEPARATOR@ =~= seq![0x41u8, 0x55, 0x52, 0x41, 0x5f, 0x53, 0x54, 0x4f, 0x52, 0x4d, 0x5f, 0x53, 0x49, 0x44, 0x45, 0x5f, 0x41, 0x5f, 0x48, 0x41, 0x53, 0x48, 0x5f, 0x56, 0x31]);
        assert(AURA_STORM_SIDE_B_HASH_V1_DOMAIN_SEPARATOR@ =~= seq![0x41u8, 0x55, 0x52, 0x41, 0x5f, 0x53, 0x54, 0x4f, 0x52, 0x4d, 0x5f, 0x53, 0x49, 0x44, 0x45, 0x5f, 0x42, 0x5f, 0x48, 0x41, 0x53, 0x48, 0x5f, 0x56, 0x31]);
        assert(AURA_STORM_CONTEXT_HASH_V1_DOMAIN_SEPARATOR@ =~= seq![0x41u8, 0x55, 0x52, 0x41, 0x5f, 0x53, 0x54, 0x4f, 0x52, 0x4d, 0x5f, 0x43, 0x4f, 0x4e, 0x54, 0x45, 0x58, 0x54, 0x5f, 0x48, 0x41, 0x53, 0x48, 0x5f, 0x56, 0x31]);
    }
    let side_a_domain = AURA_STORM_SIDE_A_HASH_V1_DOMAIN_SEPARATOR;
    let side_b_domain = AURA_STORM_SIDE_B_HASH_V1_DOMAIN_SEPARATOR;
    let context_domain = AURA_STORM_CONTEXT_HASH_V1_DOMAIN_SEPARATOR;
    StormPublicInputs521V1 {
        version: claim.version,
        modulus_id: claim.modulus_id,
        iteration_count: claim.iteration_count,
        side_a_hash: sha3_256_domain_separated(&side_a_domain, &claim.side_a),
        side_b_hash: sha3_256_domain_separated(&side_b_domain, &claim.side_b),
        context_hash: sha3_256_domain_separated(&context_domain, &claim.context_bytes_v1),
        initial_state: claim.initial_state,
        final_state: claim.final_state,
        trace_root: claim.trace_root,
    }
}

/// The canonical encoding of a claim is 799 bytes.
pub proof fn lemma_storm_claim_bytes_len(claim: StormClaim521V1)
    requires
        claim.initial_state.x.is_canonical(),
        claim.initial_state.y.is_canonical(),
        claim.final_state.x.is_canonical(),
        claim.final_state.y.is_canonical(),
    ensures
        storm_claim_bytes_spec(claim).len() == 799,
{
    crate::encoding_v1::lemma_le_bytes_len(claim.iteration_count as nat, 8);
}

/// A claim whose two states are canonical.
pub open spec fn claim_canonical(claim: StormClaim521V1) -> bool {
    state_canonical(claim.initial_state) && state_canonical(claim.final_state)
}

/// Where each field of a claim stands in its 799-byte encoding.
pub proof fn lemma_storm_claim_layout(claim: StormClaim521V1)
    requires
        claim_canonical(claim),
    ensures
        storm_claim_bytes_spec(claim).len() == 799,
        storm_claim_bytes_spec(claim)[0] == claim.version,
        storm_claim_bytes_spec(claim)[1] == claim.modulus_id,
        storm_claim_bytes_spec(claim).subrange(2, 10) == u64_le(claim.iteration_count),
        storm_claim_bytes_spec(claim).subrange(10, 120) == claim.side_a@,
        storm_claim_bytes_spec(claim).subrange(120, 230) == claim.side_b@,
        storm_claim_bytes_spec(claim).subrange(230, 439) == claim.context_bytes_v1@,
        storm_claim_bytes_spec(claim).subrange(439, 571) == storm_row_spec(claim.initial_state),
        storm_claim_bytes_spec(claim).subrange(571, 703) == storm_row_spec(claim.final_state),
        storm_claim_bytes_spec(claim).subrange(703, 735) == claim.trace_root@,
        storm_claim_bytes_spec(claim).subrange(735, 767) == claim.legacy_commitment_root@,
        storm_claim_bytes_spec(claim).subrange(767, 799) == claim.legacy_trace_commitment@,
{
    let b = storm_claim_bytes_spec(claim);
    crate::encoding_v1::lemma_le_bytes_len(claim.iteration_count as nat, 8);
    crate::storm_state_v1::lemma_storm_row_layout(claim.initial_state);
    crate::storm_state_v1::lemma_storm_row_layout(claim.final_state);
    assert(b.subrange(2, 10) =~= u64_le(claim.iteration_count));
    assert(b.subrange(10, 120) =~= claim.side_a@);
    assert(b.subrange(120, 230) =~= claim.side_b@);
    assert(b.subrange(230, 439) =~= claim.context_bytes_v1@);
    assert(b.subrange(439, 571) =~= storm_row_spec(claim.initial_state));
    assert(b.subrange(571, 703) =~= storm_row_spec(claim.final_state));
    assert(b.subrange(703, 735) =~= claim.trace_root@);
    assert(b.subrange(735, 767) =~= claim.legacy_commitment_root@);
    assert(b.subrange(767, 799) =~= claim.legacy_trace_commitment@);
}

/// Decoding the encoding of a claim with canonical states succeeds.
pub proof fn lemma_storm_claim_round_trip(claim: StormClaim521V1)
    requires
        claim_canonical(claim),
    ensures
        storm_claim_decode_error(storm_claim_bytes_spec(claim)) is None,
{
    lemma_storm_claim_layout(claim);
    crate::storm_state_v1::lemma_storm_row_round_trip(claim.initial_state);
    crate::storm_state_v1::lemma_storm_row_round_trip(claim.final_state);
}

/// Two claims with canonical states and the same encoding are the same claim.
pub proof fn lemma_storm_claim_bytes_injective(c1: StormClaim521V1, c2: StormClaim521V1)
    requires
        claim_canonical(c1),
        claim_canonical(c2),
        storm_claim_bytes_spec(c1) == storm_claim_bytes_spec(c2),
    ensures
        c1 == c2,
{
    lemma_storm_claim_layout(c1);
    lemma_storm_claim_layout(c2);
    crate::encoding_v1::lemma_u64_le_injective(c1.iteration_count, c2.iteration_count);
    assert(c1.side_a =~= c2.side_a);
    assert(c1.side_b =~= c2.side_b);
    assert(c1.context_bytes_v1 =~= c2.context_bytes_v1);
    assert(c1.trace_root =~= c2.trace_root);
    assert(c1.legacy_commitment_root =~= c2.legacy_commitment_root);
    assert(c1.legacy_trace_commitment =~= c2.legacy_trace_commitment);
    crate::storm_state_v1::lemma_storm_row_injective(c1.initial_state, c2.initial_state);
    crate::storm_state_v1::lemma_storm_row_injective(c1.final_state, c2.final_state);
}

} // verus!
