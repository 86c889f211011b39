//! The widened lower-layer execution commitment: a 521-bit commitment to a
//! field execution (or to a Storm execution) that is authoritative on the
//! versioned path, while the older 32-byte roots travel beside it as helper
//! values only.

use crate::commitment_521_v1::{
    commitment_value_spec, derive_deterministic_commitment_521_v1, DeterministicCommitment521ErrorV1,
    DeterministicCommitment521V1,
};
use crate::dcm_air_v1::{canonical_dcm_air_trace_bytes_v1, dcm_rows_bytes, DcmAirTraceV1};
use crate::dcm_commitment_root_v1::commitment_root_spec;
use crate::dcm_v1::{
    dcm521_same, dcm521_state_bytes, dcm521_trace_commitment_spec, dcm521_trace_valid,
    derive_dcm_commitment_root_521_v1, derive_trace_commitment_521_v1, DcmConfig521V1,
    DcmExecution521ErrorV1, DcmExecution521V1, DcmInput521V1, DcmState521V1,
    DcmTraceCommitment521ErrorV1,
};
use crate::encoding_v1::{append_bytes, copy_range_into, u64_le, u64_to_le_bytes};
use crate::field_521_v1::{fe_decode_error, fe_encoding_spec, FIELD_MODULUS_521_V1};
use crate::limbs_521_v1::be_value;
use crate::storm_air_v1::states_bytes;
use crate::storm_claim_v1::{STORM_CLAIM_521_V1_VERSION, STORM_MODULUS_ID_521_V1};
use crate::storm_execution_v1::{
    a_spec, b_spec, derive_a, derive_b, derive_x0, derive_y0, execute_storm_v1, state_values,
    storm_expected_trace_root, storm_inputs_valid, storm_state_at, storm_trace_matches,
    StormExecutionErrorV1, StormExecutionInputsV1,
};
use crate::storm_state_v1::{storm_row_spec, StormState521V1};
use crate::storm_trace_commitment_v1::compute_storm_trace_root;
use crate::field_521_v1::FieldElement521V1;
use vstd::prelude::*;

verus! {

pub const LOWER_LAYER_EXECUTION_COMMITMENT_V2_VERSION: u8 = 2;

/// `"AURA_LOWER_LAYER_EXECUTION_COMMITMENT_V2"`.
pub const AURA_LOWER_LAYER_EXECUTION_COMMITMENT_V2_DOMAIN_SEPARATOR: [u8; 40] = [0x41, 0x55, 0x52, 0x41, 0x5f, 0x4c, 0x4f, 0x57, 0x45, 0x52, 0x5f, 0x4c, 0x41, 0x59, 0x45, 0x52, 0x5f, 0x45, 0x58, 0x45, 0x43, 0x55, 0x54, 0x49, 0x4f, 0x4e, 0x5f, 0x43, 0x4f, 0x4d, 0x4d, 0x49, 0x54, 0x4d, 0x45, 0x4e, 0x54, 0x5f, 0x56, 0x32];

/// `"AURA_LOWER_LAYER_EXECUTION_COMMITMENT_STORM_V1"`.
pub const AURA_LOWER_LAYER_EXECUTION_COMMITMENT_STORM_V1_DOMAIN_SEPARATOR: [u8; 46] = [0x41, 0x55, 0x52, 0x41, 0x5f, 0x4c, 0x4f, 0x57, 0x45, 0x52, 0x5f, 0x4c, 0x41, 0x59, 0x45, 0x52, 0x5f, 0x45, 0x58, 0x45, 0x43, 0x55, 0x54, 0x49, 0x4f, 0x4e, 0x5f, 0x43, 0x4f, 0x4d, 0x4d, 0x49, 0x54, 0x4d, 0x45, 0x4e, 0x54, 0x5f, 0x53, 0x54, 0x4f, 0x52, 0x4d, 0x5f, 0x56, 0x31];

/// Version, modulus, count, two states, the commitment and two helper roots.
pub const DCM_CLAIM_521_V2_CANONICAL_BYTE_LEN_V1: usize = 469;

/// The authoritative lower-layer execution commitment: one 521-bit
/// commitment.
#[derive(Clone, Copy, Debug, PartialEq, Eq)]
pub struct LowerLayerExecutionCommitmentV2 {
    commitment: DeterministicCommitment521V1,
}

impl View for LowerLayerExecutionCommitmentV2 {
    type V = Seq<u8>;

    /// The canonical encoding of the commitment.
    closed spec fn view(&self) -> Seq<u8> {
        self.commitment@
    }
}

impl LowerLayerExecutionCommitmentV2 {
    /// Parses a canonical field element encoding.
    pub fn from_bytes(bytes: [u8; 66]) -> (result: Result<Self, DeterministicCommitment521ErrorV1>)
        ensures
            fe_decode_error(bytes@) is None ==> (result matches Ok(commitment) && commitment@
                == bytes@),
            fe_decode_error(bytes@) is Some ==> result == Err::<Self, DeterministicCommitment521ErrorV1>(
                DeterministicCommitment521ErrorV1::InvalidCanonicalBytes(fe_decode_error(bytes@)->0),
            ),
    {
        match DeterministicCommitment521V1::from_bytes(bytes) {
            Ok(commitment) => Ok(Self { commitment }),
            Err(error) => Err(error),
        }
    }

    /// The canonical encoding.
    pub fn to_bytes(self) -> (bytes: [u8; 66])
        ensures
            bytes@ == self@,
    {
        self.commitment.to_bytes()
    }

    /// Whether the committed value is zero.
    pub fn is_zero(self) -> (zero: bool)
        ensures
            zero == (be_value(self@) == 0),
    {
        self.commitment.is_zero()
    }

    /// The underlying commitment.
    pub fn as_commitment(self) -> (commitment: DeterministicCommitment521V1)
        ensures
            commitment@ == self@,
    {
        self.commitment
    }
}

/// A field claim on the widened path: the authoritative commitment beside the
/// two helper roots.
#[derive(Clone, Copy, Debug, PartialEq, Eq)]
pub struct DcmClaim521V2 {
    pub claim_version: u8,
    pub config: DcmConfig521V1,
    pub initial_state: DcmState521V1,
    pub final_state: DcmState521V1,
    pub execution_commitment: LowerLayerExecutionCommitmentV2,
    pub legacy_commitment_root: [u8; 32],
    pub legacy_trace_commitment: [u8; 32],
}

/// The canonical encoding of a widened field claim.
pub open spec fn dcm_claim_v2_bytes_spec(claim: DcmClaim521V2) -> Seq<u8> {
    seq![claim.claim_version] + FIELD_MODULUS_521_V1@ + u64_le(claim.config.iteration_count)
        + dcm521_state_bytes(claim.initial_state) + dcm521_state_bytes(claim.final_state)
        + claim.execution_commitment@ + claim.legacy_commitment_root@
        + claim.legacy_trace_commitment@
}

impl DcmClaim521V2 {
    /// The number of states in the trace.
    pub fn trace_state_count(&self) -> (count: u64)
        requires
            self.config.iteration_count < u64::MAX,
        ensures
            count == self.config.iteration_count + 1,
    {
        self.config.iteration_count + 1
    }

    /// The 469-byte canonical encoding.
    pub fn canonical_bytes(&self) -> (bytes: [u8; 469])
        ensures
            bytes@ == dcm_claim_v2_bytes_spec(*self),
    {
        let modulus = FIELD_MODULUS_521_V1;
        let mut buffer: Vec<u8> = Vec::new();
        buffer.push(self.claim_version);
        append_bytes(&mut buffer, &modulus);
        let count = u64_to_le_bytes(self.config.iteration_count);
        append_bytes(&mut buffer, &count);
        let initial = self.initial_state.canonical_bytes();
        append_bytes(&mut buffer, &initial);
        let final_bytes = self.final_state.canonical_bytes();
        append_bytes(&mut buffer, &final_bytes);
        let commitment = self.execution_commitment.to_bytes();
        append_bytes(&mut buffer, &commitment);
        append_bytes(&mut buffer, &self.legacy_commitment_root);
        append_bytes(&mut buffer, &self.legacy_trace_commitment);
        proof {
            assert(buffer@ =~= dcm_claim_v2_bytes_spec(*self));
        }
        let mut bytes = [0u8; 469];
        copy_range_into(&mut bytes, buffer.as_slice(), 0);
        proof {
            assert(buffer@.subrange(0, 469) =~= buffer@);
        }
        bytes
    }
}

/// Why an execution cannot be committed to on the widened path.
#[allow(inconsistent_fields)]
#[derive(Clone, Copy, Debug, PartialEq, Eq)]
pub enum LowerLayerExecutionCommitmentV2Error {
    Layer1ParametersInvalid(DcmExecution521ErrorV1),
    EmptyTrace,
    TraceLengthFieldMismatch { expected: u64, actual: u64 },
    FinalStateFieldMismatch { expected: DcmState521V1, actual: DcmState521V1 },
    LegacyTraceCommitmentRejected(DcmTraceCommitment521ErrorV1),
    LegacyTraceCommitmentMismatch { expected: [u8; 32], actual: [u8; 32] },
}

/// The material of a Storm execution that the widened commitment covers.
#[derive(Clone, Debug, PartialEq, Eq)]
pub struct LowerLayerExecutionCommitmentStormV1 {
    pub version: u8,
    pub modulus_id: u8,
    pub iteration_count: u64,
    pub side_a: [u8; 110],
    pub side_b: [u8; 110],
    pub context_bytes_v1: [u8; 209],
    pub initial_state: StormState521V1,
    pub final_state: StormState521V1,
    pub a: FieldElement521V1,
    pub b: FieldElement521V1,
    pub canonical_trace_bytes: Vec<u8>,
    pub trace_root: [u8; 32],
}

/// The canonical encoding of Storm material, the trace bytes framed by their
/// length.
pub open spec fn storm_material_bytes_spec(material: LowerLayerExecutionCommitmentStormV1) -> Seq<u8> {
    seq![material.version, material.modulus_id] + u64_le(material.iteration_count)
        + material.side_a@ + material.side_b@ + material.context_bytes_v1@ + storm_row_spec(
        material.initial_state,
    ) + storm_row_spec(material.final_state) + material.a@ + material.b@ + u64_le(
        material.canonical_trace_bytes@.len() as u64,
    ) + material.canonical_trace_bytes@ + material.trace_root@
}

impl LowerLayerExecutionCommitmentStormV1 {
    /// The canonical encoding.
    pub fn canonical_bytes(&self) -> (bytes: Vec<u8>)
        ensures
            bytes@ == storm_material_bytes_spec(*self),
    {
        let mut bytes: Vec<u8> = Vec::new();
        bytes.push(self.version);
        bytes.push(self.modulus_id);
        let count = u64_to_le_bytes(self.iteration_count);
        append_bytes(&mut bytes, &count);
        append_bytes(&mut bytes, &self.side_a);
        append_bytes(&mut bytes, &self.side_b);
        append_bytes(&mut bytes, &self.context_bytes_v1);
        let initial = self.initial_state.encode_row_bytes();
        append_bytes(&mut bytes, &initial);
        let final_row = self.final_state.encode_row_bytes();
        append_bytes(&mut bytes, &final_row);
        let a = self.a.to_bytes();
        append_bytes(&mut bytes, &a);
        let b = self.b.to_bytes();
        append_bytes(&mut bytes, &b);
        let trace_len = u64_to_le_bytes(self.canonical_trace_bytes.len() as u64);
        append_bytes(&mut bytes, &trace_len);
        append_bytes(&mut bytes, self.canonical_trace_bytes.as_slice());
        append_bytes(&mut bytes, &self.trace_root);
        proof {
            assert(bytes@ =~= storm_material_bytes_spec(*self));
        }
        bytes
    }
}

/// The input a field trace starts from: its first state.
pub open spec fn dcm_trace_input(states: Seq<DcmState521V1>) -> DcmInput521V1 {
    DcmInput521V1 { x0: states[0].x, y0: states[0].y }
}

/// A field execution whose configuration is valid, whose recorded length and
/// final state are those of its states, and whose helper trace commitment is
/// the commitment to its states.
pub open spec fn lower_layer_execution_consistent(config: DcmConfig521V1, execution: DcmExecution521V1) -> bool {
    &&& (config.iteration_count as int) < usize::MAX
    &&& execution.states@.len() > 0
    &&& execution.trace_length == execution.states@.len()
    &&& dcm521_same(execution.final_state, execution.states@.last())
    &&& dcm521_trace_valid(config, dcm_trace_input(execution.states@), execution.states@)
    &&& execution.trace_commitment@ == dcm521_trace_commitment_spec(
        config,
        dcm_trace_input(execution.states@),
        execution.states@,
    )
}

/// The error the consistency checks report: the first check that fails, in
/// the order configuration, emptiness, length, final state, helper trace and
/// helper commitment.
pub open spec fn lower_layer_error_reported(config: DcmConfig521V1, execution: DcmExecution521V1, error: LowerLayerExecutionCommitmentV2Error) -> bool {
    let states = execution.states@;
    if (config.iteration_count as int) >= usize::MAX {
        error == LowerLayerExecutionCommitmentV2Error::Layer1ParametersInvalid(
            DcmExecution521ErrorV1::IterationCountTooLarge { actual: config.iteration_count },
        )
    } else if states.len() == 0 {
        error == LowerLayerExecutionCommitmentV2Error::EmptyTrace
    } else if execution.trace_length != states.len() {
        error == LowerLayerExecutionCommitmentV2Error::TraceLengthFieldMismatch {
            expected: states.len() as u64,
            actual: execution.trace_length,
        }
    } else if !dcm521_same(execution.final_state, states.last()) {
        error == LowerLayerExecutionCommitmentV2Error::FinalStateFieldMismatch {
            expected: states.last(),
            actual: execution.final_state,
        }
    } else if !dcm521_trace_valid(config, dcm_trace_input(states), states) {
        error is LegacyTraceCommitmentRejected
    } else {
        &&& error matches LowerLayerExecutionCommitmentV2Error::LegacyTraceCommitmentMismatch {
            expected,
            actual,
        }
        &&& expected@ == dcm521_trace_commitment_spec(config, dcm_trace_input(states), states)
        &&& actual == execution.trace_commitment
        &&& actual@ != expected@
    }
}

/// The commitment material of a consistent field execution.
pub open spec fn lower_layer_material_spec(config: DcmConfig521V1, execution: DcmExecution521V1) -> Seq<u8> {
    seq![LOWER_LAYER_EXECUTION_COMMITMENT_V2_VERSION] + FIELD_MODULUS_521_V1@ + u64_le(
        config.iteration_count,
    ) + u64_le(execution.trace_length) + dcm521_state_bytes(execution.states@[0])
        + dcm521_state_bytes(execution.final_state) + u64_le(execution.states@.len() as u64)
        + dcm_rows_bytes(execution.states@)
}

/// The widened commitment to a consistent field execution.
pub open spec fn lower_layer_commitment_spec(config: DcmConfig521V1, execution: DcmExecution521V1) -> Seq<u8> {
    fe_encoding_spec(
        commitment_value_spec(
            AURA_LOWER_LAYER_EXECUTION_COMMITMENT_V2_DOMAIN_SEPARATOR@,
            lower_layer_material_spec(config, execution),
        ),
    )
}

/// Checks an execution against its helper values.
fn validate_execution_against_helpers_v2(config: &DcmConfig521V1, execution: &DcmExecution521V1) -> (result: Result<(), LowerLayerExecutionCommitmentV2Error>)
    ensures
        result is Ok <==> lower_layer_execution_consistent(*config, *execution),
        result matches Err(error) ==> lower_layer_error_reported(*config, *execution, error),
{
    match config.validate() {
        Ok(()) => {},
        Err(error) => {
            return Err(LowerLayerExecutionCommitmentV2Error::Layer1ParametersInvalid(error));
        },
    }
    if execution.states.len() == 0 {
        return Err(LowerLayerExecutionCommitmentV2Error::EmptyTrace);
    }
    let actual_trace_length = execution.states.len() as u64;
    if execution.trace_length != actual_trace_length {
        return Err(
            LowerLayerExecutionCommitmentV2Error::TraceLengthFieldMismatch {
                expected: actual_trace_length,
                actual: execution.trace_length,
            },
        );
    }
    let actual_final_state = execution.states[execution.states.len() - 1];
    if !execution.final_state.same_as(&actual_final_state) {
        return Err(
            LowerLayerExecutionCommitmentV2Error::FinalStateFieldMismatch {
                expected: actual_final_state,
                actual: execution.final_state,
            },
        );
    }
    let reconstructed_input = DcmInput521V1 { x0: execution.states[0].x, y0: execution.states[0].y };
    let expected_trace_commitment = match derive_trace_commitment_521_v1(
        config,
        &reconstructed_input,
        execution.states.as_slice(),
    ) {
        Ok(commitment) => commitment,
        Err(error) => {
            return Err(LowerLayerExecutionCommitmentV2Error::LegacyTraceCommitmentRejected(error));
        },
    };
    if !crate::field_521_v1::bytes_equal(&execution.trace_commitment, &expected_trace_commitment) {
        return Err(
            LowerLayerExecutionCommitmentV2Error::LegacyTraceCommitmentMismatch {
                expected: expected_trace_commitment,
                actual: execution.trace_commitment,
            },
        );
    }
    Ok(())
}

/// The commitment material of a field execution: version, modulus, count,
/// recorded length, boundary states and the framed trace.
pub fn canonical_lower_layer_execution_commitment_material_bytes_v2(config: &DcmConfig521V1, execution: &DcmExecution521V1) -> (result: Result<Vec<u8>, LowerLayerExecutionCommitmentV2Error>)
    ensures
        result is Ok <==> lower_layer_execution_consistent(*config, *execution),
        result matches Err(error) ==> lower_layer_error_reported(*config, *execution, error),
        result matches Ok(bytes) ==> bytes@ == lower_layer_material_spec(*config, *execution),
{
    match validate_execution_against_helpers_v2(config, execution) {
        Ok(()) => {},
        Err(error) => {
            return Err(error);
        },
    }
    let trace = DcmAirTraceV1::new(execution.states.clone());
    let trace_bytes = canonical_dcm_air_trace_bytes_v1(&trace);
    let initial_state = execution.states[0];
    let modulus = FIELD_MODULUS_521_V1;
    let mut bytes: Vec<u8> = Vec::new();
    bytes.push(LOWER_LAYER_EXECUTION_COMMITMENT_V2_VERSION);
    append_bytes(&mut bytes, &modulus);
    let count = u64_to_le_bytes(config.iteration_count);
    append_bytes(&mut bytes, &count);
    let length = u64_to_le_bytes(execution.trace_length);
    append_bytes(&mut bytes, &length);
    let initial = initial_state.canonical_bytes();
    append_bytes(&mut bytes, &initial);
    let final_bytes = execution.final_state.canonical_bytes();
    append_bytes(&mut bytes, &final_bytes);
    append_bytes(&mut bytes, trace_bytes.as_slice());
    proof {
        assert(bytes@ =~= lower_layer_material_spec(*config, *execution));
    }
    Ok(bytes)
}

/// The widened commitment to a field execution.
pub fn derive_lower_layer_execution_commitment_v2(config: &DcmConfig521V1, execution: &DcmExecution521V1) -> (result: Result<LowerLayerExecutionCommitmentV2, LowerLayerExecutionCommitmentV2Error>)
    ensures
        result is Ok <==> lower_layer_execution_consistent(*config, *execution),
        result matches Err(error) ==> lower_layer_error_reported(*config, *execution, error),
        result matches Ok(commitment) ==> commitment@ == lower_layer_commitment_spec(
            *config,
            *execution,
        ),
{
    let material = match canonical_lower_layer_execution_commitment_material_bytes_v2(config, execution) {
        Ok(material) => material,
        Err(error) => {
            return Err(error);
        },
    };
    let domain = AURA_LOWER_LAYER_EXECUTION_COMMITMENT_V2_DOMAIN_SEPARATOR;
    let commitment = derive_deterministic_commitment_521_v1(&domain, material.as_slice());
    Ok(LowerLayerExecutionCommitmentV2 { commitment })
}

/// The widened claim of a field execution: its configuration, boundary
/// states, the authoritative commitment and the two helper roots.
pub fn build_dcm_claim_521_v2(config: &DcmConfig521V1, execution: &DcmExecution521V1) -> (result: Result<DcmClaim521V2, LowerLayerExecutionCommitmentV2Error>)
    ensures
        result is Ok <==> lower_layer_execution_consistent(*config, *execution),
        result matches Err(error) ==> lower_layer_error_reported(*config, *execution, error),
        result matches Ok(claim) ==> {
            &&& claim.claim_version == LOWER_LAYER_EXECUTION_COMMITMENT_V2_VERSION
            &&& claim.config == *config
            &&& claim.initial_state == execution.states@[0]
            &&& claim.final_state == execution.final_state
            &&& claim.execution_commitment@ == lower_layer_commitment_spec(*config, *execution)
            &&& claim.legacy_commitment_root@ == commitment_root_spec(
                config.iteration_count,
                execution.states@,
            )
            &&& claim.legacy_trace_commitment == execution.trace_commitment
        },
{
    match validate_execution_against_helpers_v2(config, execution) {
        Ok(()) => {},
        Err(error) => {
            return Err(error);
        },
    }
    let initial_state = execution.states[0];
    let legacy_commitment_root = derive_dcm_commitment_root_521_v1(config, execution);
    let execution_commitment = match derive_lower_layer_execution_commitment_v2(config, execution) {
        Ok(commitment) => commitment,
        Err(error) => {
            return Err(error);
        },
    };
    Ok(
        DcmClaim521V2 {
            claim_version: LOWER_LAYER_EXECUTION_COMMITMENT_V2_VERSION,
            config: *config,
            initial_state,
            final_state: execution.final_state,
            execution_commitment,
            legacy_commitment_root,
            legacy_trace_commitment: execution.trace_commitment,
        },
    )
}

/// The material of the Storm execution that inputs describe.
pub open spec fn storm_material_of(inputs: StormExecutionInputsV1, material: LowerLayerExecutionCommitmentStormV1) -> bool {
    &&& material.version == STORM_CLAIM_521_V1_VERSION
    &&& material.modulus_id == STORM_MODULUS_ID_521_V1
    &&& material.iteration_count == inputs.iteration_count
    &&& material.side_a == inputs.side_a
    &&& material.side_b == inputs.side_b
    &&& material.context_bytes_v1 == inputs.context_bytes_v1
    &&& state_values(material.initial_state) == storm_state_at(inputs, 0)
    &&& state_values(material.final_state) == storm_state_at(inputs, inputs.iteration_count as nat)
    &&& material.a.value() == a_spec(inputs.context_bytes_v1@)
    &&& material.b.value() == b_spec(inputs.context_bytes_v1@)
    &&& exists|trace: Seq<StormState521V1>|
        storm_trace_matches(inputs, trace) && material.canonical_trace_bytes@ == #[trigger] states_bytes(
            trace,
        )
    &&& material.trace_root@ == storm_expected_trace_root(inputs)
}

/// Runs a Storm execution and gathers the material the widened commitment
/// covers: the inputs, the boundary states, the constants, every row of the
/// trace and its root.
pub fn build_lower_layer_execution_commitment_storm_v1(inputs: &StormExecutionInputsV1) -> (result: Result<LowerLayerExecutionCommitmentStormV1, StormExecutionErrorV1>)
    ensures
        storm_inputs_valid(*inputs) <==> result is Ok,
        (inputs.iteration_count as int) >= usize::MAX ==> result == Err::<
            LowerLayerExecutionCommitmentStormV1,
            StormExecutionErrorV1,
        >(StormExecutionErrorV1::IterationCountTooLarge { actual: inputs.iteration_count }),
        (inputs.iteration_count as int) < usize::MAX && !crate::storm_context_v1::storm_context_bytes_valid(
            inputs.context_bytes_v1@,
        ) ==> (result matches Err(StormExecutionErrorV1::InvalidContext(error))
            && crate::storm_context_v1::storm_context_error_spec(error, inputs.context_bytes_v1@)),
        result matches Ok(material) ==> storm_material_of(*inputs, material),
{
    match inputs.validate() {
        Ok(()) => {},
        Err(error) => {
            return Err(error);
        },
    }
    let execution = execute_storm_v1(inputs);
    let mut canonical_trace_bytes: Vec<u8> = Vec::new();
    let mut index: usize = 0;
    while index < execution.trace.len()
        invariant
            0 <= index <= execution.trace@.len(),
            canonical_trace_bytes@ == states_bytes(execution.trace@.take(index as int)),
        decreases execution.trace@.len() - index,
    {
        let row = execution.trace[index].encode_row_bytes();
        append_bytes(&mut canonical_trace_bytes, &row);
        proof {
            assert(execution.trace@.take(index + 1).drop_last() =~= execution.trace@.take(index as int));
        }
        index += 1;
    }
    proof {
        assert(execution.trace@.take(execution.trace@.len() as int) =~= execution.trace@);
        crate::storm_execution_v1::lemma_trace_root_of_matching_trace(*inputs, execution.trace@);
    }
    let trace_root = compute_storm_trace_root(execution.trace.as_slice());
    let material = LowerLayerExecutionCommitmentStormV1 {
        version: STORM_CLAIM_521_V1_VERSION,
        modulus_id: STORM_MODULUS_ID_521_V1,
        iteration_count: inputs.iteration_count,
        side_a: inputs.side_a,
        side_b: inputs.side_b,
        context_bytes_v1: inputs.context_bytes_v1,
        initial_state: StormState521V1 { x: derive_x0(&inputs.side_a), y: derive_y0(&inputs.side_b) },
        final_state: execution.final_state,
        a: derive_a(&inputs.context_bytes_v1),
        b: derive_b(&inputs.context_bytes_v1),
        canonical_trace_bytes,
        trace_root,
    };
    proof {
        assert(storm_trace_matches(*inputs, execution.trace@) && material.canonical_trace_bytes@
            == states_bytes(execution.trace@));
    }
    Ok(material)
}

/// The widened commitment to Storm material.
pub fn derive_lower_layer_execution_commitment_v2_from_storm_v1(material: &LowerLayerExecutionCommitmentStormV1) -> (commitment: LowerLayerExecutionCommitmentV2)
    ensures
        commitment@ == fe_encoding_spec(
            commitment_value_spec(
                AURA_LOWER_LAYER_EXECUTION_COMMITMENT_STORM_V1_DOMAIN_SEPARATOR@,
                storm_material_bytes_spec(*material),
            ),
        ),
{
    let domain = AURA_LOWER_LAYER_EXECUTION_COMMITMENT_STORM_V1_DOMAIN_SEPARATOR;
    let bytes = material.canonical_bytes();
    LowerLayerExecutionCommitmentV2 {
        commitment: derive_deterministic_commitment_521_v1(&domain, bytes.as_slice()),
    }
}

} // verus!
