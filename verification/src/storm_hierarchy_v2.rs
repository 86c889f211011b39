//! An experimental hierarchy over an unchanged Storm trace: the trace is cut
//! into epochs of at most 64 transitions (adjacent epochs share their
//! boundary row), each epoch is committed, a macro state is carried from epoch
//! to epoch, and the epoch commitments are combined in a Merkle tree.
//! Neither a canonical wire format nor a proof.

use crate::digest_v1::{sha3_256_bytes, sha3_256_spec};
use crate::encoding_v1::{append_bytes, u64_le, u64_to_le_bytes};
use crate::field_521_v1::FieldElement521V1;
use crate::limbs_521_v1::p521;
use crate::storm_context_v1::{
    storm_context_bytes_valid, storm_context_error_spec, validate_context_bytes_v1,
    StormContextErrorV1,
};
use crate::storm_execution_v1::{
    build_storm_trace, state_values, storm_inputs_valid, storm_trace_matches,
    StormExecutionErrorV1, StormExecutionInputsV1,
};
use crate::storm_hash521_v1::{aura_hash521_v1, hash521_spec};
use crate::storm_state_v1::{storm_row_spec, StormState521V1};
use crate::storm_trace_commitment_v1::{compute_storm_trace_root, storm_trace_root_spec};
use vstd::prelude::*;

verus! {

pub const STORM_EPOCH_TRANSITIONS_V2: u64 = 64;

/// `"AURA_STORM_MACRO_INIT_V2"`.
pub const AURA_STORM_MACRO_INIT_V2_DOMAIN: [u8; 24] = [0x41, 0x55, 0x52, 0x41, 0x5f, 0x53, 0x54, 0x4f, 0x52, 0x4d, 0x5f, 0x4d, 0x41, 0x43, 0x52, 0x4f, 0x5f, 0x49, 0x4e, 0x49, 0x54, 0x5f, 0x56, 0x32];

/// `"AURA_STORM_EPOCH_COMMITMENT_V2"`.
pub const AURA_STORM_EPOCH_COMMITMENT_V2_DOMAIN: [u8; 30] = [0x41, 0x55, 0x52, 0x41, 0x5f, 0x53, 0x54, 0x4f, 0x52, 0x4d, 0x5f, 0x45, 0x50, 0x4f, 0x43, 0x48, 0x5f, 0x43, 0x4f, 0x4d, 0x4d, 0x49, 0x54, 0x4d, 0x45, 0x4e, 0x54, 0x5f, 0x56, 0x32];

/// `"AURA_STORM_MACRO_ALPHA_V2"`.
pub const AURA_STORM_MACRO_ALPHA_V2_LABEL: [u8; 25] = [0x41, 0x55, 0x52, 0x41, 0x5f, 0x53, 0x54, 0x4f, 0x52, 0x4d, 0x5f, 0x4d, 0x41, 0x43, 0x52, 0x4f, 0x5f, 0x41, 0x4c, 0x50, 0x48, 0x41, 0x5f, 0x56, 0x32];

/// `"AURA_STORM_MACRO_BETA_V2"`.
pub const AURA_STORM_MACRO_BETA_V2_LABEL: [u8; 24] = [0x41, 0x55, 0x52, 0x41, 0x5f, 0x53, 0x54, 0x4f, 0x52, 0x4d, 0x5f, 0x4d, 0x41, 0x43, 0x52, 0x4f, 0x5f, 0x42, 0x45, 0x54, 0x41, 0x5f, 0x56, 0x32];

/// `"AURA_STORM_MACRO_RHO_V2"`.
pub const AURA_STORM_MACRO_RHO_V2_DOMAIN: [u8; 23] = [0x41, 0x55, 0x52, 0x41, 0x5f, 0x53, 0x54, 0x4f, 0x52, 0x4d, 0x5f, 0x4d, 0x41, 0x43, 0x52, 0x4f, 0x5f, 0x52, 0x48, 0x4f, 0x5f, 0x56, 0x32];

/// `"AURA_STORM_HIERARCHY_LEAF_V2"`.
pub const AURA_STORM_HIERARCHY_LEAF_V2_DOMAIN: [u8; 28] = [0x41, 0x55, 0x52, 0x41, 0x5f, 0x53, 0x54, 0x4f, 0x52, 0x4d, 0x5f, 0x48, 0x49, 0x45, 0x52, 0x41, 0x52, 0x43, 0x48, 0x59, 0x5f, 0x4c, 0x45, 0x41, 0x46, 0x5f, 0x56, 0x32];

/// `"AURA_STORM_HIERARCHY_PARENT_V2"`.
pub const AURA_STORM_HIERARCHY_PARENT_V2_DOMAIN: [u8; 30] = [0x41, 0x55, 0x52, 0x41, 0x5f, 0x53, 0x54, 0x4f, 0x52, 0x4d, 0x5f, 0x48, 0x49, 0x45, 0x52, 0x41, 0x52, 0x43, 0x48, 0x59, 0x5f, 0x50, 0x41, 0x52, 0x45, 0x4e, 0x54, 0x5f, 0x56, 0x32];

/// One epoch: its place in the trace, its boundary rows, its commitments and
/// the macro state before and after it.
#[derive(Clone, Debug, PartialEq, Eq)]
pub struct StormEpochV2 {
    pub epoch_index: u64,
    pub start_step: u64,
    pub transition_count: u64,
    pub initial_state: StormState521V1,
    pub final_state: StormState521V1,
    pub epoch_trace_root: [u8; 32],
    pub epoch_commitment: [u8; 32],
    pub macro_state_before: FieldElement521V1,
    pub macro_state_after: FieldElement521V1,
}

/// The hierarchy over a trace.
#[derive(Clone, Debug, PartialEq, Eq)]
pub struct StormHierarchyV2 {
    pub iteration_count: u64,
    pub epoch_count: u64,
    pub epochs: Vec<StormEpochV2>,
    pub initial_macro_state: FieldElement521V1,
    pub final_macro_state: FieldElement521V1,
    pub hierarchy_root: [u8; 32],
}

/// Why no hierarchy is built.
#[derive(Debug)]
pub enum StormHierarchyErrorV2 {
    EmptyTrace,
    EmptyHierarchy,
    InvalidContext(StormContextErrorV1),
    InvalidExecution(StormExecutionErrorV1),
}

/// The number of epochs over `iteration_count` transitions; a trace without
/// transitions still has one.
pub open spec fn epoch_count_spec(iteration_count: nat) -> nat {
    if iteration_count == 0 {
        1
    } else {
        ((iteration_count - 1) / 64 + 1) as nat
    }
}

/// The number of transitions of epoch `k`.
pub open spec fn epoch_len(iteration_count: nat, k: nat) -> nat {
    if iteration_count - 64 * k < 64 {
        (iteration_count - 64 * k) as nat
    } else {
        64
    }
}

/// The index of the last row of epoch `k`.
pub open spec fn epoch_end(iteration_count: nat, k: nat) -> nat {
    64 * k + epoch_len(iteration_count, k)
}

/// `alpha`: the hash of its label.
pub open spec fn macro_alpha_spec() -> nat {
    hash521_spec(AURA_STORM_MACRO_ALPHA_V2_LABEL@)
}

/// `beta`: the hash of its label.
pub open spec fn macro_beta_spec() -> nat {
    hash521_spec(AURA_STORM_MACRO_BETA_V2_LABEL@)
}

/// `rho_k`: the hash of the context and the epoch index.
pub open spec fn macro_rho_spec(context: Seq<u8>, k: u64) -> nat {
    hash521_spec(AURA_STORM_MACRO_RHO_V2_DOMAIN@ + context + u64_le(k))
}

/// One macro step: `z^2 + alpha * x + beta * y + rho_k` in the field, where
/// `(x, y)` is the state that ends epoch `k`.
pub open spec fn macro_step_spec(z: nat, end: (nat, nat), context: Seq<u8>, k: u64) -> nat {
    let p = p521();
    let first = ((z * z) % p + (macro_alpha_spec() * end.0) % p) % p;
    let second = (first + (macro_beta_spec() * end.1) % p) % p;
    (second + macro_rho_spec(context, k)) % p
}

/// The macro state before epoch `k`: the hash of the context and the first
/// row, then one macro step per epoch.
pub open spec fn macro_state_at(context: Seq<u8>, trace: Seq<StormState521V1>, k: nat) -> nat
    decreases k,
{
    if k == 0 {
        hash521_spec(AURA_STORM_MACRO_INIT_V2_DOMAIN@ + context + storm_row_spec(trace[0]))
    } else {
        macro_step_spec(
            macro_state_at(context, trace, (k - 1) as nat),
            state_values(trace[epoch_end((trace.len() - 1) as nat, (k - 1) as nat) as int]),
            context,
            (k - 1) as u64,
        )
    }
}

/// The commitment to an epoch.
pub open spec fn epoch_commitment_spec(epoch: StormEpochV2) -> Seq<u8> {
    sha3_256_spec(
        AURA_STORM_EPOCH_COMMITMENT_V2_DOMAIN@ + u64_le(epoch.epoch_index) + u64_le(
            epoch.start_step,
        ) + u64_le(epoch.transition_count) + storm_row_spec(epoch.initial_state) + storm_row_spec(
            epoch.final_state,
        ) + epoch.epoch_trace_root@,
    )
}

/// Epoch `k` of the hierarchy over a trace.
pub open spec fn epoch_of(context: Seq<u8>, trace: Seq<StormState521V1>, k: nat, epoch: StormEpochV2) -> bool {
    let iteration_count = (trace.len() - 1) as nat;
    let start = 64 * k;
    let end = epoch_end(iteration_count, k);
    &&& epoch.epoch_index == k
    &&& epoch.start_step == start
    &&& epoch.transition_count == epoch_len(iteration_count, k)
    &&& epoch.initial_state == trace[start as int]
    &&& epoch.final_state == trace[end as int]
    &&& epoch.epoch_trace_root@ == storm_trace_root_spec(trace.subrange(start as int, end + 1 as int))
    &&& epoch.epoch_commitment@ == epoch_commitment_spec(epoch)
    &&& epoch.macro_state_before.value() == macro_state_at(context, trace, k)
    &&& epoch.macro_state_after.value() == macro_state_at(context, trace, k + 1)
}

/// The leaf over an epoch commitment.
pub open spec fn hierarchy_leaf_spec(commitment: Seq<u8>) -> Seq<u8> {
    sha3_256_spec(AURA_STORM_HIERARCHY_LEAF_V2_DOMAIN@ + commitment)
}

/// The parent of two hierarchy nodes.
pub open spec fn hierarchy_parent_spec(left: Seq<u8>, right: Seq<u8>) -> Seq<u8> {
    sha3_256_spec(AURA_STORM_HIERARCHY_PARENT_V2_DOMAIN@ + left + right)
}

/// The level above: node `j` is the parent of nodes `2j` and `2j + 1`, or of
/// node `2j` with itself at the odd end.
pub open spec fn hierarchy_level_up(level: Seq<Seq<u8>>) -> Seq<Seq<u8>> {
    Seq::new(
        ((level.len() + 1) / 2) as nat,
        |j: int|
            hierarchy_parent_spec(
                level[2 * j],
                if 2 * j + 1 < level.len() {
                    level[2 * j + 1]
                } else {
                    level[2 * j]
                },
            ),
    )
}

/// The root over a non-empty level.
pub open spec fn hierarchy_root_spec(level: Seq<Seq<u8>>) -> Seq<u8>
    decreases level.len(),
{
    if level.len() <= 1 {
        level[0]
    } else {
        hierarchy_root_spec(hierarchy_level_up(level))
    }
}

/// The leaves over the epoch commitments.
pub open spec fn hierarchy_leaves(commitments: Seq<[u8; 32]>) -> Seq<Seq<u8>> {
    Seq::new(commitments.len(), |i: int| hierarchy_leaf_spec(commitments[i]@))
}

/// The hierarchy over a trace, whole.
pub open spec fn hierarchy_of(context: Seq<u8>, trace: Seq<StormState521V1>, hierarchy: StormHierarchyV2) -> bool {
    let iteration_count = (trace.len() - 1) as nat;
    &&& hierarchy.iteration_count == iteration_count
    &&& hierarchy.epoch_count == epoch_count_spec(iteration_count)
    &&& hierarchy.epochs@.len() == hierarchy.epoch_count
    &&& forall|k: int|
        0 <= k < hierarchy.epochs@.len() ==> epoch_of(
            context,
            trace,
            k as nat,
            #[trigger] hierarchy.epochs@[k],
        )
    &&& hierarchy.initial_macro_state.value() == macro_state_at(context, trace, 0)
    &&& hierarchy.final_macro_state.value() == macro_state_at(
        context,
        trace,
        hierarchy.epoch_count as nat,
    )
    &&& hierarchy.hierarchy_root@ == hierarchy_root_spec(
        hierarchy_leaves(hierarchy.epochs@.map_values(|e: StormEpochV2| e.epoch_commitment)),
    )
}

/// The first macro state: the hash of the context and the first row.
fn initial_macro_state_v2(context: &[u8; 209], initial: &StormState521V1) -> (state: FieldElement521V1)
    ensures
        state.value() == hash521_spec(
            AURA_STORM_MACRO_INIT_V2_DOMAIN@ + context@ + storm_row_spec(*initial),
        ),
{
    let domain = AURA_STORM_MACRO_INIT_V2_DOMAIN;
    let row = initial.encode_row_bytes();
    let mut bytes: Vec<u8> = Vec::new();
    append_bytes(&mut bytes, &domain);
    append_bytes(&mut bytes, context);
    append_bytes(&mut bytes, &row);
    proof {
        assert(bytes@ =~= AURA_STORM_MACRO_INIT_V2_DOMAIN@ + context@ + storm_row_spec(*initial));
    }
    aura_hash521_v1(bytes.as_slice())
}

/// One macro step after epoch `k`, which ends in `end`.
fn macro_step_v2(z: &FieldElement521V1, end: &StormState521V1, context: &[u8; 209], k: u64) -> (next: FieldElement521V1)
    ensures
        next.value() == macro_step_spec(z.value(), state_values(*end), context@, k),
{
    let alpha_label = AURA_STORM_MACRO_ALPHA_V2_LABEL;
    let beta_label = AURA_STORM_MACRO_BETA_V2_LABEL;
    let alpha = aura_hash521_v1(&alpha_label);
    let beta = aura_hash521_v1(&beta_label);
    let domain = AURA_STORM_MACRO_RHO_V2_DOMAIN;
    let index_bytes = u64_to_le_bytes(k);
    let mut rho_input: Vec<u8> = Vec::new();
    append_bytes(&mut rho_input, &domain);
    append_bytes(&mut rho_input, context);
    append_bytes(&mut rho_input, &index_bytes);
    proof {
        assert(rho_input@ =~= AURA_STORM_MACRO_RHO_V2_DOMAIN@ + context@ + u64_le(k));
    }
    let rho = aura_hash521_v1(rho_input.as_slice());
    z.square_mod().add_mod(&alpha.mul_mod(&end.x)).add_mod(&beta.mul_mod(&end.y)).add_mod(&rho)
}

fn epoch_commitment_v2(epoch_index: u64, start_step: u64, transition_count: u64, initial_state: &StormState521V1, final_state: &StormState521V1, epoch_trace_root: &[u8; 32]) -> (commitment: [u8; 32])
    ensures
        commitment@ == sha3_256_spec(
            AURA_STORM_EPOCH_COMMITMENT_V2_DOMAIN@ + u64_le(epoch_index) + u64_le(start_step)
                + u64_le(transition_count) + storm_row_spec(*initial_state) + storm_row_spec(
                *final_state,
            ) + epoch_trace_root@,
        ),
{
    let domain = AURA_STORM_EPOCH_COMMITMENT_V2_DOMAIN;
    let mut bytes: Vec<u8> = Vec::new();
    append_bytes(&mut bytes, &domain);
    let index_bytes = u64_to_le_bytes(epoch_index);
    append_bytes(&mut bytes, &index_bytes);
    let start_bytes = u64_to_le_bytes(start_step);
    append_bytes(&mut bytes, &start_bytes);
    let count_bytes = u64_to_le_bytes(transition_count);
    append_bytes(&mut bytes, &count_bytes);
    let initial_row = initial_state.encode_row_bytes();
    append_bytes(&mut bytes, &initial_row);
    let final_row = final_state.encode_row_bytes();
    append_bytes(&mut bytes, &final_row);
    append_bytes(&mut bytes, epoch_trace_root);
    proof {
        assert(bytes@ =~= AURA_STORM_EPOCH_COMMITMENT_V2_DOMAIN@ + u64_le(epoch_index) + u64_le(
            start_step,
        ) + u64_le(transition_count) + storm_row_spec(*initial_state) + storm_row_spec(
            *final_state,
        ) + epoch_trace_root@);
    }
    sha3_256_bytes(bytes.as_slice())
}

fn hierarchy_leaf_v2(commitment: &[u8; 32]) -> (leaf: [u8; 32])
    ensures
        leaf@ == hierarchy_leaf_spec(commitment@),
{
    let domain = AURA_STORM_HIERARCHY_LEAF_V2_DOMAIN;
    let mut bytes: Vec<u8> = Vec::new();
    append_bytes(&mut bytes, &domain);
    append_bytes(&mut bytes, commitment);
    sha3_256_bytes(bytes.as_slice())
}

fn hierarchy_parent_v2(left: &[u8; 32], right: &[u8; 32]) -> (parent: [u8; 32])
    ensures
        parent@ == hierarchy_parent_spec(left@, right@),
{
    let domain = AURA_STORM_HIERARCHY_PARENT_V2_DOMAIN;
    let mut bytes: Vec<u8> = Vec::new();
    append_bytes(&mut bytes, &domain);
    append_bytes(&mut bytes, left);
    append_bytes(&mut bytes, right);
    proof {
        assert(bytes@ =~= AURA_STORM_HIERARCHY_PARENT_V2_DOMAIN@ + left@ + right@);
    }
    sha3_256_bytes(bytes.as_slice())
}

/// The byte strings of a level of hashes.
pub open spec fn hierarchy_view(level: Seq<[u8; 32]>) -> Seq<Seq<u8>> {
    level.map_values(|hash: [u8; 32]| hash@)
}

/// The Merkle root over the epoch commitments, in order; an odd last node is
/// paired with itself. An empty list has no root.
pub fn compute_hierarchy_root_v2(commitments: &[[u8; 32]]) -> (result: Result<[u8; 32], StormHierarchyErrorV2>)
    ensures
        commitments@.len() == 0 ==> result matches Err(StormHierarchyErrorV2::EmptyHierarchy),
        commitments@.len() > 0 ==> (result matches Ok(root) && root@ == hierarchy_root_spec(
            hierarchy_leaves(commitments@),
        )),
{
    if commitments.len() == 0 {
        return Err(StormHierarchyErrorV2::EmptyHierarchy);
    }
    let ghost leaves = hierarchy_leaves(commitments@);
    let mut level: Vec<[u8; 32]> = Vec::new();
    let mut index: usize = 0;
    while index < commitments.len()
        invariant
            0 <= index <= commitments@.len(),
            leaves == hierarchy_leaves(commitments@),
            level@.len() == index,
            forall|i: int| 0 <= i < index ==> (#[trigger] level@[i])@ == leaves[i],
        decreases commitments@.len() - index,
    {
        level.push(hierarchy_leaf_v2(&commitments[index]));
        index += 1;
    }
    proof {
        assert(hierarchy_view(level@) =~= leaves);
    }
    while level.len() > 1
        invariant
            level@.len() > 0,
            hierarchy_root_spec(hierarchy_view(level@)) == hierarchy_root_spec(leaves),
        decreases level@.len(),
    {
        let ghost view = hierarchy_view(level@);
        let count = level.len() / 2 + level.len() % 2;
        let mut next: Vec<[u8; 32]> = Vec::new();
        let mut node_index: usize = 0;
        while node_index < count
            invariant
                count == (level@.len() + 1) / 2,
                node_index <= count,
                view == hierarchy_view(level@),
                next@.len() == node_index,
                forall|j: int|
                    0 <= j < next@.len() ==> (#[trigger] next@[j])@ == hierarchy_level_up(view)[j],
            decreases count - node_index,
        {
            assert(2 * node_index < level.len());
            let pair_index = 2 * node_index;
            let left = level[pair_index];
            let right = if pair_index + 1 < level.len() {
                level[pair_index + 1]
            } else {
                level[pair_index]
            };
            next.push(hierarchy_parent_v2(&left, &right));
            node_index += 1;
        }
        proof {
            assert(hierarchy_view(next@) =~= hierarchy_level_up(view));
        }
        level = next;
    }
    proof {
        assert(hierarchy_view(level@)[0] == level@[0]@);
    }
    Ok(level[0])
}

/// Overlays the hierarchy on a non-empty trace under a valid context. The
/// rows are committed as given; nothing checks that they follow the Storm
/// recurrence.
pub fn build_storm_hierarchy_v2(context: &[u8; 209], trace: &[StormState521V1]) -> (result: Result<StormHierarchyV2, StormHierarchyErrorV2>)
    ensures
        !storm_context_bytes_valid(context@) ==> (result matches Err(
            StormHierarchyErrorV2::InvalidContext(error),
        ) && storm_context_error_spec(error, context@)),
        storm_context_bytes_valid(context@) && trace@.len() == 0 ==> result matches Err(
            StormHierarchyErrorV2::EmptyTrace,
        ),
        storm_context_bytes_valid(context@) && trace@.len() > 0 ==> (result matches Ok(hierarchy)
            && hierarchy_of(context@, trace@, hierarchy)),
{
    match validate_context_bytes_v1(context) {
        Ok(_) => {},
        Err(error) => {
            return Err(StormHierarchyErrorV2::InvalidContext(error));
        },
    }
    if trace.len() == 0 {
        return Err(StormHierarchyErrorV2::EmptyTrace);
    }
    let initial = trace[0];
    let iteration_count = (trace.len() - 1) as u64;
    let epoch_count: u64 = if iteration_count == 0 {
        1
    } else {
        (iteration_count - 1) / STORM_EPOCH_TRANSITIONS_V2 + 1
    };
    let initial_macro_state = initial_macro_state_v2(context, &initial);
    let mut z = initial_macro_state;
    let mut epochs: Vec<StormEpochV2> = Vec::new();
    let mut epoch_index: u64 = 0;
    let trace_len = trace.len();
    while epoch_index < epoch_count
        invariant
            trace_len == trace@.len(),
            trace@.len() > 0,
            iteration_count == trace@.len() - 1,
            epoch_count == epoch_count_spec(iteration_count as nat),
            epoch_index <= epoch_count,
            epochs@.len() == epoch_index,
            forall|k: int|
                0 <= k < epochs@.len() ==> epoch_of(
                    context@,
                    trace@,
                    k as nat,
                    #[trigger] epochs@[k],
                ),
            z.value() == macro_state_at(context@, trace@, epoch_index as nat),
        decreases epoch_count - epoch_index,
    {
        assert(64 * epoch_index <= iteration_count);
        let start_step = epoch_index * STORM_EPOCH_TRANSITIONS_V2;
        let remaining = iteration_count - start_step;
        let transition_count = if remaining < STORM_EPOCH_TRANSITIONS_V2 {
            remaining
        } else {
            STORM_EPOCH_TRANSITIONS_V2
        };
        let end = start_step + transition_count;
        assert(end < trace_len);
        let end_index = end as usize + 1;
        let rows = vstd::slice::slice_subrange(trace, start_step as usize, end_index);
        let initial_state = rows[0];
        let final_state = rows[rows.len() - 1];
        let epoch_trace_root = compute_storm_trace_root(rows);
        let epoch_commitment = epoch_commitment_v2(
            epoch_index,
            start_step,
            transition_count,
            &initial_state,
            &final_state,
            &epoch_trace_root,
        );
        let after = macro_step_v2(&z, &final_state, context, epoch_index);
        let epoch = StormEpochV2 {
            epoch_index,
            start_step,
            transition_count,
            initial_state,
            final_state,
            epoch_trace_root,
            epoch_commitment,
            macro_state_before: z,
            macro_state_after: after,
        };
        proof {
            assert(end == epoch_end(iteration_count as nat, epoch_index as nat));
            assert(final_state == trace@[end as int]);
            assert(epoch_of(context@, trace@, epoch_index as nat, epoch));
        }
        epochs.push(epoch);
        z = after;
        epoch_index += 1;
    }
    let mut commitments: Vec<[u8; 32]> = Vec::new();
    let mut index: usize = 0;
    while index < epochs.len()
        invariant
            0 <= index <= epochs@.len(),
            commitments@.len() == index,
            forall|i: int| 0 <= i < index ==> #[trigger] commitments@[i] == epochs@[i].epoch_commitment,
        decreases epochs@.len() - index,
    {
        commitments.push(epochs[index].epoch_commitment);
        index += 1;
    }
    proof {
        assert(commitments@ =~= epochs@.map_values(|e: StormEpochV2| e.epoch_commitment));
    }
    let hierarchy_root = match compute_hierarchy_root_v2(commitments.as_slice()) {
        Ok(root) => root,
        Err(error) => {
            return Err(error);
        },
    };
    Ok(
        StormHierarchyV2 {
            iteration_count,
            epoch_count,
            epochs,
            initial_macro_state,
            final_macro_state: z,
            hierarchy_root,
        },
    )
}

/// Runs the Storm execution and overlays the hierarchy on its trace.
pub fn execute_storm_hierarchy_v2(inputs: &StormExecutionInputsV1) -> (result: Result<StormHierarchyV2, StormHierarchyErrorV2>)
    ensures
        storm_inputs_valid(*inputs) <==> result is Ok,
        (inputs.iteration_count as int) >= usize::MAX ==> (result matches Err(
            StormHierarchyErrorV2::InvalidExecution(
                StormExecutionErrorV1::IterationCountTooLarge { actual },
            ),
        ) && actual == inputs.iteration_count),
        (inputs.iteration_count as int) < usize::MAX && !storm_context_bytes_valid(
            inputs.context_bytes_v1@,
        ) ==> (result matches Err(
            StormHierarchyErrorV2::InvalidExecution(StormExecutionErrorV1::InvalidContext(error)),
        ) && storm_context_error_spec(error, inputs.context_bytes_v1@)),
        result matches Ok(hierarchy) ==> exists|trace: Seq<StormState521V1>|
            storm_trace_matches(*inputs, trace) && #[trigger] hierarchy_of(
                inputs.context_bytes_v1@,
                trace,
                hierarchy,
            ),
{
    match inputs.validate() {
        Ok(()) => {},
        Err(error) => {
            return Err(StormHierarchyErrorV2::InvalidExecution(error));
        },
    }
    let trace = build_storm_trace(inputs);
    let result = build_storm_hierarchy_v2(&inputs.context_bytes_v1, trace.as_slice());
    proof {
        if let Ok(ref hierarchy) = result {
            assert(storm_trace_matches(*inputs, trace@) && hierarchy_of(
                inputs.context_bytes_v1@,
                trace@,
                *hierarchy,
            ));
        }
    }
    result
}

/// The epochs tile the trace: the first starts at step zero, each starts
/// where the one before ends, sharing its boundary row and carrying its macro
/// state, every epoch but the last has 64 transitions, and the last ends at
/// the final row.
pub proof fn lemma_epochs_tile_the_trace(context: Seq<u8>, trace: Seq<StormState521V1>, hierarchy: StormHierarchyV2)
    requires
        trace.len() > 0,
        hierarchy_of(context, trace, hierarchy),
    ensures
        hierarchy.epochs@[0].start_step == 0,
        forall|k: int|
            0 <= k < hierarchy.epochs@.len() - 1 ==> {
                &&& (#[trigger] hierarchy.epochs@[k]).transition_count == 64
                &&& hierarchy.epochs@[k + 1].start_step == hierarchy.epochs@[k].start_step
                    + hierarchy.epochs@[k].transition_count
                &&& hierarchy.epochs@[k].final_state == hierarchy.epochs@[k + 1].initial_state
                &&& hierarchy.epochs@[k].macro_state_after.value()
                    == hierarchy.epochs@[k + 1].macro_state_before.value()
            },
        hierarchy.epochs@.last().transition_count <= 64,
        hierarchy.epochs@.last().start_step + hierarchy.epochs@.last().transition_count
            == trace.len() - 1,
        hierarchy.epochs@.last().final_state == trace.last(),
        hierarchy.epochs@.last().macro_state_after.value() == hierarchy.final_macro_state.value(),
{
    let iteration_count = (trace.len() - 1) as nat;
    let count = hierarchy.epochs@.len();
    assert(epoch_of(context, trace, 0, hierarchy.epochs@[0]));
    assert forall|k: int| 0 <= k < count - 1 implies {
        &&& (#[trigger] hierarchy.epochs@[k]).transition_count == 64
        &&& hierarchy.epochs@[k + 1].start_step == hierarchy.epochs@[k].start_step
            + hierarchy.epochs@[k].transition_count
        &&& hierarchy.epochs@[k].final_state == hierarchy.epochs@[k + 1].initial_state
        &&& hierarchy.epochs@[k].macro_state_after.value()
            == hierarchy.epochs@[k + 1].macro_state_before.value()
    } by {
        assert(epoch_of(context, trace, k as nat, hierarchy.epochs@[k]));
        assert(epoch_of(context, trace, (k + 1) as nat, hierarchy.epochs@[k + 1]));
        assert(iteration_count > 0);
        assert(64 * (k + 1) <= iteration_count - 1);
    }
    let last = count - 1;
    assert(epoch_of(context, trace, last as nat, hierarchy.epochs@[last]));
    if iteration_count > 0 {
        assert(64 * last <= iteration_count - 1);
        assert(iteration_count - 64 * last <= 64);
    }
}


/// The hierarchy hashes are SHA3-256 of their own ASCII separator, then what
/// they cover: the epoch fields in order, one commitment for a leaf, or the
/// left child then the right child for a parent.
pub proof fn lemma_hierarchy_hash_preimages(epoch: StormEpochV2, commitment: Seq<u8>, left: Seq<u8>, right: Seq<u8>)
    ensures
        epoch_commitment_spec(epoch) == crate::digest_v1::sha3_256_spec(seq![0x41u8, 0x55, 0x52, 0x41, 0x5f, 0x53, 0x54, 0x4f, 0x52, 0x4d, 0x5f, 0x45, 0x50, 0x4f, 0x43, 0x48, 0x5f, 0x43, 0x4f, 0x4d, 0x4d, 0x49, 0x54, 0x4d, 0x45, 0x4e, 0x54, 0x5f, 0x56, 0x32] + (u64_le(epoch.epoch_index) + u64_le(epoch.start_step) + u64_le(epoch.transition_count) + epoch.initial_state.x@ + epoch.initial_state.y@ + epoch.final_state.x@ + epoch.final_state.y@ + epoch.epoch_trace_root@)),
        hierarchy_leaf_spec(commitment) == crate::digest_v1::sha3_256_spec(seq![0x41u8, 0x55, 0x52, 0x41, 0x5f, 0x53, 0x54, 0x4f, 0x52, 0x4d, 0x5f, 0x48, 0x49, 0x45, 0x52, 0x41, 0x52, 0x43, 0x48, 0x59, 0x5f, 0x4c, 0x45, 0x41, 0x46, 0x5f, 0x56, 0x32] + (commitment)),
        hierarchy_parent_spec(left, right) == crate::digest_v1::sha3_256_spec(seq![0x41u8, 0x55, 0x52, 0x41, 0x5f, 0x53, 0x54, 0x4f, 0x52, 0x4d, 0x5f, 0x48, 0x49, 0x45, 0x52, 0x41, 0x52, 0x43, 0x48, 0x59, 0x5f, 0x50, 0x41, 0x52, 0x45, 0x4e, 0x54, 0x5f, 0x56, 0x32] + (left + right)),
{
    assert(AURA_STORM_EPOCH_COMMITMENT_V2_DOMAIN@ =~= seq![0x41u8, 0x55, 0x52, 0x41, 0x5f, 0x53, 0x54, 0x4f, 0x52, 0x4d, 0x5f, 0x45, 0x50, 0x4f, 0x43, 0x48, 0x5f, 0x43, 0x4f, 0x4d, 0x4d, 0x49, 0x54, 0x4d, 0x45, 0x4e, 0x54, 0x5f, 0x56, 0x32]);
    assert(AURA_STORM_HIERARCHY_LEAF_V2_DOMAIN@ =~= seq![0x41u8, 0x55, 0x52, 0x41, 0x5f, 0x53, 0x54, 0x4f, 0x52, 0x4d, 0x5f, 0x48, 0x49, 0x45, 0x52, 0x41, 0x52, 0x43, 0x48, 0x59, 0x5f, 0x4c, 0x45, 0x41, 0x46, 0x5f, 0x56, 0x32]);
    assert(AURA_STORM_HIERARCHY_PARENT_V2_DOMAIN@ =~= seq![0x41u8, 0x55, 0x52, 0x41, 0x5f, 0x53, 0x54, 0x4f, 0x52, 0x4d, 0x5f, 0x48, 0x49, 0x45, 0x52, 0x41, 0x52, 0x43, 0x48, 0x59, 0x5f, 0x50, 0x41, 0x52, 0x45, 0x4e, 0x54, 0x5f, 0x56, 0x32]);
    assert(seq![0x41u8, 0x55, 0x52, 0x41, 0x5f, 0x53, 0x54, 0x4f, 0x52, 0x4d, 0x5f, 0x45, 0x50, 0x4f, 0x43, 0x48, 0x5f, 0x43, 0x4f, 0x4d, 0x4d, 0x49, 0x54, 0x4d, 0x45, 0x4e, 0x54, 0x5f, 0x56, 0x32] + u64_le(epoch.epoch_index) + u64_le(epoch.start_step) + u64_le(epoch.transition_count)
        + storm_row_spec(epoch.initial_state) + storm_row_spec(epoch.final_state) + epoch.epoch_trace_root@
        =~= seq![0x41u8, 0x55, 0x52, 0x41, 0x5f, 0x53, 0x54, 0x4f, 0x52, 0x4d, 0x5f, 0x45, 0x50, 0x4f, 0x43, 0x48, 0x5f, 0x43, 0x4f, 0x4d, 0x4d, 0x49, 0x54, 0x4d, 0x45, 0x4e, 0x54, 0x5f, 0x56, 0x32] + (u64_le(epoch.epoch_index) + u64_le(epoch.start_step) + u64_le(epoch.transition_count)
        + epoch.initial_state.x@ + epoch.initial_state.y@ + epoch.final_state.x@ + epoch.final_state.y@
        + epoch.epoch_trace_root@));
    assert(seq![0x41u8, 0x55, 0x52, 0x41, 0x5f, 0x53, 0x54, 0x4f, 0x52, 0x4d, 0x5f, 0x48, 0x49, 0x45, 0x52, 0x41, 0x52, 0x43, 0x48, 0x59, 0x5f, 0x50, 0x41, 0x52, 0x45, 0x4e, 0x54, 0x5f, 0x56, 0x32] + left + right =~= seq![0x41u8, 0x55, 0x52, 0x41, 0x5f, 0x53, 0x54, 0x4f, 0x52, 0x4d, 0x5f, 0x48, 0x49, 0x45, 0x52, 0x41, 0x52, 0x43, 0x48, 0x59, 0x5f, 0x50, 0x41, 0x52, 0x45, 0x4e, 0x54, 0x5f, 0x56, 0x32] + (left + right));
}

} // verus!
