//! A Merkle commitment over the rows of a cat-map trace, with openings of
//! single rows and their verification.
//!
//! Leaves are domain-separated SHA-256 hashes of the row index and the row;
//! each level pairs neighbours, an odd last node being paired with itself.

use crate::dcm_air_v1::{copy_trace, DcmAirTraceV1};
use crate::dcm_v1::{dcm521_state_bytes, DcmState521V1};
use crate::digest_v1::{sha256_domain_separated, sha256_domain_separated_spec};
use crate::encoding_v1::{append_bytes, u64_le, u64_to_le_bytes};
use vstd::prelude::*;

verus! {

pub const STARK_TRACE_COMMITMENT_VERSION_V1: u8 = 1;

/// `"AURA_DCM_STARK_TRACE_V1_LEAF"`.
pub const AURA_DCM_STARK_TRACE_V1_LEAF_DOMAIN_SEPARATOR: [u8; 28] = [0x41, 0x55, 0x52, 0x41, 0x5f, 0x44, 0x43, 0x4d, 0x5f, 0x53, 0x54, 0x41, 0x52, 0x4b, 0x5f, 0x54, 0x52, 0x41, 0x43, 0x45, 0x5f, 0x56, 0x31, 0x5f, 0x4c, 0x45, 0x41, 0x46];

/// `"AURA_DCM_STARK_TRACE_V1_NODE"`.
pub const AURA_DCM_STARK_TRACE_V1_NODE_DOMAIN_SEPARATOR: [u8; 28] = [0x41, 0x55, 0x52, 0x41, 0x5f, 0x44, 0x43, 0x4d, 0x5f, 0x53, 0x54, 0x41, 0x52, 0x4b, 0x5f, 0x54, 0x52, 0x41, 0x43, 0x45, 0x5f, 0x56, 0x31, 0x5f, 0x4e, 0x4f, 0x44, 0x45];

/// The leaf of row `index`.
pub open spec fn trace_leaf_spec(index: u64, row: DcmState521V1) -> Seq<u8> {
    sha256_domain_separated_spec(
        AURA_DCM_STARK_TRACE_V1_LEAF_DOMAIN_SEPARATOR@,
        u64_le(index) + dcm521_state_bytes(row),
    )
}

/// The node over two children.
pub open spec fn trace_node_spec(left: Seq<u8>, right: Seq<u8>) -> Seq<u8> {
    sha256_domain_separated_spec(AURA_DCM_STARK_TRACE_V1_NODE_DOMAIN_SEPARATOR@, left + right)
}

/// The leaves of a trace, one per row.
pub open spec fn trace_leaves(rows: Seq<DcmState521V1>) -> Seq<Seq<u8>> {
    Seq::new(rows.len(), |i: int| trace_leaf_spec(i as u64, rows[i]))
}

/// The right partner of node `2 * j`: its neighbour, or itself at the odd end.
pub open spec fn right_partner(level: Seq<Seq<u8>>, j: int) -> Seq<u8> {
    if 2 * j + 1 < level.len() {
        level[2 * j + 1]
    } else {
        level[2 * j]
    }
}

/// The level above: node `j` hashes nodes `2j` and its right partner.
pub open spec fn level_up(level: Seq<Seq<u8>>) -> Seq<Seq<u8>> {
    Seq::new(
        ((level.len() + 1) / 2) as nat,
        |j: int| trace_node_spec(level[2 * j], right_partner(level, j)),
    )
}

/// The level `k` steps above.
pub open spec fn level_at(level: Seq<Seq<u8>>, k: nat) -> Seq<Seq<u8>>
    decreases k,
{
    if k == 0 {
        level
    } else {
        level_at(level_up(level), (k - 1) as nat)
    }
}

/// The number of levels above the leaves.
pub open spec fn tree_height(level: Seq<Seq<u8>>) -> nat
    decreases level.len(),
{
    if level.len() <= 1 {
        0
    } else {
        1 + tree_height(level_up(level))
    }
}

/// The height of a tree over `count` leaves.
pub open spec fn height_of_count(count: nat) -> nat
    decreases count,
{
    if count <= 1 {
        0
    } else {
        1 + height_of_count(((count + 1) / 2) as nat)
    }
}

/// The root: the single node left at the top.
pub open spec fn merkle_root(level: Seq<Seq<u8>>) -> Seq<u8>
    decreases level.len(),
{
    if level.len() <= 1 {
        level[0]
    } else {
        merkle_root(level_up(level))
    }
}

/// The sibling of node `index` in its level.
pub open spec fn sibling_of(level: Seq<Seq<u8>>, index: int) -> Seq<u8> {
    if index % 2 == 0 {
        if index + 1 < level.len() {
            level[index + 1]
        } else {
            level[index]
        }
    } else {
        level[index - 1]
    }
}

/// The siblings on the way from node `index` to the root, lowest first.
pub open spec fn merkle_path(level: Seq<Seq<u8>>, index: int) -> Seq<Seq<u8>>
    decreases level.len(),
{
    if level.len() <= 1 {
        Seq::empty()
    } else {
        seq![sibling_of(level, index)] + merkle_path(level_up(level), index / 2)
    }
}

/// The hash reached from `hash` at position `index` by folding in the
/// siblings, lowest first.
pub open spec fn fold_path(hash: Seq<u8>, index: int, siblings: Seq<Seq<u8>>) -> Seq<u8>
    decreases siblings.len(),
{
    if siblings.len() == 0 {
        hash
    } else {
        let next = if index % 2 == 0 {
            trace_node_spec(hash, siblings[0])
        } else {
            trace_node_spec(siblings[0], hash)
        };
        fold_path(next, index / 2, siblings.skip(1))
    }
}

/// Folding the path of any node of a level reaches the root of the level,
/// and the path is as long as the tree is high.
pub proof fn lemma_path_reaches_root(level: Seq<Seq<u8>>, index: int)
    requires
        0 <= index < level.len(),
    ensures
        fold_path(level[index], index, merkle_path(level, index)) == merkle_root(level),
        merkle_path(level, index).len() == tree_height(level),
    decreases level.len(),
{
    if level.len() > 1 {
        let up = level_up(level);
        let j = index / 2;
        let path = merkle_path(level, index);
        assert(path.skip(1) =~= merkle_path(up, j));
        if index % 2 == 0 {
            assert(2 * j == index);
        } else {
            assert(2 * j + 1 == index);
        }
        assert(up[j] == (if index % 2 == 0 {
            trace_node_spec(level[index], path[0])
        } else {
            trace_node_spec(path[0], level[index])
        }));
        lemma_path_reaches_root(up, j);
    }
}

/// A level and the one above have lengths `n` and `(n + 1) / 2`.
pub proof fn lemma_height_of_count(level: Seq<Seq<u8>>)
    ensures
        tree_height(level) == height_of_count(level.len()),
    decreases level.len(),
{
    if level.len() > 1 {
        lemma_height_of_count(level_up(level));
    }
}

/// The level above level `k` is level `k + 1`.
pub proof fn lemma_level_at_succ(level: Seq<Seq<u8>>, k: nat)
    ensures
        level_at(level, k + 1) == level_up(level_at(level, k)),
    decreases k,
{
    let up = level_up(level);
    assert(level_at(level, k + 1) == level_at(up, k));
    if k > 0 {
        lemma_level_at_succ(up, (k - 1) as nat);
        assert(level_at(level, k) == level_at(up, (k - 1) as nat));
    } else {
        assert(level_at(up, 0) == up);
    }
}

/// Climbing to the top: the height is the first level of length at most one,
/// whose only node is the root; path and root of each level below are those
/// of the level above.
pub proof fn lemma_level_at_top(level: Seq<Seq<u8>>, k: nat)
    requires
        level.len() > 0,
        forall|m: nat| m < k ==> (#[trigger] level_at(level, m)).len() > 1,
    ensures
        k <= tree_height(level),
        level_at(level, k).len() > 0,
        level_at(level, k).len() <= 1 ==> k == tree_height(level) && level_at(level, k)[0]
            == merkle_root(level),
        merkle_root(level_at(level, k)) == merkle_root(level),
    decreases k,
{
    if k > 0 {
        assert(level_at(level, 0) == level);
        let up = level_up(level);
        assert forall|m: nat| m < (k - 1) as nat implies (#[trigger] level_at(up, m)).len() > 1 by {
            assert(level_at(level, m + 1) == level_at(up, m));
        }
        lemma_level_at_top(up, (k - 1) as nat);
    }
}

/// The commitment: version, leaf count, height and root.
#[derive(Clone, Copy, Debug, PartialEq, Eq)]
pub struct StarkTraceCommitmentV1 {
    pub commitment_version: u8,
    pub leaf_count: u64,
    pub tree_height: u64,
    pub root: [u8; 32],
}

/// An opening of one row: the row and the siblings on its path.
#[derive(Clone, Debug, PartialEq, Eq)]
pub struct StarkTraceMerkleOpeningV1 {
    pub row_index: u64,
    pub row_value: DcmState521V1,
    pub sibling_hashes: Vec<[u8; 32]>,
}

/// A committed trace with every level of its tree.
#[derive(Debug)]
pub struct StarkTraceCommitmentTreeV1 {
    trace: DcmAirTraceV1,
    levels: Vec<Vec<[u8; 32]>>,
}

/// Why a commitment, an opening or a verification fails.
#[derive(Clone, Copy, Debug, PartialEq, Eq)]
pub enum StarkTraceCommitmentErrorV1 {
    EmptyTrace,
    RowIndexOutOfRange { row_index: u64, row_count: u64 },
    OpeningPathLengthMismatch { expected: u64, actual: u64 },
}

/// The byte strings of a level of hashes.
pub open spec fn hashes_view(level: Seq<[u8; 32]>) -> Seq<Seq<u8>> {
    level.map_values(|hash: [u8; 32]| hash@)
}

/// The byte strings of the siblings of an opening.
pub open spec fn opening_siblings(opening: StarkTraceMerkleOpeningV1) -> Seq<Seq<u8>> {
    hashes_view(opening.sibling_hashes@)
}

impl StarkTraceCommitmentTreeV1 {
    /// The rows committed to.
    pub closed spec fn rows(self) -> Seq<DcmState521V1> {
        self.trace@
    }

    /// The tree holds a non-empty trace and, level by level, the leaves of
    /// its rows and every level above them up to the root.
    #[verifier::type_invariant]
    closed spec fn well_formed(self) -> bool {
        let leaves = trace_leaves(self.trace@);
        &&& self.trace@.len() > 0
        &&& self.levels@.len() == tree_height(leaves) + 1
        &&& forall|k: int|
            0 <= k < self.levels@.len() ==> hashes_view((#[trigger] self.levels@[k])@) == level_at(
                leaves,
                k as nat,
            )
    }
}

fn hash_trace_leaf_v1(row_index: u64, row_value: &DcmState521V1) -> (leaf: [u8; 32])
    ensures
        leaf@ == trace_leaf_spec(row_index, *row_value),
{
    let domain = AURA_DCM_STARK_TRACE_V1_LEAF_DOMAIN_SEPARATOR;
    let index_bytes = u64_to_le_bytes(row_index);
    let row_bytes = row_value.canonical_bytes();
    let mut payload: Vec<u8> = Vec::new();
    append_bytes(&mut payload, &index_bytes);
    append_bytes(&mut payload, &row_bytes);
    sha256_domain_separated(&domain, payload.as_slice())
}

fn hash_trace_node_v1(left_child: &[u8; 32], right_child: &[u8; 32]) -> (node: [u8; 32])
    ensures
        node@ == trace_node_spec(left_child@, right_child@),
{
    let domain = AURA_DCM_STARK_TRACE_V1_NODE_DOMAIN_SEPARATOR;
    let mut payload: Vec<u8> = Vec::new();
    append_bytes(&mut payload, left_child);
    append_bytes(&mut payload, right_child);
    sha256_domain_separated(&domain, payload.as_slice())
}

/// The level above a level of hashes.
fn hash_level_up_v1(level: &Vec<[u8; 32]>) -> (next: Vec<[u8; 32]>)
    requires
        level@.len() > 0,
    ensures
        hashes_view(next@) == level_up(hashes_view(level@)),
{
    let ghost view = hashes_view(level@);
    let mut next: Vec<[u8; 32]> = Vec::new();
    let count = level.len() / 2 + level.len() % 2;
    let mut node_index: usize = 0;
    while node_index < count
        invariant
            count == (level@.len() + 1) / 2,
            node_index <= count,
            view == hashes_view(level@),
            next@.len() == node_index,
            forall|j: int|
                0 <= j < next@.len() ==> (#[trigger] next@[j])@ == trace_node_spec(
                    view[2 * j],
                    right_partner(view, j),
                ),
        decreases count - node_index,
    {
        assert(2 * node_index < level.len());
        let pair_index = 2 * node_index;
        let left = level[pair_index];
        let right = if pair_index + 1 < level.len() {
            level[pair_index + 1]
        } else {
            level[pair_index]
        };
        let node = hash_trace_node_v1(&left, &right);
        next.push(node);
        node_index += 1;
    }
    proof {
        assert(hashes_view(next@) =~= level_up(view));
    }
    next
}

/// Builds the tree over a non-empty trace: the leaves, then each level above
/// up to the root.
pub fn build_stark_trace_commitment_tree_v1(trace: &DcmAirTraceV1) -> (result: Result<StarkTraceCommitmentTreeV1, StarkTraceCommitmentErrorV1>)
    ensures
        trace@.len() == 0 ==> result == Err::<StarkTraceCommitmentTreeV1, StarkTraceCommitmentErrorV1>(
            StarkTraceCommitmentErrorV1::EmptyTrace,
        ),
        trace@.len() > 0 ==> (result matches Ok(tree) && tree.rows() == trace@),
{
    if trace.row_count() == 0 {
        return Err(StarkTraceCommitmentErrorV1::EmptyTrace);
    }
    let rows = trace.rows();
    let ghost leaves = trace_leaves(trace@);
    let mut current_level: Vec<[u8; 32]> = Vec::new();
    let mut row_index: usize = 0;
    while row_index < rows.len()
        invariant
            0 <= row_index <= rows@.len(),
            rows@ == trace@,
            leaves == trace_leaves(trace@),
            current_level@.len() == row_index,
            forall|i: int|
                0 <= i < row_index ==> (#[trigger] current_level@[i])@ == leaves[i],
        decreases rows@.len() - row_index,
    {
        let leaf = hash_trace_leaf_v1(row_index as u64, &rows[row_index]);
        current_level.push(leaf);
        row_index += 1;
    }
    proof {
        assert(hashes_view(current_level@) =~= leaves);
        assert(level_at(leaves, 0) == leaves);
    }
    let mut levels: Vec<Vec<[u8; 32]>> = Vec::new();
    levels.push(current_level.clone());
    while current_level.len() > 1
        invariant
            leaves.len() > 0,
            levels@.len() >= 1,
            hashes_view(current_level@) == level_at(leaves, (levels@.len() - 1) as nat),
            forall|k: int|
                0 <= k < levels@.len() ==> hashes_view((#[trigger] levels@[k])@) == level_at(
                    leaves,
                    k as nat,
                ),
            forall|m: nat| m < levels@.len() - 1 ==> (#[trigger] level_at(leaves, m)).len() > 1,
        decreases current_level@.len(),
    {
        let ghost k = (levels@.len() - 1) as nat;
        proof {
            lemma_level_at_top(leaves, k);
            lemma_level_at_succ(leaves, k);
        }
        let next_level = hash_level_up_v1(&current_level);
        proof {
            assert(hashes_view(next_level@).len() == next_level@.len());
            assert(hashes_view(current_level@).len() == current_level@.len());
        }
        levels.push(next_level.clone());
        current_level = next_level;
    }
    proof {
        lemma_level_at_top(leaves, (levels@.len() - 1) as nat);
    }
    Ok(StarkTraceCommitmentTreeV1 { trace: copy_trace(trace), levels })
}

/// Below the height every level has at least two nodes; at the height the
/// level is the root alone.
pub proof fn lemma_levels_below_height(level: Seq<Seq<u8>>, m: nat)
    requires
        level.len() > 0,
        m <= tree_height(level),
    ensures
        m < tree_height(level) ==> level_at(level, m).len() > 1,
        m == tree_height(level) ==> level_at(level, m).len() == 1,
    decreases m,
{
    if m == 0 {
        assert(level_at(level, 0) == level);
    } else {
        let up = level_up(level);
        assert(level_at(level, m) == level_at(up, (m - 1) as nat));
        lemma_levels_below_height(up, (m - 1) as nat);
    }
}

/// Every row of a committed trace opens to a path that folds to the root,
/// and the path is as long as the tree is high.
pub proof fn lemma_opened_row_verifies(rows: Seq<DcmState521V1>, index: int)
    requires
        0 <= index < rows.len(),
    ensures
        fold_path(
            trace_leaf_spec(index as u64, rows[index]),
            index,
            merkle_path(trace_leaves(rows), index),
        ) == merkle_root(trace_leaves(rows)),
        merkle_path(trace_leaves(rows), index).len() == height_of_count(rows.len()),
{
    let leaves = trace_leaves(rows);
    lemma_path_reaches_root(leaves, index);
    lemma_height_of_count(leaves);
}

/// The number of levels above `leaf_count` leaves.
pub fn derive_stark_trace_tree_height_from_leaf_count_v1(leaf_count: u64) -> (tree_height: u64)
    ensures
        tree_height == height_of_count(leaf_count as nat),
{
    let mut count = leaf_count;
    let mut height: u64 = 0;
    while count > 1
        invariant
            height + count <= leaf_count,
            height + height_of_count(count as nat) == height_of_count(leaf_count as nat),
        decreases count,
    {
        count = count / 2 + count % 2;
        height += 1;
    }
    height
}

impl StarkTraceCommitmentTreeV1 {
    /// The commitment: version, leaf count, height and root.
    pub fn commitment(&self) -> (commitment: StarkTraceCommitmentV1)
        ensures
            commitment.commitment_version == STARK_TRACE_COMMITMENT_VERSION_V1,
            commitment.leaf_count == self.rows().len(),
            commitment.tree_height == height_of_count(self.rows().len()),
            commitment.root@ == merkle_root(trace_leaves(self.rows())),
    {
        proof {
            use_type_invariant(self);
        }
        let ghost leaves = trace_leaves(self.trace@);
        let leaf_count = self.trace.row_count();
        let tree_height = derive_stark_trace_tree_height_from_leaf_count_v1(leaf_count);
        let top = self.levels.len() - 1;
        proof {
            lemma_height_of_count(leaves);
            lemma_levels_below_height(leaves, top as nat);
            assert forall|m: nat| m < top implies (#[trigger] level_at(leaves, m)).len() > 1 by {
                lemma_levels_below_height(leaves, m);
            }
            lemma_level_at_top(leaves, top as nat);
            assert(hashes_view(self.levels@[top as int]@) == level_at(leaves, top as nat));
        }
        let root = self.levels[top][0];
        StarkTraceCommitmentV1 {
            commitment_version: STARK_TRACE_COMMITMENT_VERSION_V1,
            leaf_count,
            tree_height,
            root,
        }
    }

    /// Opens row `row_index`: the row and the siblings on its path.
    pub fn open_row(&self, row_index: u64) -> (result: Result<StarkTraceMerkleOpeningV1, StarkTraceCommitmentErrorV1>)
        ensures
            row_index >= self.rows().len() ==> result == Err::<
                StarkTraceMerkleOpeningV1,
                StarkTraceCommitmentErrorV1,
            >(
                StarkTraceCommitmentErrorV1::RowIndexOutOfRange {
                    row_index,
                    row_count: self.rows().len() as u64,
                },
            ),
            row_index < self.rows().len() ==> (result matches Ok(opening) && opening.row_index
                == row_index && opening.row_value == self.rows()[row_index as int]
                && opening_siblings(opening) == merkle_path(
                trace_leaves(self.rows()),
                row_index as int,
            )),
    {
        proof {
            use_type_invariant(self);
        }
        let row_count = self.trace.row_count();
        if row_index >= row_count {
            return Err(StarkTraceCommitmentErrorV1::RowIndexOutOfRange { row_index, row_count });
        }
        let ghost leaves = trace_leaves(self.trace@);
        let row_slots = self.trace.rows().len();
        assert(row_index < row_slots);
        let row_value = match self.trace.row(row_index as usize) {
            Some(row) => row,
            None => {
                return Err(StarkTraceCommitmentErrorV1::RowIndexOutOfRange { row_index, row_count });
            },
        };
        let mut sibling_hashes: Vec<[u8; 32]> = Vec::new();
        let mut current_index: usize = row_index as usize;
        let top = self.levels.len() - 1;
        let mut level_index: usize = 0;
        proof {
            assert(level_at(leaves, 0) == leaves);
            assert(hashes_view(sibling_hashes@) + merkle_path(leaves, row_index as int) =~= merkle_path(
                leaves,
                row_index as int,
            ));
        }
        while level_index < top
            invariant
                leaves == trace_leaves(self.trace@),
                leaves.len() > 0,
                top == tree_height(leaves),
                self.levels@.len() == top + 1,
                forall|k: int|
                    0 <= k < self.levels@.len() ==> hashes_view((#[trigger] self.levels@[k])@)
                        == level_at(leaves, k as nat),
                level_index <= top,
                current_index < level_at(leaves, level_index as nat).len(),
                hashes_view(sibling_hashes@) + merkle_path(
                    level_at(leaves, level_index as nat),
                    current_index as int,
                ) == merkle_path(leaves, row_index as int),
            decreases top - level_index,
        {
            let ghost current = level_at(leaves, level_index as nat);
            proof {
                lemma_levels_below_height(leaves, level_index as nat);
                lemma_level_at_succ(leaves, level_index as nat);
                assert(hashes_view(self.levels@[level_index as int]@) == current);
            }
            let level = &self.levels[level_index];
            let sibling_index = if current_index % 2 == 0 {
                if current_index + 1 < level.len() {
                    current_index + 1
                } else {
                    current_index
                }
            } else {
                current_index - 1
            };
            let ghost before = hashes_view(sibling_hashes@);
            sibling_hashes.push(level[sibling_index]);
            proof {
                assert(hashes_view(sibling_hashes@) =~= before.push(sibling_of(current, current_index as int)));
                assert(merkle_path(current, current_index as int) == seq![sibling_of(current, current_index as int)]
                    + merkle_path(level_up(current), (current_index / 2) as int));
                assert(hashes_view(sibling_hashes@) + merkle_path(level_up(current), (current_index / 2) as int)
                    =~= before + merkle_path(current, current_index as int));
            }
            current_index = current_index / 2;
            level_index += 1;
        }
        proof {
            lemma_levels_below_height(leaves, top as nat);
            assert(hashes_view(sibling_hashes@) =~= hashes_view(sibling_hashes@) + merkle_path(
                level_at(leaves, top as nat),
                current_index as int,
            ));
        }
        Ok(StarkTraceMerkleOpeningV1 { row_index, row_value, sibling_hashes })
    }
}

/// Folds the opening's siblings into its leaf and returns the hash reached;
/// the path must be as long as the tree is high and the row in range.
pub fn verify_stark_trace_merkle_opening_v1(commitment: &StarkTraceCommitmentV1, opening: &StarkTraceMerkleOpeningV1) -> (result: Result<[u8; 32], StarkTraceCommitmentErrorV1>)
    ensures
        opening.sibling_hashes@.len() != commitment.tree_height ==> result == Err::<
            [u8; 32],
            StarkTraceCommitmentErrorV1,
        >(
            StarkTraceCommitmentErrorV1::OpeningPathLengthMismatch {
                expected: commitment.tree_height,
                actual: opening.sibling_hashes@.len() as u64,
            },
        ),
        opening.sibling_hashes@.len() == commitment.tree_height && opening.row_index
            >= commitment.leaf_count ==> result == Err::<[u8; 32], StarkTraceCommitmentErrorV1>(
            StarkTraceCommitmentErrorV1::RowIndexOutOfRange {
                row_index: opening.row_index,
                row_count: commitment.leaf_count,
            },
        ),
        opening.sibling_hashes@.len() == commitment.tree_height && opening.row_index
            < commitment.leaf_count ==> (result matches Ok(hash) && hash@ == fold_path(
            trace_leaf_spec(opening.row_index, opening.row_value),
            opening.row_index as int,
            opening_siblings(*opening),
        )),
{
    let path_len = opening.sibling_hashes.len() as u64;
    if path_len != commitment.tree_height {
        return Err(
            StarkTraceCommitmentErrorV1::OpeningPathLengthMismatch {
                expected: commitment.tree_height,
                actual: path_len,
            },
        );
    }
    if opening.row_index >= commitment.leaf_count {
        return Err(
            StarkTraceCommitmentErrorV1::RowIndexOutOfRange {
                row_index: opening.row_index,
                row_count: commitment.leaf_count,
            },
        );
    }
    let ghost siblings = opening_siblings(*opening);
    let ghost start = trace_leaf_spec(opening.row_index, opening.row_value);
    let mut current_hash = hash_trace_leaf_v1(opening.row_index, &opening.row_value);
    let mut current_index: u64 = opening.row_index;
    let mut position: usize = 0;
    proof {
        assert(siblings.skip(0) =~= siblings);
    }
    while position < opening.sibling_hashes.len()
        invariant
            siblings == opening_siblings(*opening),
            position <= siblings.len(),
            siblings.len() == opening.sibling_hashes@.len(),
            fold_path(current_hash@, current_index as int, siblings.skip(position as int))
                == fold_path(start, opening.row_index as int, siblings),
        decreases siblings.len() - position,
    {
        let sibling = opening.sibling_hashes[position];
        proof {
            let rest = siblings.skip(position as int);
            assert(rest[0] == sibling@);
            assert(rest.skip(1) =~= siblings.skip(position + 1));
        }
        if current_index % 2 == 0 {
            current_hash = hash_trace_node_v1(&current_hash, &sibling);
        } else {
            current_hash = hash_trace_node_v1(&sibling, &current_hash);
        }
        current_index = current_index / 2;
        position += 1;
    }
    proof {
        assert(siblings.skip(position as int).len() == 0);
    }
    Ok(current_hash)
}


/// A trace leaf is SHA-256 of `"AURA_DCM_STARK_TRACE_V1_LEAF"`, the row index as eight
/// little-endian bytes, then the row; a node is SHA-256 of
/// `"AURA_DCM_STARK_TRACE_V1_NODE"`, the left child, then the right child.
pub proof fn lemma_stark_trace_node_preimages(index: u64, row: DcmState521V1, left: Seq<u8>, right: Seq<u8>)
    ensures
        trace_leaf_spec(index, row) == crate::digest_v1::sha256_spec(seq![0x41u8, 0x55, 0x52, 0x41, 0x5f, 0x44, 0x43, 0x4d, 0x5f, 0x53, 0x54, 0x41, 0x52, 0x4b, 0x5f, 0x54, 0x52, 0x41, 0x43, 0x45, 0x5f, 0x56, 0x31, 0x5f, 0x4c, 0x45, 0x41, 0x46] + (u64_le(index) + row.x@ + row.y@)),
        trace_node_spec(left, right) == crate::digest_v1::sha256_spec(seq![0x41u8, 0x55, 0x52, 0x41, 0x5f, 0x44, 0x43, 0x4d, 0x5f, 0x53, 0x54, 0x41, 0x52, 0x4b, 0x5f, 0x54, 0x52, 0x41, 0x43, 0x45, 0x5f, 0x56, 0x31, 0x5f, 0x4e, 0x4f, 0x44, 0x45] + (left + right)),
{
    assert(AURA_DCM_STARK_TRACE_V1_LEAF_DOMAIN_SEPARATOR@ =~= seq![0x41u8, 0x55, 0x52, 0x41, 0x5f, 0x44, 0x43, 0x4d, 0x5f, 0x53, 0x54, 0x41, 0x52, 0x4b, 0x5f, 0x54, 0x52, 0x41, 0x43, 0x45, 0x5f, 0x56, 0x31, 0x5f, 0x4c, 0x45, 0x41, 0x46]);
    assert(AURA_DCM_STARK_TRACE_V1_NODE_DOMAIN_SEPARATOR@ =~= seq![0x41u8, 0x55, 0x52, 0x41, 0x5f, 0x44, 0x43, 0x4d, 0x5f, 0x53, 0x54, 0x41, 0x52, 0x4b, 0x5f, 0x54, 0x52, 0x41, 0x43, 0x45, 0x5f, 0x56, 0x31, 0x5f, 0x4e, 0x4f, 0x44, 0x45]);
    assert(seq![0x41u8, 0x55, 0x52, 0x41, 0x5f, 0x44, 0x43, 0x4d, 0x5f, 0x53, 0x54, 0x41, 0x52, 0x4b, 0x5f, 0x54, 0x52, 0x41, 0x43, 0x45, 0x5f, 0x56, 0x31, 0x5f, 0x4c, 0x45, 0x41, 0x46] + (u64_le(index) + dcm521_state_bytes(row)) =~= seq![0x41u8, 0x55, 0x52, 0x41, 0x5f, 0x44, 0x43, 0x4d, 0x5f, 0x53, 0x54, 0x41, 0x52, 0x4b, 0x5f, 0x54, 0x52, 0x41, 0x43, 0x45, 0x5f, 0x56, 0x31, 0x5f, 0x4c, 0x45, 0x41, 0x46] + (u64_le(index) + row.x@ + row.y@));
}

} // verus!
