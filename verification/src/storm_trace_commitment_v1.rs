//! The Storm trace commitment: a SHA3-256 Merkle tree over the row encodings
//! of the trace, where a level of odd length pairs its last node with itself.

use crate::digest_v1::{sha3_256_bytes, sha3_256_spec};
use crate::storm_state_v1::{storm_row_spec, StormState521V1};
use vstd::prelude::*;

verus! {

pub type StormTraceRootV1 = [u8; 32];

/// The parent of two nodes: SHA3-256 of their concatenation.
pub open spec fn merkle_parent_spec(left: Seq<u8>, right: Seq<u8>) -> Seq<u8> {
    sha3_256_spec(left + right)
}

/// The next level up: node `k` is the parent of nodes `2k` and `2k + 1`, where
/// a missing right node is the left node again.
pub open spec fn merkle_level_up(level: Seq<Seq<u8>>) -> Seq<Seq<u8>> {
    Seq::new(
        ((level.len() + 1) / 2) as nat,
        |k: int|
            merkle_parent_spec(
                level[2 * k],
                if 2 * k + 1 < level.len() {
                    level[2 * k + 1]
                } else {
                    level[2 * k]
                },
            ),
    )
}

/// The root over a non-empty level: its only node, or the root of the level
/// above it.
pub open spec fn merkle_root_spec(level: Seq<Seq<u8>>) -> Seq<u8>
    decreases level.len(),
{
    if level.len() <= 1 {
        level[0]
    } else {
        merkle_root_spec(merkle_level_up(level))
    }
}

/// The leaves over a sequence of rows.
pub open spec fn row_leaves(rows: Seq<Seq<u8>>) -> Seq<Seq<u8>> {
    rows.map_values(|row: Seq<u8>| sha3_256_spec(row))
}

/// The commitment to a Storm trace.
pub open spec fn storm_trace_root_spec(trace: Seq<StormState521V1>) -> Seq<u8> {
    merkle_root_spec(row_leaves(trace.map_values(|s: StormState521V1| storm_row_spec(s))))
}

/// The leaf of a row: SHA3-256 of its 132 bytes.
pub fn storm_leaf_hash(row_bytes: &[u8; 132]) -> (leaf: [u8; 32])
    ensures
        leaf@ == sha3_256_spec(row_bytes@),
{
    sha3_256_bytes(row_bytes)
}

/// The parent of two nodes.
pub fn merkle_parent(left: &[u8; 32], right: &[u8; 32]) -> (parent: [u8; 32])
    ensures
        parent@ == merkle_parent_spec(left@, right@),
{
    let mut bytes = [0u8; 64];
    let mut index: usize = 0;
    while index < 32
        invariant
            0 <= index <= 32,
            bytes@.len() == 64,
            forall|j: int| 0 <= j < index ==> bytes@[j] == left@[j],
        decreases 32 - index,
    {
        bytes[index] = left[index];
        index += 1;
    }
    while index < 64
        invariant
            32 <= index <= 64,
            bytes@.len() == 64,
            forall|j: int| 0 <= j < 32 ==> bytes@[j] == left@[j],
            forall|j: int| 32 <= j < index ==> bytes@[j] == right@[j - 32],
        decreases 64 - index,
    {
        bytes[index] = right[index - 32];
        index += 1;
    }
    proof {
        assert(bytes@ =~= left@ + right@);
    }
    sha3_256_bytes(&bytes)
}

/// The views of a vector of nodes.
pub open spec fn node_views(level: Seq<[u8; 32]>) -> Seq<Seq<u8>> {
    level.map_values(|node: [u8; 32]| node@)
}

/// One level up from `level`.
fn merkle_next_level(level: &Vec<[u8; 32]>) -> (next: Vec<[u8; 32]>)
    ensures
        next@.len() == (level@.len() + 1) / 2,
        node_views(next@) == merkle_level_up(node_views(level@)),
{
    let ghost target = merkle_level_up(node_views(level@));
    let half = level.len() / 2 + level.len() % 2;
    let mut next: Vec<[u8; 32]> = Vec::new();
    let mut k: usize = 0;
    while k < half
        invariant
            half == (level@.len() + 1) / 2,
            level@.len() == level.len(),
            0 <= k <= half,
            next@.len() == k,
            target == merkle_level_up(node_views(level@)),
            forall|j: int| 0 <= j < next@.len() ==> #[trigger] next@[j]@ == target[j],
        decreases half - k,
    {
        assert(2 * k < level.len());
        let index = 2 * k;
        let left = level[index];
        let right = if index + 1 < level.len() {
            level[index + 1]
        } else {
            level[index]
        };
        let parent = merkle_parent(&left, &right);
        proof {
            assert(target[k as int] == merkle_parent_spec(left@, right@));
        }
        next.push(parent);
        k += 1;
    }
    proof {
        assert(node_views(next@) =~= target);
    }
    next
}

/// The Merkle root over the leaves of the given rows.
pub fn compute_storm_trace_root_from_rows(rows: &[[u8; 132]]) -> (root: [u8; 32])
    requires
        rows@.len() > 0,
    ensures
        root@ == merkle_root_spec(row_leaves(node_rows(rows@))),
{
    let mut level: Vec<[u8; 32]> = Vec::new();
    let mut index: usize = 0;
    while index < rows.len()
        invariant
            0 <= index <= rows@.len(),
            level@.len() == index,
            forall|k: int| 0 <= k < index ==> #[trigger] level@[k]@ == sha3_256_spec(rows@[k]@),
        decreases rows@.len() - index,
    {
        level.push(storm_leaf_hash(&rows[index]));
        index += 1;
    }
    proof {
        assert(node_views(level@) =~= row_leaves(node_rows(rows@)));
    }
    while level.len() > 1
        invariant
            level@.len() >= 1,
            merkle_root_spec(node_views(level@)) == merkle_root_spec(row_leaves(node_rows(rows@))),
        decreases level@.len(),
    {
        let next = merkle_next_level(&level);
        level = next;
    }
    level[0]
}

/// The views of a sequence of rows.
pub open spec fn node_rows(rows: Seq<[u8; 132]>) -> Seq<Seq<u8>> {
    rows.map_values(|row: [u8; 132]| row@)
}

/// The Merkle root over the row encodings of a non-empty trace.
pub fn compute_storm_trace_root(trace: &[StormState521V1]) -> (root: [u8; 32])
    requires
        trace@.len() > 0,
    ensures
        root@ == storm_trace_root_spec(trace@),
{
    let mut rows: Vec<[u8; 132]> = Vec::new();
    let mut index: usize = 0;
    while index < trace.len()
        invariant
            0 <= index <= trace@.len(),
            rows@.len() == index,
            forall|k: int| 0 <= k < index ==> #[trigger] rows@[k]@ == storm_row_spec(trace@[k]),
        decreases trace@.len() - index,
    {
        rows.push(trace[index].encode_row_bytes());
        index += 1;
    }
    proof {
        assert(node_rows(rows@) =~= trace@.map_values(|s: StormState521V1| storm_row_spec(s)));
    }
    compute_storm_trace_root_from_rows(rows.as_slice())
}


/// A parent is SHA3-256 of its left child followed by its right child; node
/// `k` of the level above is the parent of nodes `2k` and `2k + 1`, or of node
/// `2k` with itself when the level ends there.
pub proof fn lemma_merkle_level_up_pairs_in_order(level: Seq<Seq<u8>>, k: int)
    requires
        0 <= 2 * k < level.len(),
    ensures
        merkle_level_up(level).len() == (level.len() + 1) / 2,
        2 * k + 1 < level.len() ==> merkle_level_up(level)[k] == sha3_256_spec(
            level[2 * k] + level[2 * k + 1],
        ),
        2 * k + 1 == level.len() ==> merkle_level_up(level)[k] == sha3_256_spec(
            level[2 * k] + level[2 * k],
        ),
{
}

/// The root of a trace of one, two or three states: the leaf of the only
/// row; the parent of the two leaves; the parent of the first pair's parent
/// and of the third leaf paired with itself. Each leaf is SHA3-256 of the
/// row, `x` then `y`.
pub proof fn lemma_storm_trace_root_small(s0: StormState521V1, s1: StormState521V1, s2: StormState521V1)
    ensures
        storm_trace_root_spec(seq![s0]) == sha3_256_spec(s0.x@ + s0.y@),
        storm_trace_root_spec(seq![s0, s1]) == sha3_256_spec(
            sha3_256_spec(s0.x@ + s0.y@) + sha3_256_spec(s1.x@ + s1.y@),
        ),
        storm_trace_root_spec(seq![s0, s1, s2]) == sha3_256_spec(
            sha3_256_spec(sha3_256_spec(s0.x@ + s0.y@) + sha3_256_spec(s1.x@ + s1.y@))
                + sha3_256_spec(sha3_256_spec(s2.x@ + s2.y@) + sha3_256_spec(s2.x@ + s2.y@)),
        ),
{
    let l0 = sha3_256_spec(s0.x@ + s0.y@);
    let l1 = sha3_256_spec(s1.x@ + s1.y@);
    let l2 = sha3_256_spec(s2.x@ + s2.y@);
    let one = seq![s0].map_values(|s: StormState521V1| storm_row_spec(s));
    let two = seq![s0, s1].map_values(|s: StormState521V1| storm_row_spec(s));
    let three = seq![s0, s1, s2].map_values(|s: StormState521V1| storm_row_spec(s));
    assert(row_leaves(one) =~= seq![l0]);
    assert(row_leaves(two) =~= seq![l0, l1]);
    assert(row_leaves(three) =~= seq![l0, l1, l2]);
    assert(merkle_root_spec(seq![l0]) == l0);
    assert(merkle_level_up(seq![l0, l1]) =~= seq![sha3_256_spec(l0 + l1)]);
    assert(merkle_root_spec(seq![sha3_256_spec(l0 + l1)]) == sha3_256_spec(l0 + l1));
    assert(merkle_root_spec(seq![l0, l1]) == sha3_256_spec(l0 + l1));
    let up = merkle_level_up(seq![l0, l1, l2]);
    assert(up =~= seq![sha3_256_spec(l0 + l1), sha3_256_spec(l2 + l2)]);
    let top = sha3_256_spec(sha3_256_spec(l0 + l1) + sha3_256_spec(l2 + l2));
    assert(merkle_level_up(up) =~= seq![top]);
    assert(merkle_root_spec(seq![top]) == top);
    assert(merkle_root_spec(up) == top);
    assert(merkle_root_spec(seq![l0, l1, l2]) == top);
}

} // verus!
