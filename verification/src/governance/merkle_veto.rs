//! Merkle trees over the signals about a change, so that every node can
//! check that its signal was counted without seeing the others.
//!
//! A tree is built level by level: two neighbours hash to their parent,
//! and a node without a neighbour hashes with itself. An inclusion proof
//! is the list of the siblings on the way from a leaf to the root.

use vstd::prelude::*;
use vstd::string::*;
use crate::hashing::{sha256_hex, sha256_hex_of};

verus! {

/// The hash of a parent of two nodes.
pub open spec fn node_hash(left: Seq<char>, right: Seq<char>) -> Seq<char> {
    sha256_hex_of(left + right)
}

/// The level above a level: the parents of its pairs of neighbours.
pub open spec fn parent_level(level: Seq<Seq<char>>) -> Seq<Seq<char>> {
    Seq::new(
        ((level.len() + 1) / 2) as nat,
        |i: int|
            node_hash(
                level[2 * i],
                if 2 * i + 1 < level.len() {
                    level[2 * i + 1]
                } else {
                    level[2 * i]
                },
            ),
    )
}

/// The root above a level that is not empty.
pub open spec fn root_of(level: Seq<Seq<char>>) -> Seq<char>
    decreases level.len(),
{
    if level.len() <= 1 {
        level[0]
    } else {
        root_of(parent_level(level))
    }
}

/// The sibling of the node at a position of a level: its neighbour, and
/// itself where it has none.
pub open spec fn sibling_of(level: Seq<Seq<char>>, i: int) -> Seq<char> {
    if i % 2 == 1 {
        level[i - 1]
    } else if i + 1 < level.len() {
        level[i + 1]
    } else {
        level[i]
    }
}

/// The way from the node at a position of a level to the root: each
/// sibling, and whether it stands on the left.
pub open spec fn path_of(level: Seq<Seq<char>>, i: int) -> Seq<(Seq<char>, bool)>
    decreases level.len(),
{
    if level.len() <= 1 {
        Seq::empty()
    } else {
        seq![(sibling_of(level, i), i % 2 == 1)] + path_of(parent_level(level), i / 2)
    }
}

/// The hash that a way leads to from a given hash.
pub open spec fn climb(hash: Seq<char>, path: Seq<(Seq<char>, bool)>) -> Seq<char>
    decreases path.len(),
{
    if path.len() == 0 {
        hash
    } else {
        climb(
            if path[0].1 {
                node_hash(path[0].0, hash)
            } else {
                node_hash(hash, path[0].0)
            },
            path.drop_first(),
        )
    }
}

/// One step of an inclusion proof.
#[derive(Debug)]
pub struct ProofStep {
    /// The hash of the sibling.
    pub sibling: String,
    /// Whether the sibling stands on the left.
    pub sibling_on_left: bool,
}

/// The steps of a proof as mathematical data.
pub open spec fn steps(path: Seq<ProofStep>) -> Seq<(Seq<char>, bool)> {
    path.map_values(|s: ProofStep| (s.sibling@, s.sibling_on_left))
}

/// The texts of a list of hashes.
pub open spec fn hashes(level: Seq<String>) -> Seq<Seq<char>> {
    level.map_values(|s: String| s@)
}

/// An inclusion proof: the hash of a leaf, the way to the root, and the
/// root.
#[derive(Debug)]
pub struct MerkleProof {
    pub leaf_hash: String,
    pub path: Vec<ProofStep>,
    pub root_hash: String,
}

/// The hash of a parent of two nodes.
pub fn hash_pair(left: &str, right: &str) -> (hash: String)
    ensures
        hash@ == node_hash(left@, right@),
{
    let mut both = left.to_owned();
    both.append(right);
    sha256_hex(both.as_str())
}

/// The level above a level.
pub fn merkle_parent(level: &Vec<String>) -> (parent: Vec<String>)
    ensures
        hashes(parent@) == parent_level(hashes(level@)),
        parent@.len() == (level@.len() + 1) / 2,
{
    let mut parent: Vec<String> = Vec::new();
    let n: usize = level.len();
    let m: usize = n / 2 + n % 2;
    let mut k: usize = 0;
    let ghost target = parent_level(hashes(level@));
    while k < m
        invariant
            n == level@.len(),
            m == (n + 1) / 2,
            k <= m,
            parent@.len() == k,
            target == parent_level(hashes(level@)),
            forall|j: int| 0 <= j < k ==> (#[trigger] parent@[j])@ == target[j],
        decreases m - k,
    {
        let left = level[2 * k].as_str();
        let right = if 2 * k + 1 < n {
            level[2 * k + 1].as_str()
        } else {
            level[2 * k].as_str()
        };
        let hash = hash_pair(left, right);
        parent.push(hash);
        k = k + 1;
    }
    parent
}

/// The root above the leaves, nothing where there are no leaves.
pub fn merkle_root(leaves: &Vec<String>) -> (root: Option<String>)
    ensures
        match root {
            Some(hash) => leaves@.len() > 0 && hash@ == root_of(hashes(leaves@)),
            None => leaves@.len() == 0,
        },
{
    if leaves.len() == 0 {
        return None;
    }
    if leaves.len() == 1 {
        return Some(leaves[0].clone());
    }
    let mut level = merkle_parent(leaves);
    while level.len() > 1
        invariant
            level@.len() >= 1,
            root_of(hashes(level@)) == root_of(hashes(leaves@)),
        decreases level@.len(),
    {
        level = merkle_parent(&level);
    }
    Some(level[0].clone())
}

/// The way from the leaf at a position to the root.
pub fn merkle_path(leaves: &Vec<String>, index: usize) -> (path: Vec<ProofStep>)
    requires
        index < leaves@.len(),
    ensures
        steps(path@) == path_of(hashes(leaves@), index as int),
{
    let mut path: Vec<ProofStep> = Vec::new();
    if leaves.len() <= 1 {
        return path;
    }
    let first = sibling_step(leaves, index);
    path.push(first);
    let mut level = merkle_parent(leaves);
    let mut at: usize = index / 2;
    while level.len() > 1
        invariant
            at < level@.len(),
            path_of(hashes(leaves@), index as int) == steps(path@) + path_of(
                hashes(level@),
                at as int,
            ),
        decreases level@.len(),
    {
        let step = sibling_step(&level, at);
        path.push(step);
        level = merkle_parent(&level);
        at = at / 2;
    }
    path
}

fn sibling_step(level: &Vec<String>, at: usize) -> (step: ProofStep)
    requires
        at < level@.len(),
    ensures
        step.sibling@ == sibling_of(hashes(level@), at as int),
        step.sibling_on_left == (at % 2 == 1),
{
    let sibling = if at % 2 == 1 {
        level[at - 1].clone()
    } else if at + 1 < level.len() {
        level[at + 1].clone()
    } else {
        level[at].clone()
    };
    ProofStep { sibling, sibling_on_left: at % 2 == 1 }
}

/// The hash that a way leads to from a given hash.
pub fn climb_path(leaf: &str, path: &Vec<ProofStep>) -> (top: String)
    ensures
        top@ == climb(leaf@, steps(path@)),
{
    let mut current = leaf.to_owned();
    let mut i: usize = 0;
    proof {
        assert(steps(path@).subrange(0, steps(path@).len() as int) =~= steps(path@));
    }
    while i < path.len()
        invariant
            i <= path@.len(),
            climb(leaf@, steps(path@)) == climb(
                current@,
                steps(path@).subrange(i as int, path@.len() as int),
            ),
        decreases path@.len() - i,
    {
        let ghost rest = steps(path@).subrange(i as int, path@.len() as int);
        proof {
            assert(rest.drop_first() =~= steps(path@).subrange(i + 1, path@.len() as int));
        }
        let step = &path[i];
        current = if step.sibling_on_left {
            hash_pair(step.sibling.as_str(), current.as_str())
        } else {
            hash_pair(current.as_str(), step.sibling.as_str())
        };
        i = i + 1;
    }
    current
}

/// Whether a way leads from a leaf to a root.
pub fn verify_merkle_path(leaf: &str, path: &Vec<ProofStep>, root: &str) -> (valid: bool)
    ensures
        valid == (climb(leaf@, steps(path@)) == root@),
{
    let top = climb_path(leaf, path);
    crate::text::str_equal(top.as_str(), root)
}

/// The way from any node of a level leads to the root above the level.
pub proof fn law_path_leads_to_root(level: Seq<Seq<char>>, i: int)
    requires
        0 <= i < level.len(),
    ensures
        climb(level[i], path_of(level, i)) == root_of(level),
    decreases level.len(),
{
    if level.len() > 1 {
        let up = parent_level(level);
        let path = path_of(level, i);
        assert(path.drop_first() =~= path_of(up, i / 2));
        law_path_leads_to_root(up, i / 2);
    }
}

} // verus!
