//! Deterministic state-root commitments: a binary Merkle tree over hashed
//! entries that duplicates the last node of every odd-sized level.
use vstd::prelude::*;
use crate::hashing::{blake2b_256, blake2b_256_digest};

verus! {

/// FNV-1a offset basis.
pub open spec fn fnv_offset_basis() -> u32 {
    0x811c9dc5
}

/// FNV-1a prime.
pub open spec fn fnv_prime() -> u32 {
    0x01000193
}

/// One FNV-1a step: xor the byte in, then multiply modulo 2^32.
pub open spec fn fnv_step(state: u32, byte: u8) -> u32 {
    ((((state ^ (byte as u32)) as int) * fnv_prime()) % 0x1_0000_0000) as u32
}

/// The 32-bit FNV-1a hash of a byte sequence.
pub open spec fn fnv1a(s: Seq<u8>) -> u32
    decreases s.len(),
{
    if s.len() == 0 {
        fnv_offset_basis()
    } else {
        fnv_step(fnv1a(s.drop_last()), s.last())
    }
}

/// Byte `k` (big-endian, `0 <= k < 4`) of a 32-bit word.
pub open spec fn be_byte(w: u32, k: int) -> u8 {
    if k == 0 {
        (w >> 24u32) as u8
    } else if k == 1 {
        (w >> 16u32) as u8
    } else if k == 2 {
        (w >> 8u32) as u8
    } else {
        w as u8
    }
}

/// The 32-byte digest: the big-endian FNV-1a word repeated eight times.
pub open spec fn merkle_hash(value: Seq<u8>) -> Seq<u8> {
    Seq::new(32, |i: int| be_byte(fnv1a(value), i % 4))
}

/// The parent level of a Merkle level under hash `h`; an odd last node is
/// paired with itself.
pub open spec fn next_level(level: Seq<Seq<u8>>, h: spec_fn(Seq<u8>) -> Seq<u8>) -> Seq<Seq<u8>> {
    Seq::new(
        ((level.len() + 1) / 2) as nat,
        |i: int|
            h(
                level[2 * i] + if 2 * i + 1 < level.len() {
                    level[2 * i + 1]
                } else {
                    level[2 * i]
                },
            ),
    )
}

/// Fold levels up to the single root node.
pub open spec fn reduce_levels(level: Seq<Seq<u8>>, h: spec_fn(Seq<u8>) -> Seq<u8>) -> Seq<u8>
    decreases level.len(),
{
    if level.len() <= 1 {
        level[0]
    } else {
        reduce_levels(next_level(level, h), h)
    }
}

/// Every entry hashed with `h`: the leaves of the tree.
pub open spec fn hashed_leaves(entries: Seq<Seq<u8>>, h: spec_fn(Seq<u8>) -> Seq<u8>) -> Seq<Seq<u8>> {
    entries.map_values(|e: Seq<u8>| h(e))
}

/// The Merkle root of `entries` under hash `h` (all-zero when empty).
pub open spec fn merkle_root(entries: Seq<Seq<u8>>, h: spec_fn(Seq<u8>) -> Seq<u8>) -> Seq<u8> {
    if entries.len() == 0 {
        Seq::new(32, |i: int| 0u8)
    } else {
        reduce_levels(hashed_leaves(entries, h), h)
    }
}

/// The byte views of a list of byte vectors.
pub open spec fn views(entries: Seq<Vec<u8>>) -> Seq<Seq<u8>> {
    entries.map_values(|e: Vec<u8>| e@)
}

/// The byte views of a list of digests.
pub open spec fn digest_views(level: Seq<[u8; 32]>) -> Seq<Seq<u8>> {
    level.map_values(|d: [u8; 32]| d@)
}

/// Small, deterministic hasher compatible with the backend's FNV-style hash.
pub struct MerkleHasher;

impl MerkleHasher {
    /// FNV-1a over `value`; the big-endian 32-bit word is repeated to fill
    /// 32 bytes.
    pub fn hash(value: &[u8]) -> (r: [u8; 32])
        ensures
            r@ == merkle_hash(value@),
    {
        let mut state: u32 = 0x811c9dc5;
        let mut i: usize = 0;
        while i < value.len()
            invariant
                i <= value@.len(),
                state == fnv1a(value@.take(i as int)),
            decreases value@.len() - i,
        {
            assert(value@.take(i + 1).drop_last() =~= value@.take(i as int));
            state = state ^ (value[i] as u32);
            state = state.wrapping_mul(0x01000193);
            i = i + 1;
        }
        assert(value@.take(value@.len() as int) =~= value@);
        let word: [u8; 4] = [(state >> 24u32) as u8, (state >> 16u32) as u8, (state >> 8u32) as u8, state as u8];
        let mut digest = [0u8; 32];
        let mut k: usize = 0;
        while k < 32
            invariant
                k <= 32,
                word@ == seq![be_byte(state, 0), be_byte(state, 1), be_byte(state, 2), be_byte(state, 3)],
                forall|j: int| 0 <= j < k ==> digest@[j] == be_byte(state, j % 4),
            decreases 32 - k,
        {
            digest[k] = word[k % 4];
            k = k + 1;
        }
        assert(digest@ =~= merkle_hash(value@));
        digest
    }
}

/// A stored state-root commitment.
#[derive(Clone, Debug, PartialEq, Eq)]
pub struct StateRoot {
    pub root: [u8; 32],
}

/// The concatenation `left || right` of two digests.
fn concat_digests(left: &[u8; 32], right: &[u8; 32]) -> (r: Vec<u8>)
    ensures
        r@ == left@ + right@,
{
    let mut input: Vec<u8> = Vec::new();
    let mut k: usize = 0;
    while k < 32
        invariant
            k <= 32,
            input@ == left@.take(k as int),
        decreases 32 - k,
    {
        input.push(left[k]);
        k = k + 1;
        assert(input@ =~= left@.take(k as int));
    }
    k = 0;
    while k < 32
        invariant
            k <= 32,
            input@ == left@ + right@.take(k as int),
        decreases 32 - k,
    {
        input.push(right[k]);
        k = k + 1;
        assert(input@ =~= left@ + right@.take(k as int));
    }
    assert(right@.take(32) =~= right@);
    input
}

/// The FNV-based hash as a spec function value.
pub open spec fn fnv_hash_fn() -> spec_fn(Seq<u8>) -> Seq<u8> {
    |s: Seq<u8>| merkle_hash(s)
}

/// The hash a state tree is built with.
#[derive(Clone, Copy, Debug, PartialEq, Eq, Structural)]
pub enum RootHash {
    /// The FNV-1a based `MerkleHasher` of the Soroban contracts.
    Fnv,
    /// BLAKE2b-256, as the ink! contracts hash.
    Blake2b,
}

/// The hash `kind` as a spec function value.
pub open spec fn root_hash_fn(kind: RootHash) -> spec_fn(Seq<u8>) -> Seq<u8> {
    match kind {
        RootHash::Fnv => fnv_hash_fn(),
        RootHash::Blake2b => |s: Seq<u8>| blake2b_256_digest(s),
    }
}

/// Hash `value` with the hash `kind`.
fn hash_with(kind: RootHash, value: &[u8]) -> (r: [u8; 32])
    ensures
        r@ == root_hash_fn(kind)(value@),
{
    match kind {
        RootHash::Fnv => MerkleHasher::hash(value),
        RootHash::Blake2b => blake2b_256(value),
    }
}

/// Compute a binary Merkle root, duplicating the final node at odd levels.
pub fn compute_root(entries: &[Vec<u8>]) -> (r: [u8; 32])
    ensures
        r@ == merkle_root(views(entries@), fnv_hash_fn()),
{
    compute_root_with(RootHash::Fnv, entries)
}

/// Compute the Merkle root of `entries` under the hash `kind`, duplicating
/// the final node at odd levels (all-zero for no entries).
pub fn compute_root_with(kind: RootHash, entries: &[Vec<u8>]) -> (r: [u8; 32])
    ensures
        r@ == merkle_root(views(entries@), root_hash_fn(kind)),
{
    if entries.len() == 0 {
        let zero = [0u8; 32];
        assert(zero@ =~= merkle_root(views(entries@), root_hash_fn(kind)));
        return zero;
    }
    let ghost h = root_hash_fn(kind);
    let mut level: Vec<[u8; 32]> = Vec::new();
    let mut i: usize = 0;
    while i < entries.len()
        invariant
            i <= entries@.len(),
            level@.len() == i,
            h == root_hash_fn(kind),
            digest_views(level@) =~= hashed_leaves(views(entries@), h).take(i as int),
        decreases entries@.len() - i,
    {
        let d = hash_with(kind, entries[i].as_slice());
        proof {
            assert(views(entries@)[i as int] == entries@[i as int]@);
            assert(hashed_leaves(views(entries@), h)[i as int] == d@);
        }
        let ghost old_level = level@;
        level.push(d);
        i = i + 1;
        assert forall|j: int| 0 <= j < i implies #[trigger] digest_views(level@)[j]
            == hashed_leaves(views(entries@), h)[j] by {
            if j < i - 1 {
                assert(level@[j] == old_level[j]);
                assert(digest_views(old_level)[j] == hashed_leaves(views(entries@), h).take(
                    i - 1,
                )[j]);
            }
        }
        assert(digest_views(level@) =~= hashed_leaves(views(entries@), h).take(i as int));
    }
    assert(hashed_leaves(views(entries@), h).take(entries@.len() as int)
        =~= hashed_leaves(views(entries@), h));
    while level.len() > 1
        invariant
            h == root_hash_fn(kind),
            level@.len() >= 1,
            reduce_levels(digest_views(level@), h) == merkle_root(views(entries@), h),
        decreases level@.len(),
    {
        let mut next: Vec<[u8; 32]> = Vec::new();
        let mut index: usize = 0;
        let ghost target = next_level(digest_views(level@), h);
        while index < level.len()
            invariant
                h == root_hash_fn(kind),
                level@.len() > 1,
                index % 2 == 0 || index == level@.len(),
                index <= level@.len(),
                next@.len() == (index + 1) / 2,
                target == next_level(digest_views(level@), h),
                forall|j: int| 0 <= j < next@.len() ==> #[trigger] next@[j]@ == target[j],
            decreases level@.len() + 2 - index,
        {
            let left = level[index];
            let right = if index + 1 < level.len() {
                level[index + 1]
            } else {
                left
            };
            let input = concat_digests(&left, &right);
            let parent = hash_with(kind, input.as_slice());
            proof {
                assert(target[(index / 2) as int] == h(
                    digest_views(level@)[index as int] + if index + 1 < level@.len() {
                        digest_views(level@)[index + 1]
                    } else {
                        digest_views(level@)[index as int]
                    },
                ));
            }
            next.push(parent);
            if index + 1 < level.len() {
                index = index + 2;
            } else {
                index = level.len();
            }
        }
        assert(digest_views(next@) =~= target);
        level = next;
    }
    assert(digest_views(level@).len() == 1);
    level[0]
}

/// The root commits to a single entry by its hash, and duplicating the
/// last entry of an odd list of at least three entries leaves the root
/// unchanged (the tree already pairs an odd last node with itself).
pub proof fn law_odd_level_duplicates_last_node(
    entries: Seq<Seq<u8>>,
    h: spec_fn(Seq<u8>) -> Seq<u8>,
)
    ensures
        entries.len() == 1 ==> merkle_root(entries, h) == h(entries[0]),
        entries.len() >= 3 && entries.len() % 2 == 1 ==> merkle_root(entries.push(entries.last()), h)
            == merkle_root(entries, h),
{
    let leaves = hashed_leaves(entries, h);
    if entries.len() >= 3 && entries.len() % 2 == 1 {
        let dup = entries.push(entries.last());
        let dup_leaves = hashed_leaves(dup, h);
        assert(dup_leaves =~= leaves.push(leaves.last()));
        assert(next_level(dup_leaves, h) =~= next_level(leaves, h));
    }
}

} // verus!
