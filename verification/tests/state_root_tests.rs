use blake2::Digest;
use meridian_contracts::state_root::{compute_root, compute_root_with, MerkleHasher, RootHash};

#[test]
fn rust_simple_hash_is_deterministic() {
    assert_eq!(MerkleHasher::hash(b"state-entry"), MerkleHasher::hash(b"state-entry"));
    assert_ne!(MerkleHasher::hash(b"state-entry"), MerkleHasher::hash(b"other-entry"));
}

#[test]
fn state_root_hash_fixture_is_32_bytes() {
    assert_eq!(MerkleHasher::hash(b"state-entry").len(), 32);
}

#[test]
fn fnv_hash_of_empty_input_is_the_offset_basis() {
    let h = MerkleHasher::hash(b"");
    for chunk in h.chunks(4) {
        assert_eq!(chunk, &0x811c9dc5u32.to_be_bytes());
    }
    let a = MerkleHasher::hash(b"a");
    assert_eq!(&a[0..4], &0xe40c292cu32.to_be_bytes());
}

#[test]
fn root_of_nothing_is_zero_and_of_one_entry_is_its_hash() {
    assert_eq!(compute_root(&[]), [0u8; 32]);
    assert_eq!(compute_root(&[b"x".to_vec()]), MerkleHasher::hash(b"x"));
}

#[test]
fn odd_levels_pair_the_last_node_with_itself() {
    let entries = vec![b"a".to_vec(), b"b".to_vec(), b"c".to_vec()];
    let mut padded = entries.clone();
    padded.push(b"c".to_vec());
    assert_eq!(compute_root(&entries), compute_root(&padded));
    let ab = [MerkleHasher::hash(b"a"), MerkleHasher::hash(b"b")].concat();
    let cc = [MerkleHasher::hash(b"c"), MerkleHasher::hash(b"c")].concat();
    let top = [MerkleHasher::hash(&ab), MerkleHasher::hash(&cc)].concat();
    assert_eq!(compute_root(&entries), MerkleHasher::hash(&top));
}

#[test]
fn blake2b_root_uses_blake2b() {
    let one = compute_root_with(RootHash::Blake2b, &[b"entry".to_vec()]);
    let expected: [u8; 32] = blake2::Blake2b::<blake2::digest::consts::U32>::digest(b"entry").into();
    assert_eq!(one, expected);
    assert_ne!(one, compute_root(&[b"entry".to_vec()]));
}
