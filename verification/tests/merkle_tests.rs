use merkle_airdrop::merkle::proof_data;
use merkle_airdrop::merkle::verify_merkle_proof;
use sha2::Digest;
use sha2::Sha256;

fn sha(data: &[u8]) -> [u8; 32] {
    let mut h = Sha256::new();
    h.update(data);
    h.finalize().into()
}

fn node(a: [u8; 32], b: [u8; 32]) -> [u8; 32] {
    let mut buf: Vec<u8> = Vec::new();
    if a <= b {
        buf.extend_from_slice(&a);
        buf.extend_from_slice(&b);
    } else {
        buf.extend_from_slice(&b);
        buf.extend_from_slice(&a);
    }
    sha(&buf)
}

fn leaf(phase: u8, user: [u8; 32], amount: u64) -> [u8; 32] {
    let mut buf: Vec<u8> = vec![phase];
    buf.extend_from_slice(&user);
    buf.extend_from_slice(&amount.to_le_bytes());
    sha(&buf)
}

#[test]
fn empty_proof_accepts_exactly_when_root_is_leaf() {
    let l = leaf(1, [7u8; 32], 42);
    assert!(verify_merkle_proof(l, l, Vec::new()));
    let mut other = l;
    other[0] ^= 0xff;
    assert!(!verify_merkle_proof(other, l, Vec::new()));
}

#[test]
fn two_leaf_tree_verifies_and_any_flipped_proof_byte_fails() {
    let la = leaf(1, [1u8; 32], 100);
    let lb = leaf(1, [2u8; 32], 200);
    let root = node(la, lb);
    assert!(verify_merkle_proof(root, la, lb.to_vec()));
    for k in 0..32 {
        let mut bad = lb.to_vec();
        bad[k] ^= 1;
        assert!(!verify_merkle_proof(root, la, bad));
    }
}

#[test]
fn sibling_placement_is_order_independent() {
    let la = leaf(3, [9u8; 32], 5);
    let lb = leaf(3, [10u8; 32], 6);
    let root = node(la, lb);
    assert_eq!(root, node(lb, la));
    assert!(verify_merkle_proof(root, la, lb.to_vec()));
    assert!(verify_merkle_proof(root, lb, la.to_vec()));
}

#[test]
fn four_leaf_tree_verifies_each_leaf() {
    let leaves = [
        leaf(2, [1u8; 32], 10),
        leaf(2, [2u8; 32], 20),
        leaf(2, [3u8; 32], 30),
        leaf(2, [4u8; 32], 40),
    ];
    let n01 = node(leaves[0], leaves[1]);
    let n23 = node(leaves[2], leaves[3]);
    let root = node(n01, n23);

    let mut proof0: Vec<u8> = Vec::new();
    proof0.extend_from_slice(&leaves[1]);
    proof0.extend_from_slice(&n23);
    assert!(verify_merkle_proof(root, leaves[0], proof0));

    let mut proof3: Vec<u8> = Vec::new();
    proof3.extend_from_slice(&leaves[2]);
    proof3.extend_from_slice(&n01);
    assert!(verify_merkle_proof(root, leaves[3], proof3));

    let mut wrong: Vec<u8> = Vec::new();
    wrong.extend_from_slice(&leaves[2]);
    wrong.extend_from_slice(&n01);
    assert!(!verify_merkle_proof(root, leaves[0], wrong));
}

#[test]
fn proof_length_not_multiple_of_32_is_rejected() {
    let l = leaf(1, [7u8; 32], 42);
    assert!(!verify_merkle_proof(l, l, vec![0u8; 31]));
    assert!(!verify_merkle_proof(l, l, vec![0u8; 33]));
    assert!(!verify_merkle_proof(l, l, vec![0u8; 1]));
}

#[test]
fn proof_data_matches_canonical_leaf_encoding() {
    let user = [0xabu8; 32];
    assert_eq!(proof_data(1, user, 1000), leaf(1, user, 1000));
    let user2 = [0x00u8; 32];
    assert_eq!(proof_data(255, user2, u64::MAX), leaf(255, user2, u64::MAX));
    assert_ne!(proof_data(1, user, 1000), proof_data(2, user, 1000));
    assert_ne!(proof_data(1, user, 1000), proof_data(1, user, 1001));
}
