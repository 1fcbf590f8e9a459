//! Sorted-pair Merkle inclusion proofs and canonical leaf derivation.
//!
//! A proof is a flat byte string of 32-byte sibling digests. Starting from
//! the leaf, each step hashes the numerically smaller of {current, sibling}
//! first; after all siblings are consumed the running digest must equal the
//! committed root. The sorted pairing makes each step independent of the
//! sibling's left/right placement in the tree.

use vstd::prelude::*;
use vstd::bytes::spec_u64_to_le_bytes;
use vstd::bytes::u64_to_le_bytes;
use vstd::slice::slice_subrange;
use crate::bytes_util::bytes_eq;
use crate::bytes_util::push_slice;
use crate::hashing::sha256;
use crate::hashing::sha256_of;

verus! {

/// Lexicographic (byte-wise) order on byte sequences: `a` comes no later
/// than `b`. On equal-length operands this is the numeric order of the
/// values read as big-endian integers.
pub open spec fn lex_le(a: Seq<u8>, b: Seq<u8>) -> bool
    decreases a.len(),
{
    if a.len() == 0 {
        true
    } else if b.len() == 0 {
        false
    } else if a[0] < b[0] {
        true
    } else if a[0] > b[0] {
        false
    } else {
        lex_le(a.skip(1), b.skip(1))
    }
}

/// One Merkle step: hash the sorted concatenation of the two operands.
pub open spec fn merkle_node(a: Seq<u8>, b: Seq<u8>) -> Seq<u8> {
    if lex_le(a, b) {
        sha256_of(a + b)
    } else {
        sha256_of(b + a)
    }
}

/// Folds a digest through a proof, one 32-byte sibling at a time.
pub open spec fn merkle_fold(current: Seq<u8>, siblings: Seq<u8>) -> Seq<u8>
    decreases siblings.len(),
{
    if siblings.len() < 32 {
        current
    } else {
        merkle_fold(merkle_node(current, siblings.take(32)), siblings.skip(32))
    }
}

/// What a successful inclusion check means: the proof is a whole number of
/// 32-byte siblings and folding the leaf through it reproduces the root.
pub open spec fn spec_verify_merkle_proof(root: Seq<u8>, leaf: Seq<u8>, proof_bytes: Seq<u8>) -> bool {
    proof_bytes.len() % 32 == 0 && merkle_fold(leaf, proof_bytes) == root
}

/// Byte-wise "no later than" on two equal-length slices.
pub(crate) fn lex_le_bytes(a: &[u8], b: &[u8]) -> (r: bool)
    requires
        a@.len() == b@.len(),
    ensures
        r == lex_le(a@, b@),
{
    let n = a.len();
    let mut i: usize = 0;
    proof {
        assert(a@.skip(0) =~= a@);
        assert(b@.skip(0) =~= b@);
    }
    while i < n
        invariant
            n == a@.len(),
            a@.len() == b@.len(),
            i <= n,
            lex_le(a@, b@) == lex_le(a@.skip(i as int), b@.skip(i as int)),
        decreases n - i,
    {
        proof {
            assert(a@.skip(i as int)[0] == a@[i as int]);
            assert(b@.skip(i as int)[0] == b@[i as int]);
            assert(a@.skip(i as int).skip(1) =~= a@.skip(i as int + 1));
            assert(b@.skip(i as int).skip(1) =~= b@.skip(i as int + 1));
        }
        if a[i] < b[i] {
            return true;
        }
        if b[i] < a[i] {
            return false;
        }
        i = i + 1;
    }
    proof {
        assert(a@.skip(n as int).len() == 0);
    }
    true
}

/// Checks a Merkle inclusion proof: `leaf` plus the sibling path in
/// `proof_bytes` must recompute `root`. A proof whose length is not a
/// multiple of 32 is rejected up front, before any digest is computed.
pub fn verify_merkle_proof(root: [u8; 32], leaf: [u8; 32], proof_bytes: Vec<u8>) -> (r: bool)
    ensures
        r == spec_verify_merkle_proof(root@, leaf@, proof_bytes@),
        proof_bytes@.len() % 32 != 0 ==> r == false,
{
    if proof_bytes.len() % 32 != 0 {
        return false;
    }
    let mut current: [u8; 32] = leaf;
    let mut i: usize = 0;
    proof {
        assert(proof_bytes@.skip(0) =~= proof_bytes@);
    }
    while i < proof_bytes.len()
        invariant
            i <= proof_bytes@.len(),
            i % 32 == 0,
            proof_bytes@.len() % 32 == 0,
            merkle_fold(leaf@, proof_bytes@) == merkle_fold(current@, proof_bytes@.skip(i as int)),
        decreases proof_bytes@.len() - i,
    {
        proof {
            let len = proof_bytes@.len() as int;
            assert(len - i >= 32) by (nonlinear_arith)
                requires
                    len % 32 == 0,
                    i % 32 == 0,
                    0 <= i < len,
            ;
        }
        let sib: &[u8] = slice_subrange(proof_bytes.as_slice(), i, i + 32);
        let cur_first = lex_le_bytes(current.as_slice(), sib);
        let mut combined: Vec<u8> = Vec::new();
        if cur_first {
            push_slice(&mut combined, current.as_slice());
            push_slice(&mut combined, sib);
            proof {
                assert(combined@ =~= current@ + sib@);
            }
        } else {
            push_slice(&mut combined, sib);
            push_slice(&mut combined, current.as_slice());
            proof {
                assert(combined@ =~= sib@ + current@);
            }
        }
        let next = sha256(combined.as_slice());
        proof {
            let p = proof_bytes@;
            let s = p.subrange(i as int, i as int + 32);
            assert(next@ == merkle_node(current@, s));
            assert(p.skip(i as int).take(32) =~= s);
            assert(p.skip(i as int).skip(32) =~= p.skip(i as int + 32));
            assert(merkle_fold(current@, p.skip(i as int)) == merkle_fold(next@, p.skip(
                i as int + 32,
            )));
        }
        current = next;
        i = i + 32;
    }
    proof {
        assert(proof_bytes@.skip(i as int).len() == 0);
        assert(merkle_fold(current@, proof_bytes@.skip(i as int)) == current@);
    }
    bytes_eq(current.as_slice(), root.as_slice())
}

/// Canonical leaf encoding: round byte, then the 32 identity bytes, then
/// the amount as 8 little-endian bytes.
pub open spec fn spec_leaf_bytes(phase: u8, user: Seq<u8>, amount: u64) -> Seq<u8> {
    seq![phase] + user + spec_u64_to_le_bytes(amount)
}

/// The leaf digest committing a recipient to an amount within a round.
pub open spec fn spec_proof_data(phase: u8, user: Seq<u8>, amount: u64) -> Seq<u8> {
    sha256_of(spec_leaf_bytes(phase, user, amount))
}

/// Computes the eligibility leaf digest for (round, recipient, amount).
/// This must match the off-chain tree builder's encoding byte for byte.
pub fn proof_data(phase: u8, user: [u8; 32], amount: u64) -> (r: [u8; 32])
    ensures
        r@ == spec_proof_data(phase, user@, amount),
{
    let mut data: Vec<u8> = Vec::new();
    data.push(phase);
    push_slice(&mut data, user.as_slice());
    let amount_le = u64_to_le_bytes(amount);
    push_slice(&mut data, amount_le.as_slice());
    proof {
        assert(data@ =~= spec_leaf_bytes(phase, user@, amount));
    }
    sha256(data.as_slice())
}

/// Byte-wise order is total on equal-length operands.
pub proof fn lemma_lex_le_total(a: Seq<u8>, b: Seq<u8>)
    requires
        a.len() == b.len(),
    ensures
        lex_le(a, b) || lex_le(b, a),
    decreases a.len(),
{
    if a.len() > 0 && a[0] == b[0] {
        lemma_lex_le_total(a.skip(1), b.skip(1));
    }
}

/// Byte-wise order is antisymmetric on equal-length operands.
pub proof fn lemma_lex_le_antisym(a: Seq<u8>, b: Seq<u8>)
    requires
        a.len() == b.len(),
        lex_le(a, b),
        lex_le(b, a),
    ensures
        a == b,
    decreases a.len(),
{
    if a.len() == 0 {
        assert(a =~= b);
    } else {
        assert(a[0] == b[0]);
        lemma_lex_le_antisym(a.skip(1), b.skip(1));
        assert forall|j: int| 0 <= j < a.len() implies a[j] == b[j] by {
            if j >= 1 {
                assert(a[j] == a.skip(1)[j - 1]);
                assert(b[j] == b.skip(1)[j - 1]);
            }
        }
        assert(a =~= b);
    }
}

/// Sorted-pair hashing is order-independent: swapping which operand is
/// "current" and which is "sibling" never changes the step's result.
pub proof fn lemma_merkle_node_commutative(a: Seq<u8>, b: Seq<u8>)
    requires
        a.len() == b.len(),
    ensures
        merkle_node(a, b) == merkle_node(b, a),
{
    lemma_lex_le_total(a, b);
    if lex_le(a, b) && lex_le(b, a) {
        lemma_lex_le_antisym(a, b);
    }
}

/// A proof produced by a correct tree builder — a whole number of 32-byte
/// siblings whose fold from the leaf reproduces the committed root — is
/// accepted by the inclusion check.
pub proof fn lemma_verify_accepts_built_proof(root: Seq<u8>, leaf: Seq<u8>, proof_bytes: Seq<u8>)
    requires
        proof_bytes.len() % 32 == 0,
        merkle_fold(leaf, proof_bytes) == root,
    ensures
        spec_verify_merkle_proof(root, leaf, proof_bytes),
{
}

} // verus!
