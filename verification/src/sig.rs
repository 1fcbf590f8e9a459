//! Delegated-claim authentication.
//!
//! A recipient authorizes a relayer off-chain by signing, with Ed25519, the
//! lowercase hexadecimal encoding of
//! `sha256(sha256(proof) || receiver || expire_at_le)`. The host provides a
//! pre-validated signature-verification artifact — the public key, message
//! and signature that its Ed25519 facility actually checked — and the core
//! re-derives the expected message and compares all three fields. Any
//! mismatch is a hard rejection.

use vstd::prelude::*;
use vstd::bytes::spec_u64_to_le_bytes;
use vstd::bytes::u64_to_le_bytes;
use crate::bytes_util::bytes_eq;
use crate::bytes_util::push_slice;
use crate::errors::ErrorCode;
use crate::hashing::hex_bytes;
use crate::hashing::hex_encode;
use crate::hashing::sha256;
use crate::hashing::sha256_of;

verus! {

/// The digest a delegation authorization commits to: the proof's digest,
/// the receiver identity, and the expiry as 8 little-endian bytes, hashed
/// together.
pub open spec fn spec_delegation_digest(
    proof_bytes: Seq<u8>,
    receiver: Seq<u8>,
    expire_at: i64,
) -> Seq<u8> {
    sha256_of(sha256_of(proof_bytes) + receiver + spec_u64_to_le_bytes(expire_at as u64))
}

/// The exact message the delegation owner must have signed: the delegation
/// digest, rendered as 64 lowercase hexadecimal ASCII bytes.
pub open spec fn spec_delegation_message(
    proof_bytes: Seq<u8>,
    receiver: Seq<u8>,
    expire_at: i64,
) -> Seq<u8> {
    hex_bytes(spec_delegation_digest(proof_bytes, receiver, expire_at))
}

/// Derives the canonical delegation message for (proof, receiver, expiry).
pub fn delegation_message(proof_bytes: &Vec<u8>, receiver: [u8; 32], expire_at: i64) -> (msg: Vec<
    u8,
>)
    ensures
        msg@ == spec_delegation_message(proof_bytes@, receiver@, expire_at),
{
    let inner = sha256(proof_bytes.as_slice());
    let mut data: Vec<u8> = Vec::new();
    push_slice(&mut data, inner.as_slice());
    push_slice(&mut data, receiver.as_slice());
    let expire_le = u64_to_le_bytes(expire_at as u64);
    push_slice(&mut data, expire_le.as_slice());
    proof {
        assert(data@ =~= sha256_of(proof_bytes@) + receiver@ + spec_u64_to_le_bytes(
            expire_at as u64,
        ));
    }
    let digest = sha256(data.as_slice());
    hex_encode(digest.as_slice())
}

/// The contents of the host's signature-verification step: the public key,
/// message and signature its Ed25519 facility validated before this core
/// runs. Callers must build it only from a verification that actually
/// happened; the core then checks it is the one this claim expects.
pub struct SigArtifact {
    pub pubkey: [u8; 32],
    pub message: Vec<u8>,
    pub signature: [u8; 64],
}

/// The artifact attests exactly the expected triple: the delegation owner's
/// key, the given message, and the given signature.
pub open spec fn spec_artifact_matches(
    artifact: SigArtifact,
    owner: Seq<u8>,
    msg: Seq<u8>,
    signature: Seq<u8>,
) -> bool {
    artifact.pubkey@ == owner && artifact.message@ == msg && artifact.signature@ == signature
}

/// Authenticates a delegated claim: the host-validated artifact must carry
/// the delegation owner's public key, the canonical delegation message for
/// (proof, receiver, expiry), and the claimed signature. Fails closed on
/// any mismatch.
pub fn verify_signature(
    proof_owner: [u8; 32],
    proof_bytes: &Vec<u8>,
    receiver: [u8; 32],
    expire_at: i64,
    signature: [u8; 64],
    artifact: &SigArtifact,
) -> (r: Result<(), ErrorCode>)
    ensures
        spec_artifact_matches(
            *artifact,
            proof_owner@,
            spec_delegation_message(proof_bytes@, receiver@, expire_at),
            signature@,
        ) ==> r == Ok::<(), ErrorCode>(()),
        !spec_artifact_matches(
            *artifact,
            proof_owner@,
            spec_delegation_message(proof_bytes@, receiver@, expire_at),
            signature@,
        ) ==> r == Err::<(), ErrorCode>(ErrorCode::SigVerificationFailed),
{
    let expected = delegation_message(proof_bytes, receiver, expire_at);
    let key_ok = bytes_eq(artifact.pubkey.as_slice(), proof_owner.as_slice());
    let msg_ok = bytes_eq(artifact.message.as_slice(), expected.as_slice());
    let sig_ok = bytes_eq(artifact.signature.as_slice(), signature.as_slice());
    if key_ok && msg_ok && sig_ok {
        Ok(())
    } else {
        Err(ErrorCode::SigVerificationFailed)
    }
}

} // verus!
