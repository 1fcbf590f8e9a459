use merkle_airdrop::errors::ErrorCode;
use merkle_airdrop::sig::delegation_message;
use merkle_airdrop::sig::verify_signature;
use merkle_airdrop::sig::SigArtifact;
use sha2::Digest;
use sha2::Sha256;

fn sha(data: &[u8]) -> [u8; 32] {
    let mut h = Sha256::new();
    h.update(data);
    h.finalize().into()
}

fn expected_message(proof_bytes: &[u8], receiver: [u8; 32], expire_at: i64) -> Vec<u8> {
    let inner = sha(proof_bytes);
    let mut data: Vec<u8> = Vec::new();
    data.extend_from_slice(&inner);
    data.extend_from_slice(&receiver);
    data.extend_from_slice(&expire_at.to_le_bytes());
    hex::encode(sha(&data)).into_bytes()
}

#[test]
fn delegation_message_matches_canonical_derivation() {
    let proof_bytes: Vec<u8> = vec![1, 2, 3, 4, 5];
    let receiver = [0x11u8; 32];
    let expire_at: i64 = 1_700_000_000;
    let msg = delegation_message(&proof_bytes, receiver, expire_at);
    assert_eq!(msg, expected_message(&proof_bytes, receiver, expire_at));
    assert_eq!(msg.len(), 64);
    assert!(msg.iter().all(|b| b.is_ascii_hexdigit() && !b.is_ascii_uppercase()));
}

#[test]
fn delegation_message_handles_negative_expiry() {
    let proof_bytes: Vec<u8> = Vec::new();
    let receiver = [0u8; 32];
    let expire_at: i64 = -5;
    let msg = delegation_message(&proof_bytes, receiver, expire_at);
    assert_eq!(msg, expected_message(&proof_bytes, receiver, expire_at));
}

#[test]
fn verify_signature_accepts_matching_artifact() {
    let owner = [0x22u8; 32];
    let proof_bytes: Vec<u8> = vec![9, 9, 9];
    let receiver = [0x33u8; 32];
    let expire_at: i64 = 123_456;
    let signature = [0x44u8; 64];
    let artifact = SigArtifact {
        pubkey: owner,
        message: expected_message(&proof_bytes, receiver, expire_at),
        signature,
    };
    assert_eq!(
        verify_signature(owner, &proof_bytes, receiver, expire_at, signature, &artifact),
        Ok(())
    );
}

#[test]
fn verify_signature_rejects_wrong_pubkey() {
    let owner = [0x22u8; 32];
    let proof_bytes: Vec<u8> = vec![9, 9, 9];
    let receiver = [0x33u8; 32];
    let expire_at: i64 = 123_456;
    let signature = [0x44u8; 64];
    let artifact = SigArtifact {
        pubkey: [0x23u8; 32],
        message: expected_message(&proof_bytes, receiver, expire_at),
        signature,
    };
    assert_eq!(
        verify_signature(owner, &proof_bytes, receiver, expire_at, signature, &artifact),
        Err(ErrorCode::SigVerificationFailed)
    );
}

#[test]
fn verify_signature_rejects_wrong_message() {
    let owner = [0x22u8; 32];
    let proof_bytes: Vec<u8> = vec![9, 9, 9];
    let receiver = [0x33u8; 32];
    let expire_at: i64 = 123_456;
    let signature = [0x44u8; 64];
    let artifact = SigArtifact {
        pubkey: owner,
        // message derived for a different receiver
        message: expected_message(&proof_bytes, [0x34u8; 32], expire_at),
        signature,
    };
    assert_eq!(
        verify_signature(owner, &proof_bytes, receiver, expire_at, signature, &artifact),
        Err(ErrorCode::SigVerificationFailed)
    );
}

#[test]
fn verify_signature_rejects_wrong_signature() {
    let owner = [0x22u8; 32];
    let proof_bytes: Vec<u8> = vec![9, 9, 9];
    let receiver = [0x33u8; 32];
    let expire_at: i64 = 123_456;
    let signature = [0x44u8; 64];
    let artifact = SigArtifact {
        pubkey: owner,
        message: expected_message(&proof_bytes, receiver, expire_at),
        signature: [0x45u8; 64],
    };
    assert_eq!(
        verify_signature(owner, &proof_bytes, receiver, expire_at, signature, &artifact),
        Err(ErrorCode::SigVerificationFailed)
    );
}
