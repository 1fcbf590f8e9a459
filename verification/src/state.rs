//! Persisted record layouts of the distribution core.

use vstd::prelude::*;

verus! {

/// Per-round registry record: the committed Merkle root, the admin identity
/// allowed to mutate it, and the pause flag. One exists per (round, token)
/// pair; `bump` is the host's address-derivation byte and `padding` is
/// reserved layout space.
#[derive(Clone, Copy, Debug)]
pub struct MerkleRoot {
    pub bump: u8,
    pub admin: [u8; 32],
    pub phase: u8,
    pub merkle_root: [u8; 32],
    pub paused: bool,
    pub padding: [u8; 32],
}

/// Claim marker record: its existence under a (round, token, claim-key)
/// storage key is the whole anti-replay state. `bump` is the host's
/// address-derivation byte.
#[derive(Clone, Copy, Debug)]
pub struct ClaimRecord {
    pub bump: u8,
}

} // verus!
