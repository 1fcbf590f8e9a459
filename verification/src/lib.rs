//! Core of a Merkle-proof gated token distribution.
//!
//! A fixed allocation is committed as a 32-byte Merkle root per distribution
//! round; recipients redeem with an inclusion proof. The library holds the
//! eligibility-proof and anti-replay engine: sorted-pair Merkle verification,
//! the per-round registry with its pause flag, the claim-marker ledger that
//! makes each leaf redeemable at most once, and the delegated-claim protocol
//! with an expiring off-chain authorization. Token custody and the host
//! ledger's account machinery are external collaborators: the engine hands
//! back transfer instructions and takes fresh vault balances as inputs.

pub mod bytes_util;
pub mod engine;
pub mod errors;
pub mod hashing;
pub mod merkle;
pub mod sig;
pub mod state;
