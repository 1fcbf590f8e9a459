//! Error taxonomy of the distribution core.

use vstd::prelude::*;

verus! {

/// Rejections raised by the core's own validation rules. Every rejection is
/// terminal for the current request and leaves no partial state behind.
#[derive(Clone, Copy, Debug, PartialEq, Eq, Structural)]
pub enum ErrorCode {
    /// Caller identity does not match the registry's stored admin.
    InvalidAdmin,
    /// Inclusion check failed, or the proof bytes are malformed.
    InvalidMerkleProof,
    /// The claimed amount is zero or otherwise disallowed.
    InvalidAmount,
    /// The vault cannot cover the requested amount.
    InsufficientBalance,
    /// Delegated-claim authentication failed.
    SigVerificationFailed,
    /// The delegated authorization window has elapsed.
    SignatureExpire,
    /// The round is paused; no claims succeed while it is.
    AirdropHasPaused,
}

/// Outcome of an operation against the record store. The host ledger's
/// keyed storage surfaces as the three record-level variants; everything
/// the core decides itself arrives as an [`ErrorCode`].
#[derive(Clone, Copy, Debug, PartialEq, Eq, Structural)]
pub enum AirdropError {
    /// A validation rule of the core rejected the request.
    Code(ErrorCode),
    /// A registry for this (round, token) pair already exists.
    RoundExists,
    /// No registry exists for this (round, token) pair.
    RoundMissing,
    /// The claim marker for this key already exists: the atomic
    /// create-or-fail that prevents replay.
    AlreadyClaimed,
}

} // verus!
