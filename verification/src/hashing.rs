//! Trusted access to the two outside primitives the core leans on:
//! SHA-256 digests and lowercase hexadecimal encoding.

use vstd::prelude::*;
use sha2::{Digest, Sha256};

verus! {

/// The 32-byte SHA-256 digest of a byte sequence. The algorithm itself is
/// not restated here; every fact the proofs use about it comes from the
/// contract of [`sha256`] below.
pub uninterp spec fn sha256_of(bytes: Seq<u8>) -> Seq<u8>;

/// Relies on `sha2::Sha256` (`Digest::digest`): SHA-256 returns a 32-byte
/// digest that is a function of the input bytes alone.
#[verifier::external_body]
pub(crate) fn sha256(bytes: &[u8]) -> (digest: [u8; 32])
    ensures
        digest@ == sha256_of(bytes@),
        digest@.len() == 32,
{
    Sha256::digest(bytes).into()
}

/// The lowercase hexadecimal ASCII byte for a nibble: `0`-`9` then `a`-`f`.
pub open spec fn hex_digit(v: u8) -> u8
    recommends
        v < 16,
{
    if v < 10 {
        (48 + v) as u8
    } else {
        (87 + v) as u8
    }
}

/// Lowercase hexadecimal encoding of a byte sequence: two ASCII digits per
/// byte, high nibble first.
pub open spec fn hex_bytes(s: Seq<u8>) -> Seq<u8>
    decreases s.len(),
{
    if s.len() == 0 {
        Seq::empty()
    } else {
        seq![hex_digit(s[0] / 16), hex_digit(s[0] % 16)] + hex_bytes(s.skip(1))
    }
}

/// Relies on `hex::encode`: lowercase hexadecimal, two digits per byte,
/// high nibble first.
#[verifier::external_body]
pub(crate) fn hex_encode(bytes: &[u8]) -> (out: Vec<u8>)
    ensures
        out@ == hex_bytes(bytes@),
{
    hex::encode(bytes).into_bytes()
}

} // verus!
