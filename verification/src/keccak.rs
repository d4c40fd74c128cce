//! Keccak-256, computed by the Solana SDK.
//!
//! The digest itself is not modelled: it is a named function of the hashed
//! bytes, and everything proved about fingerprints holds for whatever that
//! function is.

use vstd::prelude::*;

verus! {

/// The Keccak-256 digest of `data` as `solana_program::keccak::hash` returns
/// it, byte for byte.
pub uninterp spec fn keccak256(data: Seq<u8>) -> Seq<u8>;

/// Two different byte strings with one digest.
pub open spec fn keccak_collision(x: Seq<u8>, y: Seq<u8>) -> bool {
    x != y && keccak256(x) == keccak256(y)
}

/// Hashes `data` with `solana_program::keccak::hash` and returns the 32 bytes
/// of the resulting `Hash`.
///
/// Trusted: the digest is a function of the bytes of `data` alone. Off chain
/// the SDK feeds them to `sha3::Keccak256`; nothing else enters the hasher,
/// and the call does not fail.
#[allow(deprecated)]
#[verifier::external_body]
pub(crate) fn keccak_hash(data: &[u8]) -> (digest: [u8; 32])
    ensures
        digest@ == keccak256(data@),
{
    solana_program::keccak::hash(data).to_bytes()
}

} // verus!
