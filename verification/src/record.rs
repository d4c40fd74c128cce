//! The attestation record and its wire form.
//!
//! A record travels as 74 bytes, the fields one after another with nothing
//! between them:
//!
//! | bytes    | field                 | encoding                              |
//! |----------|-----------------------|---------------------------------------|
//! | 0        | `template_id`         | one byte                              |
//! | 1..33    | `proof_hash`          | 32 bytes as they are                  |
//! | 33..65   | `public_signals_hash` | 32 bytes as they are                  |
//! | 65..73   | `timestamp`           | two's complement, little endian       |
//! | 73       | `verified_by_snarkjs` | 0 for `false`, 1 for `true`           |
//!
//! This is how Borsh writes the five fields in this order, so a client that
//! serialises them with Borsh produces exactly these bytes.

use crate::error::{DecodeError, ValidationError};
use vstd::prelude::*;

verus! {

/// Width in bytes of a digest held by a record.
pub const HASH_LEN: usize = 32;

/// Length in bytes of the wire form of a record.
pub const RECORD_LEN: usize = 74;

/// The claim that a trusted verifier checked one proof.
#[derive(Clone, Copy, Debug, PartialEq, Eq)]
pub struct VerificationRecord {
    /// Names the circuit template that the proof belongs to.
    pub template_id: u8,
    /// Digest of the proof; all zeros stands for "no proof".
    pub proof_hash: [u8; 32],
    /// Digest of the public signals.
    pub public_signals_hash: [u8; 32],
    /// When the proof was verified, as the submitter claims it.
    pub timestamp: i64,
    /// Whether the trusted verifier accepted the proof.
    pub verified_by_snarkjs: bool,
}

/// A record as mathematical values.
pub struct RecordModel {
    pub template_id: int,
    pub proof_hash: Seq<u8>,
    pub public_signals_hash: Seq<u8>,
    pub timestamp: int,
    pub verified_by_snarkjs: bool,
}

impl View for VerificationRecord {
    type V = RecordModel;

    open spec fn view(&self) -> RecordModel {
        RecordModel {
            template_id: self.template_id as int,
            proof_hash: self.proof_hash@,
            public_signals_hash: self.public_signals_hash@,
            timestamp: self.timestamp as int,
            verified_by_snarkjs: self.verified_by_snarkjs,
        }
    }
}

/// Whether the eight bytes of `hash` from `at` on are zero.
pub open spec fn zero_octet(hash: Seq<u8>, at: int) -> bool {
    &&& hash[at] == 0
    &&& hash[at + 1] == 0
    &&& hash[at + 2] == 0
    &&& hash[at + 3] == 0
    &&& hash[at + 4] == 0
    &&& hash[at + 5] == 0
    &&& hash[at + 6] == 0
    &&& hash[at + 7] == 0
}

/// Whether a 32-byte digest is the all-zero placeholder. Every byte is
/// named, so that the answer for given bytes needs no witness.
pub open spec fn all_zero(hash: Seq<u8>) -> bool
    recommends
        hash.len() == HASH_LEN,
{
    &&& zero_octet(hash, 0)
    &&& zero_octet(hash, 8)
    &&& zero_octet(hash, 16)
    &&& zero_octet(hash, 24)
}

/// A 32-byte digest is the placeholder exactly when each of its bytes is zero.
pub proof fn lemma_all_zero(hash: Seq<u8>)
    requires
        hash.len() == HASH_LEN,
    ensures
        all_zero(hash) <==> forall|i: int| 0 <= i < hash.len() ==> hash[i] == 0,
{
    if all_zero(hash) {
        assert forall|i: int| 0 <= i < hash.len() implies hash[i] == 0 by {
            if i < 8 {
                assert(zero_octet(hash, 0));
            } else if i < 16 {
                assert(zero_octet(hash, 8));
            } else if i < 24 {
                assert(zero_octet(hash, 16));
            } else {
                assert(zero_octet(hash, 24));
            }
        }
    }
}

impl RecordModel {
    /// The outcome of the checks on what the record claims: first that the
    /// trusted verifier accepted the proof, then that the proof hash is not
    /// the all-zero placeholder.
    pub open spec fn check_claim(self) -> Result<(), ValidationError> {
        if !self.verified_by_snarkjs {
            Err(ValidationError::ExternalVerificationMissing)
        } else if all_zero(self.proof_hash) {
            Err(ValidationError::DegenerateProofHash)
        } else {
            Ok(())
        }
    }
}

/// The unsigned number that eight bytes spell, least significant byte first.
pub open spec fn le_u64(bytes: Seq<u8>) -> int
    recommends
        bytes.len() == 8,
{
    bytes[0] + bytes[1] * 0x100 + bytes[2] * 0x1_0000 + bytes[3] * 0x100_0000 + bytes[4]
        * 0x1_0000_0000 + bytes[5] * 0x100_0000_0000 + bytes[6] * 0x1_0000_0000_0000 + bytes[7]
        * 0x100_0000_0000_0000
}

/// The signed number that eight bytes spell in two's complement, least
/// significant byte first.
pub open spec fn le_i64(bytes: Seq<u8>) -> int
    recommends
        bytes.len() == 8,
{
    if le_u64(bytes) < 0x8000_0000_0000_0000 {
        le_u64(bytes)
    } else {
        le_u64(bytes) - 0x1_0000_0000_0000_0000
    }
}

/// The record that `bytes` is the wire form of, if it is one: exactly 74
/// bytes whose last is 0 or 1.
pub open spec fn decode_spec(bytes: Seq<u8>) -> Option<RecordModel> {
    if bytes.len() == RECORD_LEN && bytes[73] <= 1 {
        Some(
            RecordModel {
                template_id: bytes[0] as int,
                proof_hash: bytes.subrange(1, 33),
                public_signals_hash: bytes.subrange(33, 65),
                timestamp: le_i64(bytes.subrange(65, 73)),
                verified_by_snarkjs: bytes[73] == 1,
            },
        )
    } else {
        None
    }
}

/// Copies the 32 bytes that start at `at`.
fn read_hash(bytes: &[u8], at: usize) -> (hash: [u8; 32])
    requires
        at + HASH_LEN <= bytes.len(),
    ensures
        hash@ == bytes@.subrange(at as int, at + HASH_LEN),
{
    let mut hash = [0u8; 32];
    let mut i: usize = 0;
    while i < HASH_LEN
        invariant
            i <= HASH_LEN,
            at + HASH_LEN <= bytes.len(),
            forall|j: int| 0 <= j < i ==> hash@[j] == bytes@[at + j],
        decreases HASH_LEN - i,
    {
        hash[i] = bytes[at + i];
        i += 1;
    }
    assert(hash@ =~= bytes@.subrange(at as int, at + HASH_LEN));
    hash
}

/// Reads the little-endian signed number in the eight bytes that start at `at`.
fn read_i64(bytes: &[u8], at: usize) -> (value: i64)
    requires
        at + 8 <= bytes.len(),
    ensures
        value == le_i64(bytes@.subrange(at as int, at + 8)),
{
    let unsigned: u64 = bytes[at] as u64 + bytes[at + 1] as u64 * 0x100 + bytes[at + 2] as u64
        * 0x1_0000 + bytes[at + 3] as u64 * 0x100_0000 + bytes[at + 4] as u64 * 0x1_0000_0000
        + bytes[at + 5] as u64 * 0x100_0000_0000 + bytes[at + 6] as u64 * 0x1_0000_0000_0000
        + bytes[at + 7] as u64 * 0x100_0000_0000_0000;
    assert(unsigned == le_u64(bytes@.subrange(at as int, at + 8)));
    if unsigned < 0x8000_0000_0000_0000 {
        unsigned as i64
    } else {
        (unsigned - 0x8000_0000_0000_0000) as i64 + i64::MIN
    }
}

/// Decodes the wire form of a record.
///
/// A buffer that is shorter or longer than a record, or whose flag byte is
/// neither 0 nor 1, is malformed; no partly filled record ever comes out.
pub fn decode(bytes: &[u8]) -> (decoded: Result<VerificationRecord, DecodeError>)
    ensures
        decoded matches Ok(record) ==> decode_spec(bytes@) == Some(record@),
        decoded matches Err(e) ==> decode_spec(bytes@) is None && e == DecodeError::Malformed,
{
    if bytes.len() != RECORD_LEN {
        return Err(DecodeError::Malformed);
    }
    let flag: u8 = bytes[73];
    if flag > 1 {
        return Err(DecodeError::Malformed);
    }
    Ok(
        VerificationRecord {
            template_id: bytes[0],
            proof_hash: read_hash(bytes, 1),
            public_signals_hash: read_hash(bytes, 33),
            timestamp: read_i64(bytes, 65),
            verified_by_snarkjs: flag == 1,
        },
    )
}

impl VerificationRecord {
    /// Whether the proof hash is the all-zero placeholder.
    pub fn has_zero_proof_hash(&self) -> (zero: bool)
        ensures
            zero == all_zero(self@.proof_hash),
    {
        let mut i: usize = 0;
        while i < HASH_LEN
            invariant
                i <= HASH_LEN,
                forall|j: int| 0 <= j < i ==> self.proof_hash@[j] == 0,
            decreases HASH_LEN - i,
        {
            if self.proof_hash[i] != 0 {
                proof {
                    lemma_all_zero(self.proof_hash@);
                }
                return false;
            }
            i += 1;
        }
        proof {
            lemma_all_zero(self.proof_hash@);
        }
        true
    }

    /// Checks what the record claims: that the trusted verifier accepted the
    /// proof, and then that the proof hash is not all zeros.
    pub fn check_claim(&self) -> (checked: Result<(), ValidationError>)
        ensures
            checked == self@.check_claim(),
    {
        if !self.verified_by_snarkjs {
            return Err(ValidationError::ExternalVerificationMissing);
        }
        if self.has_zero_proof_hash() {
            return Err(ValidationError::DegenerateProofHash);
        }
        Ok(())
    }
}

} // verus!
