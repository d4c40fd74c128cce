//! The ways in which a submission is turned down.

use vstd::prelude::*;
use vstd::std_specs::convert::FromSpecImpl;

verus! {

/// One of the three group elements of a Groth16 proof.
#[derive(Clone, Copy, Debug, PartialEq, Eq, Structural)]
pub enum ProofField {
    A,
    B,
    C,
}

/// Why a byte buffer is not the wire form of a record.
#[derive(Clone, Copy, Debug, PartialEq, Eq, Structural)]
pub enum DecodeError {
    /// The buffer is too short, too long, or holds a byte that no record encodes to.
    Malformed,
}

/// Why a decoded submission is not accepted.
#[derive(Clone, Copy, Debug, PartialEq, Eq, Structural)]
pub enum ValidationError {
    /// A proof element does not have its fixed width.
    InvalidProofFormat { field: ProofField },
    /// The record does not claim that the trusted verifier checked the proof.
    ExternalVerificationMissing,
    /// The proof hash is the all-zero placeholder.
    DegenerateProofHash,
}

/// Every reason for which a submission ends rejected, decoding and
/// validation taken together.
#[derive(Clone, Copy, Debug, PartialEq, Eq, Structural)]
pub enum VerifierError {
    /// The input bytes are not the wire form of a record.
    Malformed,
    /// A proof element does not have its fixed width.
    InvalidProofFormat { field: ProofField },
    /// The record does not claim that the trusted verifier checked the proof.
    ExternalVerificationMissing,
    /// The proof hash is the all-zero placeholder.
    DegenerateProofHash,
}

impl VerifierError {
    /// The rejection that a decoding failure leads to.
    pub open spec fn of_decode(e: DecodeError) -> VerifierError {
        VerifierError::Malformed
    }

    /// The rejection that a validation failure leads to: the same kind, with
    /// the same field.
    pub open spec fn of_validation(e: ValidationError) -> VerifierError {
        match e {
            ValidationError::InvalidProofFormat { field } => VerifierError::InvalidProofFormat {
                field,
            },
            ValidationError::ExternalVerificationMissing => {
                VerifierError::ExternalVerificationMissing
            },
            ValidationError::DegenerateProofHash => VerifierError::DegenerateProofHash,
        }
    }
}

impl From<DecodeError> for VerifierError {
    fn from(e: DecodeError) -> (kind: VerifierError)
        ensures
            kind == VerifierError::of_decode(e),
    {
        VerifierError::Malformed
    }
}

impl FromSpecImpl<DecodeError> for VerifierError {
    open spec fn obeys_from_spec() -> bool {
        true
    }

    open spec fn from_spec(e: DecodeError) -> VerifierError {
        VerifierError::of_decode(e)
    }
}

impl From<ValidationError> for VerifierError {
    fn from(e: ValidationError) -> (kind: VerifierError)
        ensures
            kind == VerifierError::of_validation(e),
    {
        match e {
            ValidationError::InvalidProofFormat { field } => VerifierError::InvalidProofFormat {
                field,
            },
            ValidationError::ExternalVerificationMissing => {
                VerifierError::ExternalVerificationMissing
            },
            ValidationError::DegenerateProofHash => VerifierError::DegenerateProofHash,
        }
    }
}

impl FromSpecImpl<ValidationError> for VerifierError {
    open spec fn obeys_from_spec() -> bool {
        true
    }

    open spec fn from_spec(e: ValidationError) -> VerifierError {
        VerifierError::of_validation(e)
    }
}

} // verus!
