//! Validation of a decoded record together with its proof material.

use crate::error::ValidationError;
use crate::groth16::{ProofMaterial, ProofModel};
use crate::record::{RecordModel, VerificationRecord};
use vstd::prelude::*;

verus! {

/// The outcome of validating a record together with its proof material:
/// the structural checks on the proof come first, the checks on what the
/// record claims second, and the first failure is the outcome.
pub open spec fn validate_spec(record: RecordModel, proof: ProofModel) -> Result<
    (),
    ValidationError,
> {
    match proof.check_structure() {
        Err(e) => Err(e),
        Ok(_) => record.check_claim(),
    }
}

/// Validates a decoded record and the proof material that came with it.
///
/// The checks run in a fixed order and stop at the first failure: the widths
/// of `proof_a`, `proof_b`, `proof_c`, then the verification flag, then the
/// proof hash. Malformed proof material is therefore turned down before the
/// flag is looked at.
pub fn validate(record: &VerificationRecord, proof: &ProofMaterial) -> (checked: Result<
    (),
    ValidationError,
>)
    ensures
        checked == validate_spec(record@, proof@),
{
    match proof.check_structure() {
        Err(e) => Err(e),
        Ok(()) => record.check_claim(),
    }
}

} // verus!
