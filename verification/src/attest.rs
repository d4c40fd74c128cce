//! Submitting an attestation: decoding, validation, fingerprint, outcome.

use crate::error::VerifierError;
use crate::groth16::{proof_model, ProofMaterial, ProofModel};
use crate::record::{decode, decode_spec, RecordModel, VerificationRecord};
use crate::validate::{validate, validate_spec};
use vstd::prelude::*;

verus! {

/// How a submission ended. There is no third state.
#[derive(Clone, Copy, Debug, PartialEq, Eq)]
pub enum AttestationOutcome {
    /// The record passed every check; `fingerprint` binds the proof material.
    Accepted { fingerprint: [u8; 32], record: VerificationRecord },
    /// The submission was turned down for the reason given.
    Rejected { error: VerifierError },
}

/// An outcome as mathematical values.
pub enum OutcomeModel {
    Accepted { fingerprint: Seq<u8>, record: RecordModel },
    Rejected { error: VerifierError },
}

impl View for AttestationOutcome {
    type V = OutcomeModel;

    open spec fn view(&self) -> OutcomeModel {
        match *self {
            AttestationOutcome::Accepted { fingerprint, record } => OutcomeModel::Accepted {
                fingerprint: fingerprint@,
                record: record@,
            },
            AttestationOutcome::Rejected { error } => OutcomeModel::Rejected { error },
        }
    }
}

/// What becomes of a submission: it is decoded, then validated, and only a
/// record that passed both is accepted, with the fingerprint of its proof
/// material.
pub open spec fn submit_spec(raw: Seq<u8>, proof: ProofModel) -> OutcomeModel {
    match decode_spec(raw) {
        None => OutcomeModel::Rejected { error: VerifierError::Malformed },
        Some(record) => match validate_spec(record, proof) {
            Err(e) => OutcomeModel::Rejected { error: VerifierError::of_validation(e) },
            Ok(_) => OutcomeModel::Accepted { fingerprint: proof.fingerprint(), record },
        },
    }
}

/// Processes one submission from its raw bytes to its outcome.
///
/// Nothing is stored or sent here: the caller hands an accepted record and
/// its fingerprint on, and hands nothing on for a rejected one.
pub fn submit(raw: &[u8], proof: &ProofMaterial) -> (outcome: AttestationOutcome)
    ensures
        outcome@ == submit_spec(raw@, proof@),
{
    let record = match decode(raw) {
        Err(e) => {
            return AttestationOutcome::Rejected { error: VerifierError::from(e) };
        },
        Ok(record) => record,
    };
    match validate(&record, proof) {
        Err(e) => AttestationOutcome::Rejected { error: VerifierError::from(e) },
        Ok(()) => AttestationOutcome::Accepted { fingerprint: proof.fingerprint(), record },
    }
}

/// The notice that a proof was verified, for whoever listens to such notices.
#[derive(Clone, Copy, Debug, PartialEq, Eq)]
pub struct ProofVerified {
    /// The 32-byte address of the submitter.
    pub user: [u8; 32],
    /// When the submission was processed.
    pub timestamp: i64,
    /// Whether the proof passed; a notice built here always says so.
    pub verified: bool,
}

impl AttestationOutcome {
    /// The notice to send for this outcome: one with `verified` set for an
    /// accepted submission, none for a rejected one.
    pub fn event(&self, user: [u8; 32], timestamp: i64) -> (notice: Option<ProofVerified>)
        ensures
            notice is Some <==> self@ is Accepted,
            notice matches Some(event) ==> {
                &&& event.user == user
                &&& event.timestamp == timestamp
                &&& event.verified
            },
    {
        match self {
            AttestationOutcome::Accepted { .. } => Some(
                ProofVerified { user, timestamp, verified: true },
            ),
            AttestationOutcome::Rejected { .. } => None,
        }
    }
}

/// What the record instruction answers to `instruction_data`: the decoded
/// record if it claims a verified proof with a proof hash that is not all
/// zeros, the reason for the rejection otherwise.
pub open spec fn process_instruction_spec(instruction_data: Seq<u8>) -> Result<
    RecordModel,
    VerifierError,
> {
    match decode_spec(instruction_data) {
        None => Err(VerifierError::Malformed),
        Some(record) => match record.check_claim() {
            Err(e) => Err(VerifierError::of_validation(e)),
            Ok(_) => Ok(record),
        },
    }
}

/// Handles the instruction that files a verification record: decodes it and
/// checks what it claims. No proof material comes with this instruction, so
/// no structural check is made.
pub fn process_instruction(instruction_data: &[u8]) -> (filed: Result<
    VerificationRecord,
    VerifierError,
>)
    ensures
        filed matches Ok(record) ==> process_instruction_spec(instruction_data@) == Ok::<
            RecordModel,
            VerifierError,
        >(record@),
        filed matches Err(e) ==> process_instruction_spec(instruction_data@) == Err::<
            RecordModel,
            VerifierError,
        >(e),
{
    let record = match decode(instruction_data) {
        Err(e) => {
            return Err(VerifierError::from(e));
        },
        Ok(record) => record,
    };
    match record.check_claim() {
        Err(e) => Err(VerifierError::from(e)),
        Ok(()) => Ok(record),
    }
}

/// Handles the instruction that submits a proof: checks the structure of the
/// proof and, if it is well formed, returns the notice to emit for `user` at
/// `timestamp`. The public inputs have no part in the structural check.
pub fn verify_proof(
    user: [u8; 32],
    timestamp: i64,
    proof_a: &[u8],
    proof_b: &[u8],
    proof_c: &[u8],
    public_inputs: &[[u8; 32]],
) -> (emitted: Result<ProofVerified, VerifierError>)
    ensures
        emitted matches Ok(event) ==> {
            &&& proof_model(proof_a@, proof_b@, proof_c@, public_inputs@).structure_ok()
            &&& event.user == user
            &&& event.timestamp == timestamp
            &&& event.verified
        },
        emitted matches Err(e) ==> {
            &&& proof_model(proof_a@, proof_b@, proof_c@, public_inputs@).check_structure()
                matches Err(cause)
            &&& e == VerifierError::of_validation(cause)
        },
{
    let proof = ProofMaterial { proof_a, proof_b, proof_c, public_inputs };
    match proof.check_structure() {
        Err(e) => Err(VerifierError::from(e)),
        Ok(()) => Ok(ProofVerified { user, timestamp, verified: true }),
    }
}

} // verus!
