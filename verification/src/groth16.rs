//! The proof material of a Groth16 proof and its fingerprint.

use crate::error::{ProofField, ValidationError};
use crate::keccak::{keccak256, keccak_hash};
use vstd::prelude::*;

verus! {

/// Width in bytes of `proof_a`: a point of the base group, two coordinates.
pub const PROOF_A_LEN: usize = 64;

/// Width in bytes of `proof_b`: a point of the extension-field group, four field elements.
pub const PROOF_B_LEN: usize = 128;

/// Width in bytes of `proof_c`: a point of the base group, two coordinates.
pub const PROOF_C_LEN: usize = 64;

/// Width in bytes of one public input.
pub const PUBLIC_INPUT_LEN: usize = 32;

/// What a proof is made of, as mathematical sequences.
pub struct ProofModel {
    pub proof_a: Seq<u8>,
    pub proof_b: Seq<u8>,
    pub proof_c: Seq<u8>,
    pub public_inputs: Seq<[u8; 32]>,
}

/// The public inputs laid end to end: byte `k` of the result is byte
/// `k % 32` of input `k / 32`.
pub open spec fn concat_inputs(inputs: Seq<[u8; 32]>) -> Seq<u8> {
    Seq::new(32 * inputs.len(), |k: int| inputs[k / 32][k % 32])
}

impl ProofModel {
    /// The three proof elements have their fixed widths.
    pub open spec fn structure_ok(self) -> bool {
        &&& self.proof_a.len() == PROOF_A_LEN
        &&& self.proof_b.len() == PROOF_B_LEN
        &&& self.proof_c.len() == PROOF_C_LEN
    }

    /// The outcome of the structural check: the first element, in the order
    /// A, B, C, whose width is wrong.
    pub open spec fn check_structure(self) -> Result<(), ValidationError> {
        if self.proof_a.len() != PROOF_A_LEN {
            Err(ValidationError::InvalidProofFormat { field: ProofField::A })
        } else if self.proof_b.len() != PROOF_B_LEN {
            Err(ValidationError::InvalidProofFormat { field: ProofField::B })
        } else if self.proof_c.len() != PROOF_C_LEN {
            Err(ValidationError::InvalidProofFormat { field: ProofField::C })
        } else {
            Ok(())
        }
    }

    /// The bytes that are hashed: `proof_a`, `proof_b`, `proof_c` and then
    /// every public input in order, with nothing between them.
    pub open spec fn hash_input(self) -> Seq<u8> {
        self.proof_a + self.proof_b + self.proof_c + concat_inputs(self.public_inputs)
    }

    /// The fingerprint: the Keccak-256 digest of the hash input.
    pub open spec fn fingerprint(self) -> Seq<u8> {
        keccak256(self.hash_input())
    }
}

/// The proof that three byte strings and a list of public inputs make up.
pub open spec fn proof_model(
    proof_a: Seq<u8>,
    proof_b: Seq<u8>,
    proof_c: Seq<u8>,
    public_inputs: Seq<[u8; 32]>,
) -> ProofModel {
    ProofModel { proof_a, proof_b, proof_c, public_inputs }
}

/// The proof elements and public inputs of one submission. It borrows the
/// bytes and lives only while the submission is processed.
#[derive(Clone, Copy, Debug, PartialEq, Eq)]
pub struct ProofMaterial<'a> {
    pub proof_a: &'a [u8],
    pub proof_b: &'a [u8],
    pub proof_c: &'a [u8],
    pub public_inputs: &'a [[u8; 32]],
}

impl<'a> View for ProofMaterial<'a> {
    type V = ProofModel;

    open spec fn view(&self) -> ProofModel {
        proof_model(self.proof_a@, self.proof_b@, self.proof_c@, self.public_inputs@)
    }
}

impl<'a> ProofMaterial<'a> {
    /// Checks the widths of `proof_a`, `proof_b` and `proof_c`, in that
    /// order, and reports the first that is wrong.
    pub fn check_structure(&self) -> (checked: Result<(), ValidationError>)
        ensures
            checked == self@.check_structure(),
    {
        if self.proof_a.len() != PROOF_A_LEN {
            return Err(ValidationError::InvalidProofFormat { field: ProofField::A });
        }
        if self.proof_b.len() != PROOF_B_LEN {
            return Err(ValidationError::InvalidProofFormat { field: ProofField::B });
        }
        if self.proof_c.len() != PROOF_C_LEN {
            return Err(ValidationError::InvalidProofFormat { field: ProofField::C });
        }
        Ok(())
    }

    /// Lays out the bytes to hash: the three proof elements, then the public
    /// inputs in their order. No padding and no length prefix is added.
    pub fn hash_input(&self) -> (bytes: Vec<u8>)
        ensures
            bytes@ == self@.hash_input(),
    {
        let mut bytes: Vec<u8> = Vec::new();
        bytes.extend_from_slice(self.proof_a);
        bytes.extend_from_slice(self.proof_b);
        bytes.extend_from_slice(self.proof_c);
        assert(bytes@ == self.proof_a@ + self.proof_b@ + self.proof_c@);
        let ghost head = bytes@;
        let n: usize = self.public_inputs.len();
        let mut i: usize = 0;
        while i < n
            invariant
                i <= n,
                n == self.public_inputs@.len(),
                bytes@ == head + concat_inputs(self.public_inputs@.take(i as int)),
            decreases n - i,
        {
            let input: &[u8; 32] = &self.public_inputs[i];
            bytes.extend_from_slice(input);
            assert(bytes@ == head + concat_inputs(self.public_inputs@.take(i + 1))) by {
                let done = concat_inputs(self.public_inputs@.take(i as int));
                assert(concat_inputs(self.public_inputs@.take(i + 1)) =~= done + input@);
            }
            i += 1;
        }
        assert(self.public_inputs@.take(n as int) == self.public_inputs@);
        bytes
    }

    /// The fingerprint of the proof material: the Keccak-256 digest of
    /// [`ProofMaterial::hash_input`]. Equal material always has an equal
    /// fingerprint, since the digest is a function of the hashed bytes.
    pub fn fingerprint(&self) -> (digest: [u8; 32])
        ensures
            digest@ == self@.fingerprint(),
    {
        let bytes = self.hash_input();
        keccak_hash(bytes.as_slice())
    }
}

/// Checks the structure of a Groth16 proof and returns its verification
/// hash, the fingerprint of the proof elements and public inputs.
///
/// No pairing check is made: `Ok` says that the proof is well formed, not
/// that it is sound.
pub fn verify_proof_groth16(
    proof_a: &[u8],
    proof_b: &[u8],
    proof_c: &[u8],
    public_inputs: &[[u8; 32]],
) -> (verified: Result<[u8; 32], ValidationError>)
    ensures
        verified matches Ok(hash) ==> {
            &&& proof_model(proof_a@, proof_b@, proof_c@, public_inputs@).structure_ok()
            &&& hash@ == proof_model(proof_a@, proof_b@, proof_c@, public_inputs@).fingerprint()
        },
        verified matches Err(e) ==> proof_model(
            proof_a@,
            proof_b@,
            proof_c@,
            public_inputs@,
        ).check_structure() == Err::<(), ValidationError>(e),
{
    let proof = ProofMaterial { proof_a, proof_b, proof_c, public_inputs };
    match proof.check_structure() {
        Err(e) => Err(e),
        Ok(()) => Ok(proof.fingerprint()),
    }
}

} // verus!
