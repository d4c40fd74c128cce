//! What holds of every submission, proved once for all inputs.

use crate::attest::{submit_spec, OutcomeModel};
use crate::error::{ProofField, ValidationError, VerifierError};
use crate::groth16::{concat_inputs, ProofMaterial, ProofModel};
use crate::keccak::keccak_collision;
use crate::record::{all_zero, decode_spec, le_i64, le_u64, RecordModel};
use crate::validate::validate_spec;
use vstd::prelude::*;

verus! {

/// The hash input determines the proof material it was laid out from, as
/// long as the proof elements have their fixed widths: the widths say where
/// each element ends, and the rest splits into 32-byte public inputs.
pub proof fn lemma_hash_input_injective(p: ProofModel, q: ProofModel)
    requires
        p.structure_ok(),
        q.structure_ok(),
        p.hash_input() == q.hash_input(),
    ensures
        p == q,
{
    let h = p.hash_input();
    assert(p.proof_a =~= h.subrange(0, 64));
    assert(q.proof_a =~= h.subrange(0, 64));
    assert(p.proof_b =~= h.subrange(64, 192));
    assert(q.proof_b =~= h.subrange(64, 192));
    assert(p.proof_c =~= h.subrange(192, 256));
    assert(q.proof_c =~= h.subrange(192, 256));
    let pi = concat_inputs(p.public_inputs);
    let qi = concat_inputs(q.public_inputs);
    assert(pi =~= h.subrange(256, h.len() as int));
    assert(qi =~= h.subrange(256, h.len() as int));
    assert(p.public_inputs.len() == q.public_inputs.len());
    assert forall|i: int| 0 <= i < p.public_inputs.len() implies p.public_inputs[i]
        == q.public_inputs[i] by {
        assert forall|j: int| 0 <= j < 32 implies p.public_inputs[i][j] == q.public_inputs[i][j] by {
            assert(pi[32 * i + j] == p.public_inputs[i][j]);
            assert(qi[32 * i + j] == q.public_inputs[i][j]);
        }
        assert(p.public_inputs[i] =~= q.public_inputs[i]);
    }
    assert(p.public_inputs =~= q.public_inputs);
}

/// Laying the public inputs end to end is concatenating them one after
/// another.
pub proof fn lemma_concat_inputs_is_flatten(inputs: Seq<[u8; 32]>)
    ensures
        concat_inputs(inputs) == inputs.map_values(|input: [u8; 32]| input@).flatten(),
    decreases inputs.len(),
{
    let views = inputs.map_values(|input: [u8; 32]| input@);
    if inputs.len() == 0 {
        assert(concat_inputs(inputs) =~= views.flatten());
    } else {
        let front = inputs.drop_last();
        lemma_concat_inputs_is_flatten(front);
        let front_views = front.map_values(|input: [u8; 32]| input@);
        assert(views =~= front_views.push(inputs.last()@));
        front_views.lemma_flatten_push(inputs.last()@);
        assert(concat_inputs(inputs) =~= concat_inputs(front) + inputs.last()@);
    }
}

/// Splitting a number into its lowest byte and the rest has one answer.
proof fn lemma_low_byte(low: int, rest: int, other_low: int, other_rest: int)
    requires
        0 <= low < 256,
        0 <= other_low < 256,
        low + 256 * rest == other_low + 256 * other_rest,
    ensures
        low == other_low,
        rest == other_rest,
{
}

/// Eight bytes spell one unsigned number, and no other eight bytes spell it.
proof fn lemma_le_u64_injective(s: Seq<u8>, t: Seq<u8>)
    requires
        s.len() == 8,
        t.len() == 8,
        le_u64(s) == le_u64(t),
    ensures
        0 <= le_u64(s) < 0x1_0000_0000_0000_0000,
        s == t,
{
    let s1 = s[1] + s[2] * 0x100 + s[3] * 0x1_0000 + s[4] * 0x100_0000 + s[5] * 0x1_0000_0000
        + s[6] * 0x100_0000_0000 + s[7] * 0x1_0000_0000_0000;
    let t1 = t[1] + t[2] * 0x100 + t[3] * 0x1_0000 + t[4] * 0x100_0000 + t[5] * 0x1_0000_0000
        + t[6] * 0x100_0000_0000 + t[7] * 0x1_0000_0000_0000;
    lemma_low_byte(s[0] as int, s1, t[0] as int, t1);
    let s2 = s[2] + s[3] * 0x100 + s[4] * 0x1_0000 + s[5] * 0x100_0000 + s[6] * 0x1_0000_0000
        + s[7] * 0x100_0000_0000;
    let t2 = t[2] + t[3] * 0x100 + t[4] * 0x1_0000 + t[5] * 0x100_0000 + t[6] * 0x1_0000_0000
        + t[7] * 0x100_0000_0000;
    lemma_low_byte(s[1] as int, s2, t[1] as int, t2);
    let s3 = s[3] + s[4] * 0x100 + s[5] * 0x1_0000 + s[6] * 0x100_0000 + s[7] * 0x1_0000_0000;
    let t3 = t[3] + t[4] * 0x100 + t[5] * 0x1_0000 + t[6] * 0x100_0000 + t[7] * 0x1_0000_0000;
    lemma_low_byte(s[2] as int, s3, t[2] as int, t3);
    let s4 = s[4] + s[5] * 0x100 + s[6] * 0x1_0000 + s[7] * 0x100_0000;
    let t4 = t[4] + t[5] * 0x100 + t[6] * 0x1_0000 + t[7] * 0x100_0000;
    lemma_low_byte(s[3] as int, s4, t[3] as int, t4);
    let s5 = s[5] + s[6] * 0x100 + s[7] * 0x1_0000;
    let t5 = t[5] + t[6] * 0x100 + t[7] * 0x1_0000;
    lemma_low_byte(s[4] as int, s5, t[4] as int, t5);
    let s6 = s[6] + s[7] * 0x100;
    let t6 = t[6] + t[7] * 0x100;
    lemma_low_byte(s[5] as int, s6, t[5] as int, t6);
    lemma_low_byte(s[6] as int, s[7] as int, t[6] as int, t[7] as int);
    assert(s =~= t);
}

/// The wire form is canonical: no two byte strings decode to the same
/// record.
pub proof fn lemma_decode_injective(x: Seq<u8>, y: Seq<u8>)
    requires
        decode_spec(x) is Some,
        decode_spec(x) == decode_spec(y),
    ensures
        x == y,
{
    let xt = x.subrange(65, 73);
    let yt = y.subrange(65, 73);
    assert(le_i64(xt) == le_i64(yt));
    lemma_le_u64_injective(xt, xt);
    lemma_le_u64_injective(yt, yt);
    lemma_le_u64_injective(xt, yt);
    assert forall|i: int| 0 <= i < 74 implies x[i] == y[i] by {
        if 1 <= i < 33 {
            assert(x.subrange(1, 33)[i - 1] == y.subrange(1, 33)[i - 1]);
        } else if 33 <= i < 65 {
            assert(x.subrange(33, 65)[i - 33] == y.subrange(33, 65)[i - 33]);
        } else if 65 <= i < 73 {
            assert(xt[i - 65] == yt[i - 65]);
        }
    }
    assert(x =~= y);
}

/// Determinism of the fingerprint: whatever `ProofMaterial::fingerprint`
/// returns for two submissions with the same bytes is the same digest.
pub proof fn lemma_fingerprint_deterministic(
    p: ProofMaterial,
    q: ProofMaterial,
    first: [u8; 32],
    second: [u8; 32],
)
    ensures
        p@ == q@ && first@ == p@.fingerprint() && second@ == q@.fingerprint() ==> first == second,
{
    if p@ == q@ && first@ == p@.fingerprint() && second@ == q@.fingerprint() {
        assert(first =~= second);
    }
}

/// Sensitivity of the fingerprint: two well-formed proofs that differ
/// anywhere, be it in a single byte, have different fingerprints, unless
/// Keccak-256 itself maps their two hash inputs to one digest.
pub proof fn lemma_fingerprint_sensitive(p: ProofModel, q: ProofModel)
    requires
        p.structure_ok(),
        q.structure_ok(),
        p != q,
    ensures
        p.hash_input() != q.hash_input(),
        p.fingerprint() != q.fingerprint() || keccak_collision(p.hash_input(), q.hash_input()),
{
    if p.hash_input() == q.hash_input() {
        lemma_hash_input_injective(p, q);
    }
}

/// The proof material `p` with the public inputs at `i` and `j` exchanged.
pub open spec fn swap_inputs(p: ProofModel, i: int, j: int) -> ProofModel {
    ProofModel {
        public_inputs: p.public_inputs.update(i, p.public_inputs[j]).update(j, p.public_inputs[i]),
        ..p
    }
}

/// The fingerprint depends on the order of the public inputs: exchanging two
/// that differ changes it, unless Keccak-256 itself maps the two hash inputs
/// to one digest. Exchanging two equal inputs changes nothing.
pub proof fn lemma_fingerprint_order_sensitive(p: ProofModel, i: int, j: int)
    requires
        p.structure_ok(),
        0 <= i < p.public_inputs.len(),
        0 <= j < p.public_inputs.len(),
        p.public_inputs[i] != p.public_inputs[j],
    ensures
        swap_inputs(p, i, j).hash_input() != p.hash_input(),
        swap_inputs(p, i, j).fingerprint() != p.fingerprint() || keccak_collision(
            swap_inputs(p, i, j).hash_input(),
            p.hash_input(),
        ),
{
    let q = swap_inputs(p, i, j);
    assert(q.public_inputs[i] == p.public_inputs[j]);
    lemma_fingerprint_sensitive(q, p);
}

/// A proof element of the wrong width is always reported, under its own
/// name: `proof_a` first, `proof_b` if `proof_a` is sound, `proof_c` if both
/// are. Nothing that the record holds changes that.
pub proof fn lemma_wrong_width_rejected(record: RecordModel, proof: ProofModel)
    ensures
        proof.proof_a.len() != 64 ==> validate_spec(record, proof) == Err::<(), ValidationError>(
            ValidationError::InvalidProofFormat { field: ProofField::A },
        ),
        proof.proof_a.len() == 64 && proof.proof_b.len() != 128 ==> validate_spec(record, proof)
            == Err::<(), ValidationError>(
            ValidationError::InvalidProofFormat { field: ProofField::B },
        ),
        proof.proof_a.len() == 64 && proof.proof_b.len() == 128 && proof.proof_c.len() != 64
            ==> validate_spec(record, proof) == Err::<(), ValidationError>(
            ValidationError::InvalidProofFormat { field: ProofField::C },
        ),
        validate_spec(record, proof) is Ok ==> proof.structure_ok(),
{
}

/// The trust-flag gate: with well-formed proof elements, a record that does
/// not claim verification is rejected for exactly that, whatever its hashes
/// are, and so is every submission that decodes to it.
pub proof fn lemma_trust_flag_gate(record: RecordModel, proof: ProofModel, raw: Seq<u8>)
    requires
        proof.structure_ok(),
        !record.verified_by_snarkjs,
    ensures
        validate_spec(record, proof) == Err::<(), ValidationError>(
            ValidationError::ExternalVerificationMissing,
        ),
        decode_spec(raw) == Some(record) ==> submit_spec(raw, proof) == (OutcomeModel::Rejected {
            error: VerifierError::ExternalVerificationMissing,
        }),
{
}

/// The degenerate-hash gate: with well-formed proof elements, a record that
/// claims verification but carries the all-zero proof hash is rejected for
/// exactly that, and so is every submission that decodes to it.
pub proof fn lemma_degenerate_hash_gate(record: RecordModel, proof: ProofModel, raw: Seq<u8>)
    requires
        proof.structure_ok(),
        record.verified_by_snarkjs,
        all_zero(record.proof_hash),
    ensures
        validate_spec(record, proof) == Err::<(), ValidationError>(
            ValidationError::DegenerateProofHash,
        ),
        decode_spec(raw) == Some(record) ==> submit_spec(raw, proof) == (OutcomeModel::Rejected {
            error: VerifierError::DegenerateProofHash,
        }),
{
}

/// A submission is accepted exactly when it decodes, its proof elements
/// have their widths, its record claims verification and its proof hash is
/// not all zeros; the outcome then holds that record and the fingerprint of
/// the proof material.
pub proof fn lemma_accepted_iff_valid(raw: Seq<u8>, proof: ProofModel)
    ensures
        submit_spec(raw, proof) is Accepted <==> ({
            &&& decode_spec(raw) matches Some(record)
            &&& proof.structure_ok()
            &&& record.verified_by_snarkjs
            &&& !all_zero(record.proof_hash)
        }),
        submit_spec(raw, proof) is Accepted ==> submit_spec(raw, proof) == (OutcomeModel::Accepted {
            fingerprint: proof.fingerprint(),
            record: decode_spec(raw).unwrap(),
        }),
{
}

} // verus!
