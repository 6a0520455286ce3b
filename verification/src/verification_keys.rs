//! Groth16 (Bn254) verification-key handling and proof checking.
//!
//! Proofs and keys travel in compressed arkworks serialization; public
//! inputs are 32-byte little-endian scalars that must be canonical.
use vstd::prelude::*;
use ark_bn254::{Bn254, Fr};
use ark_ff::PrimeField;
use ark_groth16::{Groth16, PreparedVerifyingKey, Proof, VerifyingKey};
use ark_serialize::CanonicalDeserialize;
use ark_snark::SNARK;
use crate::zk::{MAX_PROOF_LEN, public_inputs_well_formed, validate_public_inputs as zk_validate_public_inputs};

verus! {

/// What checking a Groth16 proof against a key came to.
#[derive(Clone, Copy, Debug, PartialEq, Eq, Structural)]
pub enum Groth16Outcome {
    /// The key bytes are not a compressed Bn254 verifying key.
    MalformedKey,
    /// The proof bytes are not a compressed Bn254 proof.
    MalformedProof,
    /// The verifier refused the inputs (e.g. their number does not match
    /// the key).
    VerifierError,
    /// The pairing check ran; `true` when the proof is valid.
    Checked(bool),
}

/// Whether the bytes decode as a compressed Bn254 Groth16 verifying key.
pub uninterp spec fn vk_decodes(vk: Seq<u8>) -> bool;

/// The outcome of checking `proof` for `inputs` against the key `vk`.
pub uninterp spec fn groth16_outcome(vk: Seq<u8>, inputs: Seq<[u8; 32]>, proof: Seq<u8>) -> Groth16Outcome;

/// Whether `vk` decodes, through `VerifyingKey::<Bn254>::deserialize_compressed`.
/// Trusted: the result is the named decodability of the bytes.
#[verifier::external_body]
pub(crate) fn vk_is_well_formed(vk: &[u8]) -> (r: bool)
    ensures
        r == vk_decodes(vk@),
{
    VerifyingKey::<Bn254>::deserialize_compressed(vk).is_ok()
}

/// Check `proof` for `inputs` against `vk` through
/// `Groth16::<Bn254>::verify_with_processed_vk`, after decoding the key and
/// the proof (`deserialize_compressed`) and reading each input with
/// `Fr::from_le_bytes_mod_order`. Trusted: the result is the named outcome
/// of the three byte strings, and it reports a malformed key exactly when
/// the key bytes do not decode.
#[verifier::external_body]
pub(crate) fn groth16_check(vk: &[u8], inputs: &[[u8; 32]], proof: &[u8]) -> (r: Groth16Outcome)
    ensures
        r == groth16_outcome(vk@, inputs@, proof@),
        (r == Groth16Outcome::MalformedKey) == !vk_decodes(vk@),
{
    let Ok(key) = VerifyingKey::<Bn254>::deserialize_compressed(vk) else { return Groth16Outcome::MalformedKey };
    let xs: Vec<Fr> = inputs.iter().map(|b| Fr::from_le_bytes_mod_order(b)).collect();
    let Ok(p) = Proof::<Bn254>::deserialize_compressed(proof) else { return Groth16Outcome::MalformedProof };
    match Groth16::<Bn254>::verify_with_processed_vk(&PreparedVerifyingKey::from(key), &xs, &p) {
        Ok(valid) => Groth16Outcome::Checked(valid),
        Err(_) => Groth16Outcome::VerifierError,
    }
}

/// The proof payload is non-empty and at most `MAX_PROOF_LEN` bytes.
pub open spec fn payload_accepted(len: nat) -> bool {
    0 < len <= MAX_PROOF_LEN
}

/// Returns `true` when the 32 little-endian bytes encode a canonical Bn254
/// scalar field element.
pub fn is_canonical_field_element(bytes: &[u8; 32]) -> (r: bool)
    ensures
        r == crate::zk::is_canonical(*bytes),
{
    crate::zk::is_canonical_field_element(bytes)
}

/// Returns `true` when the proof payload is inside the accepted length
/// window.
pub fn validate_proof_payload(payload: &[u8]) -> (r: bool)
    ensures
        r == payload_accepted(payload@.len()),
{
    payload.len() != 0 && payload.len() <= MAX_PROOF_LEN
}

/// Returns `true` when the public-input set is non-empty, bounded, and every
/// element is canonical.
pub fn validate_public_inputs(inputs: &[[u8; 32]]) -> (r: bool)
    ensures
        r == public_inputs_well_formed(inputs@),
{
    zk_validate_public_inputs(inputs)
}

} // verus!
