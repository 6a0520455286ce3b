//! The artifacts the off-chain prover publishes for a statement: the
//! statement's binding, the key fingerprint and the record that
//! describes them.
//!
//! The binding is the statement's BLAKE2b-256 digest, and the public input
//! is that digest reduced into the Bn254 scalar field: the same input the
//! compliance contract binds the statement to. The key fingerprint is the
//! SHA-256 digest of the compressed verifying key. Byte strings appear in the
//! record as lowercase hex.
use vstd::prelude::*;
use ark_bn254::Fr;
use ark_ff::PrimeField;
use ark_serialize::CanonicalSerialize;
use crate::hashing::{blake2b_256, blake2b_256_digest, sha256, sha256_digest};
use crate::zk::{bn254_modulus, le_value32};
use crate::zk_compliance::{binds_statement, law_statement_binding_is_unique, statement_input};

verus! {

/// The lowercase hex digit of a value below 16.
pub open spec fn hex_digit(n: int) -> char {
    if n < 10 {
        (48 + n) as char
    } else {
        (87 + n) as char
    }
}

/// The lowercase hex text of a byte string: two digits per byte, high
/// nibble first.
pub open spec fn hex_text(bytes: Seq<u8>) -> Seq<char>
    decreases bytes.len(),
{
    if bytes.len() == 0 {
        Seq::empty()
    } else {
        hex_text(bytes.drop_last()) + seq![hex_digit(bytes.last() as int / 16), hex_digit(bytes.last() as int % 16)]
    }
}

/// The value of one hex digit (either case), if it is one.
pub open spec fn hex_value(c: u8) -> Option<u8> {
    if 48 <= c <= 57 {
        Some((c - 48) as u8)
    } else if 97 <= c <= 102 {
        Some((c - 87) as u8)
    } else if 65 <= c <= 70 {
        Some((c - 55) as u8)
    } else {
        None
    }
}

/// The bytes a hex text denotes, or `None` for an odd length or a character
/// that is not a hex digit.
pub open spec fn hex_bytes(text: Seq<u8>) -> Option<Seq<u8>>
    decreases text.len(),
{
    if text.len() % 2 == 1 {
        None
    } else if text.len() == 0 {
        Some(Seq::empty())
    } else {
        match (
            hex_bytes(text.subrange(0, text.len() - 2)),
            hex_value(text[text.len() - 2]),
            hex_value(text[text.len() - 1]),
        ) {
            (Some(prefix), Some(hi), Some(lo)) => Some(prefix.push((hi * 16 + lo) as u8)),
            _ => None,
        }
    }
}

/// `data` as lowercase hex, through `hex::encode`. Trusted: two lowercase
/// digits per byte, high nibble first.
#[verifier::external_body]
fn hex_encode(data: &[u8]) -> (r: String)
    ensures
        r@ == hex_text(data@),
{
    hex::encode(data)
}

/// The bytes `text` denotes, through `hex::decode`; `None` where it reports
/// an error. Trusted: it decodes exactly the even-length texts of hex
/// digits of either case, two digits per byte.
#[verifier::external_body]
fn hex_decode(text: &[u8]) -> (r: Option<Vec<u8>>)
    ensures
        match r {
            Some(v) => hex_bytes(text@) == Some(v@),
            None => hex_bytes(text@) is None,
        },
{
    hex::decode(text).ok()
}

/// The statement bytes given as hex text; `None` when the text is not an
/// even-length string of hex digits.
pub fn decode_statement(statement_hex: &[u8]) -> (r: Option<Vec<u8>>)
    ensures
        match r {
            Some(v) => hex_bytes(statement_hex@) == Some(v@),
            None => hex_bytes(statement_hex@) is None,
        },
{
    hex_decode(statement_hex)
}

/// The binding of a statement: its BLAKE2b-256 digest.
pub fn statement_binding(statement: &[u8]) -> (r: [u8; 32])
    ensures
        r@ == blake2b_256_digest(statement@),
{
    blake2b_256(statement)
}

/// The scalar `bytes` denote as a field element, in its compressed form,
/// through `Fr::from_le_bytes_mod_order` and `serialize_compressed`.
/// Trusted: the 32 little-endian bytes of the value reduced modulo the
/// scalar field order.
#[verifier::external_body]
fn field_element_bytes(bytes: &[u8; 32]) -> (r: [u8; 32])
    ensures
        le_value32(r) == le_value32(*bytes) % bn254_modulus(),
{
    let x = Fr::from_le_bytes_mod_order(bytes);
    let mut out = [0u8; 32];
    let _ = x.serialize_compressed(&mut out[..]);
    out
}

/// The public input the prover proves for a statement: its binding read as
/// a field element, serialized compressed. It is exactly the input the
/// compliance contract binds the statement to.
pub fn statement_public_input(statement: &[u8]) -> (r: [u8; 32])
    ensures
        binds_statement(statement@, r),
        r == statement_input(statement@),
{
    let binding = statement_binding(statement);
    let r = field_element_bytes(&binding);
    proof {
        law_statement_binding_is_unique(statement@, r, r);
    }
    r
}

/// The fingerprint of a compressed verifying key: its SHA-256 digest.
pub fn vk_fingerprint(vk_bytes: &[u8]) -> (r: [u8; 32])
    ensures
        r@ == sha256_digest(vk_bytes@),
{
    sha256(vk_bytes)
}

/// The record published beside the artifacts.
#[derive(Clone, Debug, PartialEq, Eq)]
pub struct ArtifactRecord {
    pub proof_type: String,
    pub circuit: String,
    pub statement_hex: String,
    pub binding_hex: String,
    pub vk_hash_hex: String,
    pub public_input_hex: String,
    pub vk_len: usize,
    pub proof_len: usize,
}

/// The record of the artifacts for `statement`: its proof type, the demo
/// circuit, the statement, its binding, the key fingerprint and the public
/// input as hex, and the key and proof lengths.
pub fn build_record(proof_type: String, statement: &[u8], vk_bytes: &[u8], proof_len: usize) -> (m:
    ArtifactRecord)
    ensures
        m.proof_type@ == proof_type@,
        m.circuit@ == "factorization: a * b == public"@,
        m.statement_hex@ == hex_text(statement@),
        m.binding_hex@ == hex_text(blake2b_256_digest(statement@)),
        m.vk_hash_hex@ == hex_text(sha256_digest(vk_bytes@)),
        m.public_input_hex@ == hex_text(statement_input(statement@)@),
        m.vk_len == vk_bytes@.len(),
        m.proof_len == proof_len,
{
    let binding = statement_binding(statement);
    let public_input = statement_public_input(statement);
    let vk_hash = vk_fingerprint(vk_bytes);
    ArtifactRecord {
        proof_type,
        circuit: "factorization: a * b == public".to_string(),
        statement_hex: hex_encode(statement),
        binding_hex: hex_encode(&binding),
        vk_hash_hex: hex_encode(&vk_hash),
        public_input_hex: hex_encode(&public_input),
        vk_len: vk_bytes.len(),
        proof_len,
    }
}

/// The key fingerprint as hex, as the registration hint prints it.
pub fn fingerprint_hex(vk_bytes: &[u8]) -> (r: String)
    ensures
        r@ == hex_text(sha256_digest(vk_bytes@)),
{
    let vk_hash = vk_fingerprint(vk_bytes);
    hex_encode(&vk_hash)
}

} // verus!
