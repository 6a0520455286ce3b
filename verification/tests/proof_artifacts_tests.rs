use blake2::Digest;
use ark_bn254::Fr;
use ark_ff::PrimeField;
use ark_serialize::CanonicalSerialize;
use meridian_contracts::proof_artifacts::{
    build_record, decode_statement, fingerprint_hex, statement_binding, statement_public_input, vk_fingerprint,
};
use meridian_contracts::zk_compliance::ZkCompliance;

#[test]
fn statement_hex_decodes_in_either_case() {
    assert_eq!(decode_statement(b"19f48c"), Some(vec![0x19, 0xf4, 0x8c]));
    assert_eq!(decode_statement(b"19F48C"), Some(vec![0x19, 0xf4, 0x8c]));
    assert_eq!(decode_statement(b""), Some(vec![]));
    assert_eq!(decode_statement(b"123"), None);
    assert_eq!(decode_statement(b"zz"), None);
}

#[test]
fn binding_is_the_blake2b_256_digest() {
    let statement = [0x19u8, 0xf4, 0x8c];
    let full = blake2::Blake2b::<blake2::digest::consts::U32>::digest(statement);
    let binding = statement_binding(&statement);
    assert_eq!(&binding[..], &full[..]);
    assert_ne!(statement_binding(b"other"), binding);
}

#[test]
fn prover_and_contract_bind_a_statement_alike() {
    for statement in [&b""[..], &[0x19u8, 0xf4, 0x8c][..], &b"a longer statement"[..]] {
        let public = statement_public_input(statement);
        assert_eq!(public, ZkCompliance::bind_public_input(statement));
        let binding = statement_binding(statement);
        let x = Fr::from_le_bytes_mod_order(&binding);
        let mut expected = Vec::new();
        x.serialize_compressed(&mut expected).unwrap();
        assert_eq!(public.to_vec(), expected);
    }
}

#[test]
fn record_lists_every_artifact_as_hex() {
    let statement = [0x19u8, 0xf4, 0x8c];
    let binding = statement_binding(&statement);
    let public = statement_public_input(&statement);
    let vk = vec![7u8; 40];
    let m = build_record("identity".to_string(), &statement, &vk, 128);
    assert_eq!(m.proof_type, "identity");
    assert_eq!(m.circuit, "factorization: a * b == public");
    assert_eq!(m.statement_hex, "19f48c");
    assert_eq!(m.binding_hex, hex::encode(binding));
    assert_eq!(m.public_input_hex, hex::encode(public));
    assert_eq!(m.vk_len, 40);
    assert_eq!(m.proof_len, 128);
    let expected: [u8; 32] = sha2::Sha256::digest(&vk).into();
    assert_eq!(vk_fingerprint(&vk), expected);
    assert_eq!(m.vk_hash_hex, hex::encode(expected));
    assert_eq!(fingerprint_hex(&vk), m.vk_hash_hex);
}
