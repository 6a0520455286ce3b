use ark_ff::{BigInteger, PrimeField};
use meridian_contracts::zk::{
    is_canonical_field_element, reduce_mod_bn254, validate_proof_payload, validate_public_inputs,
    GROTH16_BN254_PROOF_LEN, MAX_PROOF_LEN, MAX_PUBLIC_INPUTS, MIN_PROOF_LEN,
};

const BN254_MODULUS_LIMBS_LE: [u64; 4] = [
    0x43e1_f593_f000_0001,
    0x2833_e848_79b9_7091,
    0xb850_45b6_8181_585d,
    0x3064_4e72_e131_a029,
];

fn bytes_of(limbs: &[u64; 4]) -> [u8; 32] {
    let mut out = [0u8; 32];
    for (i, limb) in limbs.iter().enumerate() {
        for j in 0..8 {
            out[i * 8 + j] = ((limb >> (8 * j)) & 0xff) as u8;
        }
    }
    out
}

#[test]
fn payload_length_window() {
    assert!(!validate_proof_payload(&[]));
    assert!(!validate_proof_payload(&[0u8; 31]));
    assert!(validate_proof_payload(&[0u8; GROTH16_BN254_PROOF_LEN]));
    assert!(validate_proof_payload(&[0u8; 512]));
    assert!(!validate_proof_payload(&[0u8; MAX_PROOF_LEN + 1]));
}

#[test]
fn canonical_field_element_boundaries() {
    assert!(is_canonical_field_element(&[0u8; 32]));
    assert!(!is_canonical_field_element(&[0xffu8; 32]));
    let m_minus_one = bytes_of(&[
        0x43e1_f593_f000_0000u64,
        0x2833_e848_79b9_7091u64,
        0xb850_45b6_8181_585du64,
        0x3064_4e72_e131_a029u64,
    ]);
    assert!(is_canonical_field_element(&m_minus_one));
    let mut modulus = m_minus_one;
    modulus[0] = modulus[0].wrapping_add(1);
    assert!(!is_canonical_field_element(&modulus));
}

#[test]
fn public_inputs_validation() {
    assert!(!validate_public_inputs(&[]));
    assert!(validate_public_inputs(&[[0u8; 32]]));
    assert!(!validate_public_inputs(&[[0xffu8; 32]]));
    let many = [[0u8; 32]; MAX_PUBLIC_INPUTS];
    assert!(validate_public_inputs(&many));
    let too_many = [[0u8; 32]; MAX_PUBLIC_INPUTS + 1];
    assert!(!validate_public_inputs(&too_many));
}

#[test]
fn reduce_mod_bn254_properties() {
    assert_eq!(reduce_mod_bn254(&[0u8; 32]), [0u8; 32]);
    let mut one = [0u8; 32];
    one[0] = 1;
    assert_eq!(reduce_mod_bn254(&one), one);

    let modulus = bytes_of(&BN254_MODULUS_LIMBS_LE);
    assert_eq!(reduce_mod_bn254(&modulus), [0u8; 32]);

    let mut m_plus_one = modulus;
    m_plus_one[0] = m_plus_one[0].wrapping_add(1);
    assert_eq!(reduce_mod_bn254(&m_plus_one), one);

    let all_ones = [0xffu8; 32];
    let reduced = reduce_mod_bn254(&all_ones);
    assert!(is_canonical_field_element(&reduced));
    assert_eq!(reduce_mod_bn254(&reduced), reduced);
}

#[test]
fn malformed_inputs_are_rejected() {
    assert!(!validate_proof_payload(&[]));
    assert!(!validate_proof_payload(&[0u8; MIN_PROOF_LEN - 1]));
    assert!(!validate_proof_payload(&[0u8; MAX_PROOF_LEN + 1]));
    assert!(validate_public_inputs(&[[0u8; 32]]));
    assert!(!validate_public_inputs(&[[0xffu8; 32]]));
    let mut modulus = bytes_of(&BN254_MODULUS_LIMBS_LE);
    assert!(!is_canonical_field_element(&modulus));
    modulus[0] = modulus[0].wrapping_sub(1);
    assert!(is_canonical_field_element(&modulus));
}

#[test]
fn proof_payload_window_boundaries() {
    assert!(validate_proof_payload(&[0u8; MIN_PROOF_LEN]));
    assert!(validate_proof_payload(&[0u8; GROTH16_BN254_PROOF_LEN]));
    assert!(validate_proof_payload(&[0u8; MAX_PROOF_LEN]));
    assert!(!validate_proof_payload(&[0u8; MAX_PROOF_LEN + 1]));
}

#[test]
fn reduction_subtracts_the_modulus_once_from_large_values() {
    let mut two_m = [0u8; 32];
    // 2 * modulus fits in 256 bits; it reduces to zero.
    let m = bytes_of(&BN254_MODULUS_LIMBS_LE);
    let mut carry = 0u16;
    for i in 0..32 {
        let s = m[i] as u16 * 2 + carry;
        two_m[i] = (s & 0xff) as u8;
        carry = s >> 8;
    }
    assert_eq!(carry, 0);
    assert_eq!(reduce_mod_bn254(&two_m), [0u8; 32]);
}

#[test]
fn canonical_bound_is_the_scalar_field_order() {
    let r = bytes_of(&BN254_MODULUS_LIMBS_LE);
    assert_eq!(
        ark_bn254::Fr::MODULUS.to_bytes_le(),
        r.to_vec()
    );
    let base_field_minus_one = bytes_of(&[
        0x3c20_8c16_d87c_fd46,
        0x9781_6a91_6871_ca8d,
        0xb850_45b6_8181_585d,
        0x3064_4e72_e131_a029,
    ]);
    assert!(!is_canonical_field_element(&base_field_minus_one));
    let reduced = reduce_mod_bn254(&base_field_minus_one);
    let expected = ark_bn254::Fr::from_le_bytes_mod_order(&base_field_minus_one);
    assert_eq!(expected.into_bigint().to_bytes_le(), reduced.to_vec());
}
