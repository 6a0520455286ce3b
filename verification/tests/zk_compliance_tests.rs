use ark_bn254::{Bn254, Fr};
use ark_ff::{BigInteger, PrimeField, UniformRand};
use ark_groth16::Groth16;
use ark_relations::r1cs::{ConstraintSynthesizer, ConstraintSystemRef, LinearCombination, SynthesisError, Variable};
use ark_serialize::CanonicalSerialize;
use ark_snark::{CircuitSpecificSetupSNARK, SNARK};
use rand::rngs::StdRng;
use rand::SeedableRng;
use meridian_contracts::zk_compliance::{
    Error, ZkCompliance, ZkProofStatus, ZkProofType, ZkVerifyError, PROOF_VALIDITY_MS,
};

const OWNER: [u8; 32] = [0x01; 32];
const USER: [u8; 32] = [0x02; 32];
const VERIFIER: [u8; 32] = [0x03; 32];
const USER4: [u8; 32] = [0x04; 32];
const STRANGER: [u8; 32] = [0x09; 32];
const NOW: u64 = 1_000;

/// `witness * 1 == input`: any input has a proof.
#[derive(Clone)]
struct EchoCircuit {
    input: Option<Fr>,
}

impl ConstraintSynthesizer<Fr> for EchoCircuit {
    fn generate_constraints(self, cs: ConstraintSystemRef<Fr>) -> Result<(), SynthesisError> {
        let witness = cs.new_witness_variable(|| self.input.ok_or(SynthesisError::AssignmentMissing))?;
        let input = cs.new_input_variable(|| self.input.ok_or(SynthesisError::AssignmentMissing))?;
        cs.enforce_constraint(
            LinearCombination::from(witness),
            LinearCombination::from(Variable::One),
            LinearCombination::from(input),
        )?;
        Ok(())
    }
}

/// `secret * secret == input`.
#[derive(Clone)]
struct SqrtCircuit {
    public: Option<Fr>,
    secret: Option<Fr>,
}

impl ConstraintSynthesizer<Fr> for SqrtCircuit {
    fn generate_constraints(self, cs: ConstraintSystemRef<Fr>) -> Result<(), SynthesisError> {
        let secret = cs.new_witness_variable(|| self.secret.ok_or(SynthesisError::AssignmentMissing))?;
        let public = cs.new_input_variable(|| self.public.ok_or(SynthesisError::AssignmentMissing))?;
        cs.enforce_constraint(
            LinearCombination::from(secret),
            LinearCombination::from(secret),
            LinearCombination::from(public),
        )?;
        Ok(())
    }
}

fn compressed<T: CanonicalSerialize>(value: &T) -> Vec<u8> {
    let mut out = Vec::new();
    value.serialize_compressed(&mut out).unwrap();
    out
}

fn le_bytes(x: Fr) -> [u8; 32] {
    let bytes = x.into_bigint().to_bytes_le();
    let mut out = [0u8; 32];
    out.copy_from_slice(&bytes);
    out
}

/// A compressed verifying key of the echo circuit and a compressed proof
/// for `input`.
fn echo_key_and_proof(input: Fr) -> (Vec<u8>, Vec<u8>) {
    let mut rng = StdRng::seed_from_u64(7);
    let (pk, vk) = Groth16::<Bn254>::circuit_specific_setup(EchoCircuit { input: None }, &mut rng).unwrap();
    let proof = Groth16::<Bn254>::prove(&pk, EchoCircuit { input: Some(input) }, &mut rng).unwrap();
    (compressed(&vk), compressed(&proof))
}

#[test]
fn new_works() {
    let contract = ZkCompliance::new(OWNER, NOW);
    assert_eq!(contract.owner, OWNER);
    assert_eq!(contract.get_verification_stats().unwrap().total_verifications, 0);
}

#[test]
fn submit_and_verify_zk_proof_rejects_unverifiable() {
    let mut contract = ZkCompliance::new(OWNER, NOW);
    contract.add_approved_verifier(OWNER, VERIFIER).unwrap();
    let public_inputs = vec![[1u8; 32]];
    let proof_id = contract
        .submit_zk_proof(OWNER, ZkProofType::IdentityVerification, public_inputs, vec![2u8, 3u8, 4u8], vec![5u8, 6u8], NOW)
        .unwrap();
    assert_eq!(proof_id, 1);
    match contract.verify_zk_proof(VERIFIER, USER, proof_id, true, NOW) {
        Ok(()) => {
            assert!(!contract.is_zk_proof_valid(USER, ZkProofType::IdentityVerification, NOW));
        }
        Err(_) => {}
    }
    // The submitter's own proof cannot be approved without a key either.
    assert_eq!(
        contract.verify_zk_proof(VERIFIER, OWNER, proof_id, true, NOW),
        Err(Error::VerificationKeyNotFound)
    );
    assert!(!contract.is_zk_proof_valid(OWNER, ZkProofType::IdentityVerification, NOW));
}

#[test]
fn verification_key_management_works() {
    let mut contract = ZkCompliance::new(OWNER, NOW);
    let (vk, _) = echo_key_and_proof(Fr::from(5u64));
    assert_eq!(
        contract.set_verification_key(STRANGER, ZkProofType::IdentityVerification, vk.clone(), [0u8; 32]),
        Err(Error::NotAuthorized)
    );
    contract.set_verification_key(OWNER, ZkProofType::IdentityVerification, vk.clone(), [1u8; 32]).unwrap();
    let record = contract.get_verification_key(ZkProofType::IdentityVerification).expect("key should be registered");
    assert_eq!(record.version, 1);
    assert!(record.is_active);
    assert_eq!(record.vk_hash, [1u8; 32]);

    let version = contract.rotate_verification_key(OWNER, ZkProofType::IdentityVerification, vk, [2u8; 32]).unwrap();
    assert_eq!(version, 2);
    assert_eq!(contract.get_verification_key_version(ZkProofType::IdentityVerification), Some(2));

    contract.deactivate_verification_key(OWNER, ZkProofType::IdentityVerification).unwrap();
    let record = contract.get_verification_key(ZkProofType::IdentityVerification).expect("record should still exist");
    assert!(!record.is_active);
    assert_eq!(
        contract.deactivate_verification_key(OWNER, ZkProofType::ComplianceCheck),
        Err(Error::VerificationKeyNotFound)
    );
}

#[test]
fn privacy_preferences_works() {
    let mut contract = ZkCompliance::new(OWNER, NOW);
    assert!(contract.update_privacy_preferences(USER4, true, false, 4, vec![1, 2, 3], NOW).is_ok());
    let prefs = contract.get_privacy_preferences(USER4).expect("Privacy preferences should exist after update");
    assert_eq!(prefs.allow_analytics, true);
    assert_eq!(prefs.share_data_with_third_party, false);
    assert_eq!(prefs.privacy_level, 4);
    assert_eq!(
        contract.update_privacy_preferences(USER4, true, false, 6, vec![], NOW),
        Err(Error::InvalidPrivacyLevel)
    );
    assert_eq!(contract.get_privacy_preferences(USER4).unwrap().privacy_level, 4);
}

#[test]
fn malformed_keys_and_proofs_are_rejected_with_zk() {
    let mut contract = ZkCompliance::new(OWNER, NOW);
    assert_eq!(
        contract.set_verification_key(OWNER, ZkProofType::ComplianceCheck, vec![0xabu8; 32], [0u8; 32]),
        Err(Error::InvalidVerificationKey)
    );
    let result = contract.verify_zk_proof_data(ZkProofType::ComplianceCheck, vec![[0u8; 32]], vec![0u8; 10]);
    assert_eq!(result, Err(ZkVerifyError::VerificationKeyNotFound));
    let wrapper_result = contract.verify_identity_zk(OWNER, 25, 840, vec![0u8; 10], NOW);
    assert_eq!(wrapper_result, Err(Error::VerificationKeyNotFound));
}

#[test]
fn vk_proof_roundtrip() {
    let mut rng = StdRng::seed_from_u64(7);
    let secret = Fr::rand(&mut rng);
    let public = secret * secret;
    let circuit = SqrtCircuit { public: Some(public), secret: Some(secret) };
    let (pk, vk) = Groth16::<Bn254>::circuit_specific_setup(SqrtCircuit { public: None, secret: None }, &mut rng).unwrap();
    let proof = Groth16::<Bn254>::prove(&pk, circuit, &mut rng).unwrap();
    let vk_bytes = compressed(&vk);
    let proof_bytes = compressed(&proof);
    assert_eq!(proof_bytes.len(), 128);

    let mut contract = ZkCompliance::new(OWNER, NOW);
    contract.set_verification_key(OWNER, ZkProofType::ComplianceCheck, vk_bytes, [3u8; 32]).unwrap();
    let inputs = vec![le_bytes(public)];
    assert_eq!(contract.verify_zk_proof_data(ZkProofType::ComplianceCheck, inputs.clone(), proof_bytes.clone()), Ok(true));
    let wrong = vec![le_bytes(public + Fr::from(1u64))];
    assert_eq!(contract.verify_zk_proof_data(ZkProofType::ComplianceCheck, wrong, proof_bytes.clone()), Ok(false));
    let mut garbled = proof_bytes.clone();
    garbled[0] ^= 0xff;
    assert!(contract.verify_zk_proof_data(ZkProofType::ComplianceCheck, inputs.clone(), garbled) != Ok(true));
    contract.deactivate_verification_key(OWNER, ZkProofType::ComplianceCheck).unwrap();
    assert_eq!(
        contract.verify_zk_proof_data(ZkProofType::ComplianceCheck, inputs, proof_bytes),
        Err(ZkVerifyError::VerificationKeyNotFound)
    );
}

#[test]
fn a_valid_proof_is_verified_by_an_approved_verifier() {
    let input = Fr::from(77u64);
    let (vk, proof) = echo_key_and_proof(input);
    let mut contract = ZkCompliance::new(OWNER, NOW);
    contract.set_verification_key(OWNER, ZkProofType::IncomeVerification, vk, [0u8; 32]).unwrap();
    contract.add_approved_verifier(OWNER, VERIFIER).unwrap();
    let id = contract
        .submit_zk_proof(USER, ZkProofType::IncomeVerification, vec![le_bytes(input)], proof, vec![], NOW)
        .unwrap();
    assert_eq!(contract.get_zk_proof(USER, id).unwrap().status, ZkProofStatus::Pending);
    assert!(!contract.is_zk_proof_valid(USER, ZkProofType::IncomeVerification, NOW));
    assert_eq!(contract.verify_zk_proof(STRANGER, USER, id, true, NOW), Err(Error::NotAuthorized));
    contract.verify_zk_proof(VERIFIER, USER, id, true, NOW + 1).unwrap();
    let stored = contract.get_zk_proof(USER, id).unwrap();
    assert_eq!(stored.status, ZkProofStatus::Verified);
    assert_eq!(stored.verifier, VERIFIER);
    assert!(contract.is_zk_proof_valid(USER, ZkProofType::IncomeVerification, NOW + 1));
    assert!(!contract.is_zk_proof_valid(USER, ZkProofType::IncomeVerification, NOW + PROOF_VALIDITY_MS + 1));
    assert_eq!(contract.verify_zk_proof(VERIFIER, USER, id, true, NOW + 2), Err(Error::AlreadyVerified));
}

#[test]
fn a_statement_proof_binds_the_statement() {
    let mut statement = vec![25u8];
    statement.extend_from_slice(&840u16.to_le_bytes());
    let bound = ZkCompliance::bind_public_input(&statement);
    let input = Fr::from_le_bytes_mod_order(&bound);
    assert_eq!(le_bytes(input), bound);
    let (vk, proof) = echo_key_and_proof(input);
    let mut contract = ZkCompliance::new(OWNER, NOW);
    contract.set_verification_key(OWNER, ZkProofType::AgeVerification, vk, [0u8; 32]).unwrap();
    assert_eq!(contract.verify_identity_zk(USER, 21, 840, proof.clone(), NOW), Err(Error::VerificationFailed));
    assert!(!contract.is_zk_proof_valid(USER, ZkProofType::AgeVerification, NOW));
    contract.verify_identity_zk(USER, 25, 840, proof, NOW).unwrap();
    assert!(contract.is_zk_proof_valid(USER, ZkProofType::AgeVerification, NOW));
}

#[test]
fn an_approved_proof_that_fails_the_check_is_rejected() {
    let (vk, proof) = echo_key_and_proof(Fr::from(77u64));
    let mut contract = ZkCompliance::new(OWNER, NOW);
    contract.set_verification_key(OWNER, ZkProofType::IncomeVerification, vk, [0u8; 32]).unwrap();
    contract.add_approved_verifier(OWNER, VERIFIER).unwrap();
    let id = contract
        .submit_zk_proof(USER, ZkProofType::IncomeVerification, vec![le_bytes(Fr::from(78u64))], proof, vec![], NOW)
        .unwrap();
    assert_eq!(contract.verify_zk_proof(VERIFIER, USER, id, true, NOW), Err(Error::VerificationFailed));
    assert_eq!(contract.get_zk_proof(USER, id).unwrap().status, ZkProofStatus::Rejected);
    assert!(!contract.is_zk_proof_valid(USER, ZkProofType::IncomeVerification, NOW));
    let id2 = contract
        .submit_zk_proof(USER, ZkProofType::IncomeVerification, vec![le_bytes(Fr::from(78u64))], vec![1u8; 128], vec![], NOW)
        .unwrap();
    assert_eq!(contract.verify_zk_proof(VERIFIER, USER, id2, false, NOW), Ok(()));
    assert_eq!(contract.get_zk_proof(USER, id2).unwrap().status, ZkProofStatus::Rejected);
    let results = contract
        .batch_verify_zk_proofs(VERIFIER, vec![(USER, id, true)], NOW)
        .unwrap();
    assert_eq!(results, vec![(id, false)]);
}
