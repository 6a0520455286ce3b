//! Proof-based regulatory compliance.
//!
//! Accounts submit zero-knowledge proofs; approved verifiers check them with
//! Groth16 against the key registered for the proof type. A proof is only
//! marked `Verified` when the check succeeds: an unverifiable proof is
//! rejected, never approved. The caller and the block time are inputs.
use vstd::prelude::*;
use crate::keyed_map::{AccountKey, KeyMap};
use crate::validation::{AccountId, copy_vec, null_account, zero_account};
use crate::verification_keys::{
    Groth16Outcome, groth16_check, groth16_outcome, payload_accepted, validate_proof_payload,
    validate_public_inputs, vk_decodes, vk_is_well_formed,
};
use crate::zk::{MAX_PROOF_LEN, bn254_modulus, le_value32, lemma_le_value32_injective, public_inputs_well_formed, reduce_mod_bn254};
use crate::hashing::{blake2b_256, blake2b_256_digest};
use crate::state_root::{RootHash, compute_root_with, merkle_root, root_hash_fn};

verus! {

/// One year in milliseconds: how long a proof stays valid.
pub const PROOF_VALIDITY_MS: u64 = 31_536_000_000;

/// Largest batch the batch entry points accept.
pub const MAX_PROOF_BATCH: usize = 20;

/// The statements a proof can attest.
#[derive(Clone, Copy, Debug, PartialEq, Eq, Structural)]
pub enum ZkProofType {
    IdentityVerification,
    IncomeVerification,
    AccreditedInvestor,
    ComplianceCheck,
    PropertyOwnership,
    AddressOwnership,
    AgeVerification,
    FinancialStanding,
}

impl ZkProofType {
    /// The number that keys the verification key of this proof type.
    pub open spec fn spec_code(self) -> u8 {
        match self {
            ZkProofType::IdentityVerification => 0,
            ZkProofType::IncomeVerification => 1,
            ZkProofType::AccreditedInvestor => 2,
            ZkProofType::ComplianceCheck => 3,
            ZkProofType::PropertyOwnership => 4,
            ZkProofType::AddressOwnership => 5,
            ZkProofType::AgeVerification => 6,
            ZkProofType::FinancialStanding => 7,
        }
    }

    /// The number that keys the verification key of this proof type.
    pub fn code(&self) -> (c: u8)
        ensures
            c == self.spec_code(),
    {
        match self {
            ZkProofType::IdentityVerification => 0,
            ZkProofType::IncomeVerification => 1,
            ZkProofType::AccreditedInvestor => 2,
            ZkProofType::ComplianceCheck => 3,
            ZkProofType::PropertyOwnership => 4,
            ZkProofType::AddressOwnership => 5,
            ZkProofType::AgeVerification => 6,
            ZkProofType::FinancialStanding => 7,
        }
    }
}

/// Where a proof stands.
#[derive(Clone, Copy, Debug, PartialEq, Eq, Structural)]
pub enum ZkProofStatus {
    NotSubmitted,
    Pending,
    Verified,
    Rejected,
    Expired,
}

/// Published when an account submits a proof.
#[derive(Clone, Copy, Debug, PartialEq, Eq)]
pub struct ZkProofSubmitted {
    pub account: AccountId,
    pub proof_id: u64,
    pub proof_type: ZkProofType,
    pub timestamp: u64,
}

/// Published when a proof is verified.
#[derive(Clone, Copy, Debug, PartialEq, Eq)]
pub struct ZkProofVerified {
    pub account: AccountId,
    pub proof_id: u64,
    pub timestamp: u64,
}

/// Published when a proof is rejected.
#[derive(Clone, Copy, Debug, PartialEq, Eq)]
pub struct ZkProofRejected {
    pub account: AccountId,
    pub proof_id: u64,
    pub timestamp: u64,
}

/// Published when an account changes its privacy preferences.
#[derive(Clone, Copy, Debug, PartialEq, Eq)]
pub struct PrivacyPreferencesUpdated {
    pub account: AccountId,
    pub privacy_level: u8,
    pub timestamp: u64,
}

/// Published when an account passes a compliance check by proof.
#[derive(Clone, Copy, Debug, PartialEq, Eq)]
pub struct ComplianceVerified {
    pub account: AccountId,
    pub timestamp: u64,
}

/// Published when an account's overall compliance status changes.
#[derive(Clone, Copy, Debug, PartialEq, Eq)]
pub struct ZkComplianceUpdated {
    pub account: AccountId,
    pub status: ZkProofStatus,
    pub timestamp: u64,
}

/// Published when a verification key is registered, rotated or
/// deactivated.
#[derive(Clone, Copy, Debug, PartialEq, Eq, Structural)]
pub struct VerificationKeySet {
    pub proof_type: ZkProofType,
    pub version: u32,
    pub is_active: bool,
}

/// A submitted proof.
#[derive(Debug)]
pub struct ZkProofData {
    pub proof_type: ZkProofType,
    pub status: ZkProofStatus,
    pub public_inputs: Vec<[u8; 32]>,
    pub proof_data: Vec<u8>,
    pub created_at: u64,
    pub expires_at: u64,
    pub verifier: AccountId,
    pub metadata: Vec<u8>,
}

/// The value of a proof.
pub struct ZkProofView {
    pub proof_type: ZkProofType,
    pub status: ZkProofStatus,
    pub public_inputs: Seq<[u8; 32]>,
    pub proof_data: Seq<u8>,
    pub created_at: u64,
    pub expires_at: u64,
    pub verifier: AccountId,
    pub metadata: Seq<u8>,
}

impl View for ZkProofData {
    type V = ZkProofView;

    open spec fn view(&self) -> ZkProofView {
        ZkProofView {
            proof_type: self.proof_type,
            status: self.status,
            public_inputs: self.public_inputs@,
            proof_data: self.proof_data@,
            created_at: self.created_at,
            expires_at: self.expires_at,
            verifier: self.verifier,
            metadata: self.metadata@,
        }
    }
}

impl ZkProofData {
    /// A copy of the proof.
    pub fn copy(&self) -> (r: Self)
        ensures
            r@ == self@,
    {
        ZkProofData {
            proof_type: self.proof_type,
            status: self.status,
            public_inputs: copy_vec(&self.public_inputs),
            proof_data: copy_vec(&self.proof_data),
            created_at: self.created_at,
            expires_at: self.expires_at,
            verifier: self.verifier,
            metadata: copy_vec(&self.metadata),
        }
    }
}

/// A registered verification key.
#[derive(Debug)]
pub struct VerificationKeyRecord {
    pub version: u32,
    pub serialized_vk: Vec<u8>,
    pub vk_hash: [u8; 32],
    pub is_active: bool,
}

/// The value of a key record.
pub struct KeyRecordView {
    pub version: u32,
    pub serialized_vk: Seq<u8>,
    pub vk_hash: [u8; 32],
    pub is_active: bool,
}

impl View for VerificationKeyRecord {
    type V = KeyRecordView;

    open spec fn view(&self) -> KeyRecordView {
        KeyRecordView {
            version: self.version,
            serialized_vk: self.serialized_vk@,
            vk_hash: self.vk_hash,
            is_active: self.is_active,
        }
    }
}

impl VerificationKeyRecord {
    /// A copy of the record.
    pub fn copy(&self) -> (r: Self)
        ensures
            r@ == self@,
    {
        VerificationKeyRecord {
            version: self.version,
            serialized_vk: copy_vec(&self.serialized_vk),
            vk_hash: self.vk_hash,
            is_active: self.is_active,
        }
    }
}

/// Why a stateless proof check failed.
#[derive(Clone, Copy, Debug, PartialEq, Eq, Structural)]
pub enum ZkVerifyError {
    InvalidPublicInputs,
    InvalidProof,
    VerificationKeyNotFound,
    InvalidVerificationKey,
    VerificationFailed,
    ZkUnavailable,
}

/// A user's privacy preferences.
#[derive(Debug)]
pub struct PrivacyPreferences {
    pub allow_analytics: bool,
    pub share_data_with_third_party: bool,
    pub consent_timestamp: u64,
    /// 1 to 5, 5 being the most private.
    pub privacy_level: u8,
    pub encrypted_metadata: Vec<u8>,
}

/// The value of a set of privacy preferences.
pub struct PreferencesView {
    pub allow_analytics: bool,
    pub share_data_with_third_party: bool,
    pub consent_timestamp: u64,
    pub privacy_level: u8,
    pub encrypted_metadata: Seq<u8>,
}

impl View for PrivacyPreferences {
    type V = PreferencesView;

    open spec fn view(&self) -> PreferencesView {
        PreferencesView {
            allow_analytics: self.allow_analytics,
            share_data_with_third_party: self.share_data_with_third_party,
            consent_timestamp: self.consent_timestamp,
            privacy_level: self.privacy_level,
            encrypted_metadata: self.encrypted_metadata@,
        }
    }
}

impl PrivacyPreferences {
    /// A copy of the preferences.
    pub fn copy(&self) -> (r: Self)
        ensures
            r@ == self@,
    {
        PrivacyPreferences {
            allow_analytics: self.allow_analytics,
            share_data_with_third_party: self.share_data_with_third_party,
            consent_timestamp: self.consent_timestamp,
            privacy_level: self.privacy_level,
            encrypted_metadata: copy_vec(&self.encrypted_metadata),
        }
    }
}

/// The preferences assumed for an account that never set any.
pub open spec fn default_preferences(consent_timestamp: u64) -> PreferencesView {
    PreferencesView {
        allow_analytics: false,
        share_data_with_third_party: false,
        consent_timestamp,
        privacy_level: 3,
        encrypted_metadata: Seq::empty(),
    }
}

/// An account's compliance record.
#[derive(Debug)]
pub struct ZkComplianceData {
    pub zk_proof_ids: Vec<u64>,
    pub verification_status: ZkProofStatus,
    pub last_verification: u64,
    pub next_required_verification: u64,
    pub compliance_jurisdiction: u8,
    pub privacy_controls_enabled: bool,
}

/// The value of a compliance record.
pub struct ComplianceView {
    pub zk_proof_ids: Seq<u64>,
    pub verification_status: ZkProofStatus,
    pub last_verification: u64,
    pub next_required_verification: u64,
    pub compliance_jurisdiction: u8,
    pub privacy_controls_enabled: bool,
}

impl View for ZkComplianceData {
    type V = ComplianceView;

    open spec fn view(&self) -> ComplianceView {
        ComplianceView {
            zk_proof_ids: self.zk_proof_ids@,
            verification_status: self.verification_status,
            last_verification: self.last_verification,
            next_required_verification: self.next_required_verification,
            compliance_jurisdiction: self.compliance_jurisdiction,
            privacy_controls_enabled: self.privacy_controls_enabled,
        }
    }
}

impl ZkComplianceData {
    /// A copy of the record.
    pub fn copy(&self) -> (r: Self)
        ensures
            r@ == self@,
    {
        ZkComplianceData {
            zk_proof_ids: copy_vec(&self.zk_proof_ids),
            verification_status: self.verification_status,
            last_verification: self.last_verification,
            next_required_verification: self.next_required_verification,
            compliance_jurisdiction: self.compliance_jurisdiction,
            privacy_controls_enabled: self.privacy_controls_enabled,
        }
    }
}

/// An audit entry that reveals no proof contents.
#[derive(Clone, Copy, Debug)]
pub struct AuditLog {
    pub account: AccountId,
    pub proof_type: ZkProofType,
    pub status: ZkProofStatus,
    pub timestamp: u64,
    /// 0 submit, 1 verify, 2 reject, 3 expire (callers may log others).
    pub action: u8,
}

/// Aggregated verification counts.
#[derive(Clone, Copy, Debug, PartialEq, Eq, Structural)]
pub struct VerificationStats {
    pub total_verifications: u64,
    pub successful_verifications: u64,
    pub failed_verifications: u64,
    pub last_updated: u64,
}

/// An account's privacy overview.
#[derive(Clone, Copy, Debug)]
pub struct PrivacyDashboard {
    pub account: AccountId,
    pub active_proofs: u32,
    pub pending_proofs: u32,
    pub expired_proofs: u32,
    pub total_proofs: u32,
    pub privacy_level: u8,
    pub last_compliance_check: u64,
    pub next_verification_due: u64,
    pub audit_log_count: u32,
}

/// An account's compliance overview.
#[derive(Clone, Copy, Debug)]
pub struct ComplianceStatusSummary {
    pub account: AccountId,
    pub identity_verified: bool,
    pub financial_verified: bool,
    pub accredited_investor: bool,
    pub overall_status: ZkProofStatus,
    pub last_verification: u64,
    pub next_verification_due: u64,
}

/// Errors of the compliance contract.
#[derive(Clone, Copy, Debug, PartialEq, Eq, Structural)]
pub enum Error {
    NotAuthorized,
    ProofNotFound,
    InvalidProof,
    VerificationFailed,
    ExpiredProof,
    AlreadyVerified,
    InvalidInputs,
    PrivacyControlsViolation,
    StatsNotAvailable,
    InvalidPrivacyLevel,
    /// No active verification key is registered for this proof type.
    VerificationKeyNotFound,
    /// The registered verification key bytes are malformed.
    InvalidVerificationKey,
}

/// The storage of the compliance contract.
#[derive(Debug)]
pub struct ZkCompliance {
    pub owner: AccountId,
    pub zk_proofs: KeyMap<AccountKey, ZkProofData>,
    pub proof_counter: KeyMap<AccountId, u64>,
    pub privacy_preferences: KeyMap<AccountId, PrivacyPreferences>,
    pub zk_compliance_data: KeyMap<AccountId, ZkComplianceData>,
    pub approved_verifiers: KeyMap<AccountId, bool>,
    pub audit_logs: KeyMap<AccountKey, AuditLog>,
    pub audit_log_count: KeyMap<AccountId, u64>,
    pub verification_stats: VerificationStats,
    pub verification_keys: KeyMap<u8, VerificationKeyRecord>,
}

/// The key of `account`'s record number `index`.
pub open spec fn key_of(account: AccountId, index: u64) -> AccountKey {
    AccountKey { account, index }
}

/// The result a Groth16 outcome gives the contract: the verdict, or the
/// error a malformed key or proof or a refused check is reported as.
pub open spec fn outcome_as_result(o: Groth16Outcome) -> Result<bool, Error> {
    match o {
        Groth16Outcome::MalformedKey => Err(Error::InvalidVerificationKey),
        Groth16Outcome::MalformedProof => Err(Error::InvalidProof),
        Groth16Outcome::VerifierError => Err(Error::VerificationFailed),
        Groth16Outcome::Checked(valid) => Ok(valid),
    }
}

/// The result a Groth16 outcome gives a stateless check.
pub open spec fn outcome_as_verify_result(o: Groth16Outcome) -> Result<bool, ZkVerifyError> {
    match o {
        Groth16Outcome::MalformedKey => Err(ZkVerifyError::InvalidVerificationKey),
        Groth16Outcome::MalformedProof => Err(ZkVerifyError::InvalidProof),
        Groth16Outcome::VerifierError => Err(ZkVerifyError::VerificationFailed),
        Groth16Outcome::Checked(valid) => Ok(valid),
    }
}

/// Map a Groth16 outcome to the contract's result.
pub fn outcome_to_result(o: Groth16Outcome) -> (r: Result<bool, Error>)
    ensures
        r == outcome_as_result(o),
{
    match o {
        Groth16Outcome::MalformedKey => Err(Error::InvalidVerificationKey),
        Groth16Outcome::MalformedProof => Err(Error::InvalidProof),
        Groth16Outcome::VerifierError => Err(Error::VerificationFailed),
        Groth16Outcome::Checked(valid) => Ok(valid),
    }
}

/// Map a Groth16 outcome to a stateless check's result.
pub fn outcome_to_verify_result(o: Groth16Outcome) -> (r: Result<bool, ZkVerifyError>)
    ensures
        r == outcome_as_verify_result(o),
{
    match o {
        Groth16Outcome::MalformedKey => Err(ZkVerifyError::InvalidVerificationKey),
        Groth16Outcome::MalformedProof => Err(ZkVerifyError::InvalidProof),
        Groth16Outcome::VerifierError => Err(ZkVerifyError::VerificationFailed),
        Groth16Outcome::Checked(valid) => Ok(valid),
    }
}

/// What checking a stored proof against the registered key comes to:
/// malformed inputs or payload, a missing or inactive key, or the Groth16
/// outcome.
pub open spec fn proof_check(keys: Option<KeyRecordView>, p: ZkProofView) -> Result<bool, Error> {
    if !public_inputs_well_formed(p.public_inputs) {
        Err(Error::InvalidInputs)
    } else if !payload_accepted(p.proof_data.len()) {
        Err(Error::InvalidProof)
    } else {
        match keys {
            None => Err(Error::VerificationKeyNotFound),
            Some(k) => if !k.is_active {
                Err(Error::VerificationKeyNotFound)
            } else {
                outcome_as_result(groth16_outcome(k.serialized_vk, p.public_inputs, p.proof_data))
            },
        }
    }
}

/// An account's compliance record after a refresh at `now`: the latest
/// proof id appended, the verification times advanced, and the status of
/// the latest proof, if any, taken over.
pub open spec fn refreshed_compliance(
    prev: Option<ComplianceView>,
    counter: Option<u64>,
    latest_status: Option<ZkProofStatus>,
    now: u64,
) -> ComplianceView {
    let base = match prev {
        Some(c) => c,
        None => ComplianceView {
            zk_proof_ids: Seq::empty(),
            verification_status: ZkProofStatus::NotSubmitted,
            last_verification: 0,
            next_required_verification: 0,
            compliance_jurisdiction: 0,
            privacy_controls_enabled: true,
        },
    };
    ComplianceView {
        zk_proof_ids: match counter {
            Some(c) => if c > 0 {
                base.zk_proof_ids.push(c)
            } else {
                base.zk_proof_ids
            },
            None => base.zk_proof_ids,
        },
        verification_status: match counter {
            Some(c) => if c > 0 && latest_status is Some {
                latest_status.unwrap()
            } else {
                base.verification_status
            },
            None => base.verification_status,
        },
        last_verification: now,
        next_required_verification: (now + PROOF_VALIDITY_MS) as u64,
        ..base
    }
}

/// Why a verifier's review of `account`'s proof `id` is refused; `None`
/// when the review is recorded.
pub open spec fn review_error(s: ZkCompliance, caller: AccountId, account: AccountId, id: u64, approve: bool) -> Option<Error> {
    if !s.is_approved(caller) {
        Some(Error::NotAuthorized)
    } else {
        match s.proof_of(account, id) {
            None => Some(Error::ProofNotFound),
            Some(p) => if p.status != ZkProofStatus::Pending {
                Some(Error::AlreadyVerified)
            } else if approve {
                match proof_check(s.key_record_of(p.proof_type), p) {
                    Err(e) => Some(e),
                    Ok(_) => None,
                }
            } else {
                None
            },
        }
    }
}

/// A review approves the proof: the verifier approves and the check
/// succeeds.
pub open spec fn review_verifies(s: ZkCompliance, account: AccountId, id: u64, approve: bool) -> bool {
    approve && proof_check(
        s.key_record_of(s.proof_of(account, id).unwrap().proof_type),
        s.proof_of(account, id).unwrap(),
    ) == Ok::<bool, Error>(true)
}

/// `s1` is `s0` after `caller`'s review of `account`'s proof `id` at `now`
/// was recorded: the proof is verified when `approve && verified` and
/// rejected otherwise, an audit entry and the counts record the review, and
/// the account's compliance record is refreshed.
pub open spec fn review_recorded(
    s0: ZkCompliance,
    s1: ZkCompliance,
    caller: AccountId,
    account: AccountId,
    id: u64,
    approve: bool,
    verified: bool,
    now: u64,
) -> bool {
    let p = s0.proof_of(account, id).unwrap();
    let status = if approve && verified {
        ZkProofStatus::Verified
    } else {
        ZkProofStatus::Rejected
    };
    let n = s0.audit_count_of(account);
    &&& forall|a: AccountId, i: u64| #[trigger]
        s1.proof_of(a, i) == if a == account && i == id {
            Some(ZkProofView { status, verifier: caller, ..p })
        } else {
            s0.proof_of(a, i)
        }
    &&& forall|a: AccountId| #[trigger]
        s1.audit_count_of(a) == if a == account {
            (n + 1) as u64
        } else {
            s0.audit_count_of(a)
        }
    &&& forall|a: AccountId, i: u64| #[trigger]
        s1.audit_of(a, i) == if a == account && i == n {
            Some(
                AuditLog {
                    account,
                    proof_type: p.proof_type,
                    status,
                    timestamp: now,
                    action: if approve {
                        1u8
                    } else {
                        2u8
                    },
                },
            )
        } else {
            s0.audit_of(a, i)
        }
    &&& s1.verification_stats == counted(s0.verification_stats, approve && verified, now)
    &&& forall|a: AccountId| #[trigger]
        s1.compliance_of(a) == if a == account {
            Some(
                refreshed_compliance(
                    s0.compliance_of(account),
                    s0.proof_counter.value_of(account),
                    s1.latest_status(account),
                    now,
                ),
            )
        } else {
            s0.compliance_of(a)
        }
    &&& s1.owner == s0.owner
    &&& s1.proof_counter == s0.proof_counter
    &&& s1.privacy_preferences == s0.privacy_preferences
    &&& s1.approved_verifiers == s0.approved_verifiers
    &&& s1.verification_keys == s0.verification_keys
}

/// The arithmetic of recording a review or a settlement stays in range.
pub open spec fn review_fits(s: ZkCompliance, account: AccountId, now: u64) -> bool {
    &&& s.audit_count_of(account) < u64::MAX
    &&& s.verification_stats.total_verifications < u64::MAX
    &&& s.verification_stats.successful_verifications < u64::MAX
    &&& s.verification_stats.failed_verifications < u64::MAX
    &&& now + PROOF_VALIDITY_MS <= u64::MAX
}

/// `s1` is `s0` after `account`'s freshly submitted proof `id` was settled
/// at `now` with the check's verdict `valid`: a valid proof is verified,
/// restarted at `now` for a year and refreshes the compliance record, an
/// invalid one is rejected; an audit entry and the counts record it.
pub open spec fn settled(s0: ZkCompliance, s1: ZkCompliance, account: AccountId, id: u64, valid: bool, now: u64) -> bool {
    let p = s0.proof_of(account, id).unwrap();
    let n = s0.audit_count_of(account);
    &&& forall|a: AccountId, i: u64| #[trigger]
        s1.proof_of(a, i) == if a == account && i == id {
            Some(
                if valid {
                    ZkProofView {
                        status: ZkProofStatus::Verified,
                        created_at: now,
                        expires_at: (now + PROOF_VALIDITY_MS) as u64,
                        ..p
                    }
                } else {
                    ZkProofView { status: ZkProofStatus::Rejected, ..p }
                },
            )
        } else {
            s0.proof_of(a, i)
        }
    &&& forall|a: AccountId| #[trigger]
        s1.audit_count_of(a) == if a == account {
            (n + 1) as u64
        } else {
            s0.audit_count_of(a)
        }
    &&& forall|a: AccountId, i: u64| #[trigger]
        s1.audit_of(a, i) == if a == account && i == n {
            Some(
                AuditLog {
                    account,
                    proof_type: p.proof_type,
                    status: if valid {
                        ZkProofStatus::Verified
                    } else {
                        ZkProofStatus::Rejected
                    },
                    timestamp: now,
                    action: if valid {
                        1u8
                    } else {
                        2u8
                    },
                },
            )
        } else {
            s0.audit_of(a, i)
        }
    &&& s1.verification_stats == counted(s0.verification_stats, valid, now)
    &&& forall|a: AccountId| #[trigger]
        s1.compliance_of(a) == if a == account && valid {
            Some(
                refreshed_compliance(
                    s0.compliance_of(account),
                    s0.proof_counter.value_of(account),
                    s1.latest_status(account),
                    now,
                ),
            )
        } else {
            s0.compliance_of(a)
        }
    &&& s1.owner == s0.owner
    &&& s1.proof_counter == s0.proof_counter
    &&& s1.privacy_preferences == s0.privacy_preferences
    &&& s1.approved_verifiers == s0.approved_verifiers
    &&& s1.verification_keys == s0.verification_keys
}

/// `bytes` as `n` little-endian bytes of `v` (higher bytes dropped).
pub open spec fn le_bytes(v: nat, n: nat) -> Seq<u8>
    decreases n,
{
    if n == 0 {
        Seq::empty()
    } else {
        seq![(v % 256) as u8] + le_bytes(v / 256, (n - 1) as nat)
    }
}

/// `public_input` binds `statement`: it is the BLAKE2b-256 digest of the
/// statement, read as a little-endian number, reduced modulo the scalar
/// field order.
pub open spec fn binds_statement(statement: Seq<u8>, public_input: [u8; 32]) -> bool {
    exists|h: [u8; 32]|
        h@ == blake2b_256_digest(statement) && le_value32(public_input) == #[trigger] le_value32(h)
            % bn254_modulus()
}

/// The public input that binds `statement`.
pub open spec fn statement_input(statement: Seq<u8>) -> [u8; 32] {
    choose|p: [u8; 32]| binds_statement(statement, p)
}

/// A statement has one binding public input: any two byte strings that bind
/// the same statement are equal, and equal to `statement_input`. The
/// prover's input and the contract's therefore agree byte for byte.
pub proof fn law_statement_binding_is_unique(statement: Seq<u8>, a: [u8; 32], b: [u8; 32])
    requires
        binds_statement(statement, a),
        binds_statement(statement, b),
    ensures
        a == b,
        a == statement_input(statement),
{
    let ha = choose|h: [u8; 32]|
        h@ == blake2b_256_digest(statement) && le_value32(a) == #[trigger] le_value32(h) % bn254_modulus();
    let hb = choose|h: [u8; 32]|
        h@ == blake2b_256_digest(statement) && le_value32(b) == #[trigger] le_value32(h) % bn254_modulus();
    assert(le_value32(ha) == le_value32(hb));
    lemma_le_value32_injective(a, b);
    let c = statement_input(statement);
    let hc = choose|h: [u8; 32]|
        h@ == blake2b_256_digest(statement) && le_value32(c) == #[trigger] le_value32(h) % bn254_modulus();
    assert(le_value32(hc) == le_value32(ha));
    lemma_le_value32_injective(a, c);
}

/// The outcome of storing and checking a proof: `s1` and `r` are what
/// `verify_and_store_proof` leaves from `s0`.
pub open spec fn stored_and_checked(
    s0: ZkCompliance,
    s1: ZkCompliance,
    caller: AccountId,
    proof_type: ZkProofType,
    public_inputs: Seq<[u8; 32]>,
    proof_data: Seq<u8>,
    metadata: Seq<u8>,
    now: u64,
    r: Result<u64, Error>,
) -> bool {
    let id = (s0.counter_of(caller) + 1) as u64;
    let view = ZkProofView {
        proof_type,
        status: ZkProofStatus::Pending,
        public_inputs,
        proof_data,
        created_at: now,
        expires_at: (now + PROOF_VALIDITY_MS) as u64,
        verifier: zero_account(),
        metadata,
    };
    exists|mid: ZkCompliance|
        #[trigger] submitted(s0, mid, caller, proof_type, public_inputs, proof_data, metadata, now)
            && match proof_check(s0.key_record_of(proof_type), view) {
            Err(e) => r == Err::<u64, Error>(e) && s1 == mid,
            Ok(valid) => settled(mid, s1, caller, id, valid, now) && r == if valid {
                Ok::<u64, Error>(id)
            } else {
                Err(Error::VerificationFailed)
            },
        }
}

/// `s1` and `r` are what proving `statement` for `proof_type` leaves from
/// `s0`: the proof is submitted with the single public input that binds the
/// statement, the statement as its metadata, and checked at once.
pub open spec fn statement_proved(
    s0: ZkCompliance,
    s1: ZkCompliance,
    caller: AccountId,
    proof_type: ZkProofType,
    statement: Seq<u8>,
    proof_data: Seq<u8>,
    now: u64,
    r: Result<(), Error>,
) -> bool {
    exists|public_input: [u8; 32], stored: Result<u64, Error>|
        #[trigger] binds_statement(statement, public_input) && #[trigger] stored_and_checked(
            s0,
            s1,
            caller,
            proof_type,
            seq![public_input],
            proof_data,
            statement,
            now,
            stored,
        ) && r == match stored {
            Ok(_) => Ok::<(), Error>(()),
            Err(e) => Err(e),
        }
}

/// Whether the latest of `account`'s proofs numbered `1..=i` of type `t`
/// is verified and unexpired at `now` (false when there is none).
pub open spec fn latest_valid(s: ZkCompliance, account: AccountId, t: ZkProofType, now: u64, i: nat) -> bool
    decreases i,
{
    if i == 0 {
        false
    } else {
        match s.proof_of(account, i as u64) {
            Some(p) => if p.proof_type == t {
                p.status == ZkProofStatus::Verified && p.expires_at > now
            } else {
                latest_valid(s, account, t, now, (i - 1) as nat)
            },
            None => latest_valid(s, account, t, now, (i - 1) as nat),
        }
    }
}

/// Whether every type in `types` has a valid latest proof for `account`.
pub open spec fn all_valid(s: ZkCompliance, account: AccountId, types: Seq<ZkProofType>, now: u64) -> bool {
    forall|k: int|
        0 <= k < types.len() ==> latest_valid(s, account, #[trigger] types[k], now, s.counter_of(account) as nat)
}

/// The outcome of matching `params` against the latest of `account`'s
/// proofs numbered `1..=i` of type `t`.
pub open spec fn public_params_result(
    s: ZkCompliance,
    account: AccountId,
    t: ZkProofType,
    params: Seq<[u8; 32]>,
    now: u64,
    i: nat,
) -> Result<(), Error>
    decreases i,
{
    if i == 0 {
        Err(Error::ProofNotFound)
    } else {
        match s.proof_of(account, i as u64) {
            Some(p) => if p.proof_type == t {
                if p.public_inputs == params {
                    if p.status == ZkProofStatus::Verified && p.expires_at > now {
                        Ok(())
                    } else {
                        Err(Error::ExpiredProof)
                    }
                } else {
                    Err(Error::InvalidProof)
                }
            } else {
                public_params_result(s, account, t, params, now, (i - 1) as nat)
            },
            None => public_params_result(s, account, t, params, now, (i - 1) as nat),
        }
    }
}

/// The numbers among `1..=n` under which `account` holds a proof, in order.
pub open spec fn proof_ids(s: ZkCompliance, account: AccountId, n: nat) -> Seq<u64>
    decreases n,
{
    if n == 0 {
        Seq::empty()
    } else if s.proof_of(account, n as u64) is Some {
        proof_ids(s, account, (n - 1) as nat).push(n as u64)
    } else {
        proof_ids(s, account, (n - 1) as nat)
    }
}

/// `account`'s audit entries numbered `from..to` that are present, in order.
pub open spec fn audit_entries(s: ZkCompliance, account: AccountId, from: nat, to: nat) -> Seq<AuditLog>
    decreases to,
{
    if to <= from {
        Seq::empty()
    } else if s.audit_of(account, (to - 1) as u64) is Some {
        audit_entries(s, account, from, (to - 1) as nat).push(s.audit_of(account, (to - 1) as u64).unwrap())
    } else {
        audit_entries(s, account, from, (to - 1) as nat)
    }
}

/// The proof is verified and unexpired at `now`.
pub open spec fn proof_active(p: ZkProofView, now: u64) -> bool {
    p.status == ZkProofStatus::Verified && p.expires_at > now
}

/// How many of the proofs numbered `ids` satisfy `pred` at `now`.
pub open spec fn count_proofs(
    s: ZkCompliance,
    account: AccountId,
    ids: Seq<u64>,
    pred: spec_fn(ZkProofView) -> bool,
) -> nat
    decreases ids.len(),
{
    if ids.len() == 0 {
        0
    } else {
        count_proofs(s, account, ids.drop_last(), pred) + if pred(s.proof_of(account, ids.last()).unwrap()) {
            1nat
        } else {
            0nat
        }
    }
}

/// Whether one of the proofs numbered `ids` is valid at `now` and of a type
/// that `types` accepts.
pub open spec fn some_active(
    s: ZkCompliance,
    account: AccountId,
    ids: Seq<u64>,
    now: u64,
    types: spec_fn(ZkProofType) -> bool,
) -> bool {
    exists|k: int|
        0 <= k < ids.len() && proof_active(s.proof_of(account, #[trigger] ids[k]).unwrap(), now) && types(
            s.proof_of(account, ids[k]).unwrap().proof_type,
        )
}

/// Extending the numbers by one adds that proof to the search.
proof fn lemma_some_active_push(
    s: ZkCompliance,
    account: AccountId,
    ids: Seq<u64>,
    now: u64,
    types: spec_fn(ZkProofType) -> bool,
)
    requires
        ids.len() > 0,
    ensures
        some_active(s, account, ids, now, types) == (some_active(s, account, ids.drop_last(), now, types) || (
        proof_active(s.proof_of(account, ids.last()).unwrap(), now) && types(
            s.proof_of(account, ids.last()).unwrap().proof_type,
        ))),
{
    let d = ids.drop_last();
    if some_active(s, account, ids, now, types) {
        let k = choose|k: int|
            0 <= k < ids.len() && proof_active(s.proof_of(account, #[trigger] ids[k]).unwrap(), now) && types(
                s.proof_of(account, ids[k]).unwrap().proof_type,
            );
        if k < ids.len() - 1 {
            assert(d[k] == ids[k]);
        }
    }
    if some_active(s, account, d, now, types) {
        let k = choose|k: int|
            0 <= k < d.len() && proof_active(s.proof_of(account, #[trigger] d[k]).unwrap(), now) && types(
                s.proof_of(account, d[k]).unwrap().proof_type,
            );
        assert(ids[k] == d[k]);
    }
    if proof_active(s.proof_of(account, ids.last()).unwrap(), now) && types(
        s.proof_of(account, ids.last()).unwrap().proof_type,
    ) {
        assert(ids[ids.len() - 1] == ids.last());
    }
}

/// The proof type a certificate type attests: 0 identity, 2 accredited
/// investor, anything else a compliance check.
pub open spec fn certificate_proof_type(certificate_type: u8) -> ZkProofType {
    if certificate_type == 0 {
        ZkProofType::IdentityVerification
    } else if certificate_type == 2 {
        ZkProofType::AccreditedInvestor
    } else {
        ZkProofType::ComplianceCheck
    }
}

/// One step of a batch review: a refused review leaves the state and
/// reports failure; an accepted one is recorded and reports success unless
/// an approval failed the check.
pub open spec fn review_step(
    s0: ZkCompliance,
    s1: ZkCompliance,
    caller: AccountId,
    item: (AccountId, u64, bool),
    now: u64,
    ok: bool,
) -> bool {
    match review_error(s0, caller, item.0, item.1, item.2) {
        Some(_) => !ok && s1 == s0,
        None => review_recorded(s0, s1, caller, item.0, item.1, item.2, review_verifies(s0, item.0, item.1, item.2), now)
            && ok == (!item.2 || review_verifies(s0, item.0, item.1, item.2)),
    }
}

/// The counts after one more verification at `now`.
pub open spec fn counted(st: VerificationStats, successful: bool, now: u64) -> VerificationStats {
    VerificationStats {
        total_verifications: (st.total_verifications + 1) as u64,
        successful_verifications: if successful {
            (st.successful_verifications + 1) as u64
        } else {
            st.successful_verifications
        },
        failed_verifications: if successful {
            st.failed_verifications
        } else {
            (st.failed_verifications + 1) as u64
        },
        last_updated: now,
    }
}

/// `s1` is `s0` after `caller` submitted a proof at `now`: the caller's
/// next id holds the pending proof, and one audit entry was appended.
pub open spec fn submitted(
    s0: ZkCompliance,
    s1: ZkCompliance,
    caller: AccountId,
    proof_type: ZkProofType,
    public_inputs: Seq<[u8; 32]>,
    proof_data: Seq<u8>,
    metadata: Seq<u8>,
    now: u64,
) -> bool {
    let id = (s0.counter_of(caller) + 1) as u64;
    let n = s0.audit_count_of(caller);
    &&& forall|a: AccountId| #[trigger]
        s1.proof_counter.value_of(a) == if a == caller {
            Some(id)
        } else {
            s0.proof_counter.value_of(a)
        }
    &&& forall|a: AccountId, i: u64| #[trigger]
        s1.proof_of(a, i) == if a == caller && i == id {
            Some(
                ZkProofView {
                    proof_type,
                    status: ZkProofStatus::Pending,
                    public_inputs,
                    proof_data,
                    created_at: now,
                    expires_at: (now + PROOF_VALIDITY_MS) as u64,
                    verifier: zero_account(),
                    metadata,
                },
            )
        } else {
            s0.proof_of(a, i)
        }
    &&& forall|a: AccountId| #[trigger]
        s1.audit_count_of(a) == if a == caller {
            (n + 1) as u64
        } else {
            s0.audit_count_of(a)
        }
    &&& forall|a: AccountId, i: u64| #[trigger]
        s1.audit_of(a, i) == if a == caller && i == n {
            Some(
                AuditLog {
                    account: caller,
                    proof_type,
                    status: ZkProofStatus::Pending,
                    timestamp: now,
                    action: 0,
                },
            )
        } else {
            s0.audit_of(a, i)
        }
    &&& s1.owner == s0.owner
    &&& s1.privacy_preferences == s0.privacy_preferences
    &&& s1.zk_compliance_data == s0.zk_compliance_data
    &&& s1.approved_verifiers == s0.approved_verifiers
    &&& s1.verification_stats == s0.verification_stats
    &&& s1.verification_keys == s0.verification_keys
}

/// Element-wise equality of two lists of public inputs.
fn same_inputs(a: &Vec<[u8; 32]>, b: &Vec<[u8; 32]>) -> (r: bool)
    ensures
        r == (a@ == b@),
{
    if a.len() != b.len() {
        return false;
    }
    let mut k: usize = 0;
    while k < a.len()
        invariant
            k <= a@.len(),
            a@.len() == b@.len(),
            forall|j: int| 0 <= j < k ==> a@[j] == b@[j],
        decreases a@.len() - k,
    {
        if !crate::validation::same_account(&a[k], &b[k]) {
            return false;
        }
        k = k + 1;
    }
    assert(a@ =~= b@);
    true
}

impl ZkCompliance {
    /// The number of proofs `account` submitted.
    pub open spec fn counter_of(&self, account: AccountId) -> u64 {
        match self.proof_counter.value_of(account) {
            Some(c) => c,
            None => 0,
        }
    }

    /// `account`'s proof number `id`.
    pub open spec fn proof_of(&self, account: AccountId, id: u64) -> Option<ZkProofView> {
        match self.zk_proofs.value_of(key_of(account, id)) {
            Some(p) => Some(p@),
            None => None,
        }
    }

    /// The number of audit entries of `account`.
    pub open spec fn audit_count_of(&self, account: AccountId) -> u64 {
        match self.audit_log_count.value_of(account) {
            Some(c) => c,
            None => 0,
        }
    }

    /// `account`'s audit entry number `index`.
    pub open spec fn audit_of(&self, account: AccountId, index: u64) -> Option<AuditLog> {
        self.audit_logs.value_of(key_of(account, index))
    }

    /// The account is an approved verifier.
    pub open spec fn is_approved(&self, account: AccountId) -> bool {
        self.approved_verifiers.value_of(account) == Some(true)
    }

    /// The preferences `account` set.
    pub open spec fn preferences_of(&self, account: AccountId) -> Option<PreferencesView> {
        match self.privacy_preferences.value_of(account) {
            Some(p) => Some(p@),
            None => None,
        }
    }

    /// `account`'s compliance record.
    pub open spec fn compliance_of(&self, account: AccountId) -> Option<ComplianceView> {
        match self.zk_compliance_data.value_of(account) {
            Some(c) => Some(c@),
            None => None,
        }
    }

    /// The key registered for `proof_type`.
    pub open spec fn key_record_of(&self, proof_type: ZkProofType) -> Option<KeyRecordView> {
        match self.verification_keys.value_of(proof_type.spec_code()) {
            Some(k) => Some(k@),
            None => None,
        }
    }

    /// Only the privacy preferences may differ from `other`.
    pub open spec fn same_except_preferences(&self, other: &ZkCompliance) -> bool {
        &&& self.owner == other.owner
        &&& self.zk_proofs == other.zk_proofs
        &&& self.proof_counter == other.proof_counter
        &&& self.zk_compliance_data == other.zk_compliance_data
        &&& self.approved_verifiers == other.approved_verifiers
        &&& self.audit_logs == other.audit_logs
        &&& self.audit_log_count == other.audit_log_count
        &&& self.verification_stats == other.verification_stats
        &&& self.verification_keys == other.verification_keys
    }

    /// Only the verification keys may differ from `other`.
    pub open spec fn same_except_keys(&self, other: &ZkCompliance) -> bool {
        &&& self.owner == other.owner
        &&& self.zk_proofs == other.zk_proofs
        &&& self.proof_counter == other.proof_counter
        &&& self.privacy_preferences == other.privacy_preferences
        &&& self.zk_compliance_data == other.zk_compliance_data
        &&& self.approved_verifiers == other.approved_verifiers
        &&& self.audit_logs == other.audit_logs
        &&& self.audit_log_count == other.audit_log_count
        &&& self.verification_stats == other.verification_stats
    }

    /// A contract owned by `caller`, created at `now`, with no proofs, keys
    /// or verifiers.
    pub fn new(caller: AccountId, now: u64) -> (s: Self)
        ensures
            s.owner == caller,
            s.verification_stats == (VerificationStats {
                total_verifications: 0,
                successful_verifications: 0,
                failed_verifications: 0,
                last_updated: now,
            }),
            forall|a: AccountId| #[trigger] s.counter_of(a) == 0,
            forall|a: AccountId, i: u64| #[trigger] s.proof_of(a, i).is_none(),
            forall|a: AccountId| !#[trigger] s.is_approved(a),
            forall|a: AccountId| #[trigger] s.preferences_of(a).is_none(),
            forall|a: AccountId| #[trigger] s.compliance_of(a).is_none(),
            forall|a: AccountId| #[trigger] s.audit_count_of(a) == 0,
            forall|t: ZkProofType| #[trigger] s.key_record_of(t).is_none(),
    {
        ZkCompliance {
            owner: caller,
            zk_proofs: KeyMap::new(),
            proof_counter: KeyMap::new(),
            privacy_preferences: KeyMap::new(),
            zk_compliance_data: KeyMap::new(),
            approved_verifiers: KeyMap::new(),
            audit_logs: KeyMap::new(),
            audit_log_count: KeyMap::new(),
            verification_stats: VerificationStats {
                total_verifications: 0,
                successful_verifications: 0,
                failed_verifications: 0,
                last_updated: now,
            },
            verification_keys: KeyMap::new(),
        }
    }

    /// Only the owner may administer keys and verifiers.
    fn ensure_owner(&self, caller: AccountId) -> (r: Result<(), Error>)
        ensures
            r == (if caller == self.owner {
                Ok::<(), Error>(())
            } else {
                Err(Error::NotAuthorized)
            }),
    {
        if !crate::validation::same_account(&caller, &self.owner) {
            return Err(Error::NotAuthorized);
        }
        Ok(())
    }

    /// Only approved verifiers may review proofs.
    fn ensure_approved_verifier(&self, caller: AccountId) -> (r: Result<(), Error>)
        ensures
            r == (if self.is_approved(caller) {
                Ok::<(), Error>(())
            } else {
                Err(Error::NotAuthorized)
            }),
    {
        match self.approved_verifiers.get(caller) {
            Some(b) => if *b {
                Ok(())
            } else {
                Err(Error::NotAuthorized)
            },
            None => Err(Error::NotAuthorized),
        }
    }

    /// Register (or replace) the verification key of `proof_type`; the owner
    /// only. The key must be non-empty, at most `MAX_PROOF_LEN` bytes and
    /// decode as a verifying key; its version is one more than the previous
    /// key's, or 1.
    pub fn set_verification_key(
        &mut self,
        caller: AccountId,
        proof_type: ZkProofType,
        serialized_vk: Vec<u8>,
        vk_hash: [u8; 32],
    ) -> (r: Result<(), Error>)
        requires
            old(self).key_record_of(proof_type) matches Some(k) ==> k.version < u32::MAX,
        ensures
            caller != old(self).owner ==> r == Err::<(), Error>(Error::NotAuthorized) && *final(self)
                == *old(self),
            caller == old(self).owner && !(payload_accepted(serialized_vk@.len()) && vk_decodes(
                serialized_vk@,
            )) ==> r == Err::<(), Error>(Error::InvalidVerificationKey) && *final(self) == *old(self),
            caller == old(self).owner && payload_accepted(serialized_vk@.len()) && vk_decodes(
                serialized_vk@,
            ) ==> {
                &&& r is Ok
                &&& final(self).same_except_keys(old(self))
                &&& forall|t: ZkProofType| #[trigger]
                    final(self).key_record_of(t) == if t == proof_type {
                        Some(
                            KeyRecordView {
                                version: match old(self).key_record_of(proof_type) {
                                    Some(k) => (k.version + 1) as u32,
                                    None => 1u32,
                                },
                                serialized_vk: serialized_vk@,
                                vk_hash,
                                is_active: true,
                            },
                        )
                    } else {
                        old(self).key_record_of(t)
                    }
            },
    {
        self.ensure_owner(caller)?;
        if serialized_vk.len() == 0 || serialized_vk.len() > MAX_PROOF_LEN {
            return Err(Error::InvalidVerificationKey);
        }
        if !vk_is_well_formed(serialized_vk.as_slice()) {
            return Err(Error::InvalidVerificationKey);
        }
        let code = proof_type.code();
        let version = match self.verification_keys.get(code) {
            Some(k) => k.version + 1,
            None => 1,
        };
        let record = VerificationKeyRecord { version, serialized_vk, vk_hash, is_active: true };
        self.verification_keys.insert(code, record);
        proof {
            assert forall|t: ZkProofType| #[trigger] self.key_record_of(t) == if t == proof_type {
                Some(
                    KeyRecordView {
                        version,
                        serialized_vk: serialized_vk@,
                        vk_hash,
                        is_active: true,
                    },
                )
            } else {
                old(self).key_record_of(t)
            } by {
                if t != proof_type {
                    assert(t.spec_code() != proof_type.spec_code());
                }
            }
        }
        Ok(())
    }

    /// Replace the key of `proof_type`, returning the new version; the owner
    /// only.
    pub fn rotate_verification_key(
        &mut self,
        caller: AccountId,
        proof_type: ZkProofType,
        serialized_vk: Vec<u8>,
        vk_hash: [u8; 32],
    ) -> (r: Result<u32, Error>)
        requires
            old(self).key_record_of(proof_type) matches Some(k) ==> k.version < u32::MAX,
        ensures
            caller != old(self).owner ==> r == Err::<u32, Error>(Error::NotAuthorized) && *final(self)
                == *old(self),
            caller == old(self).owner && !(payload_accepted(serialized_vk@.len()) && vk_decodes(
                serialized_vk@,
            )) ==> r == Err::<u32, Error>(Error::InvalidVerificationKey) && *final(self) == *old(self),
            caller == old(self).owner && payload_accepted(serialized_vk@.len()) && vk_decodes(
                serialized_vk@,
            ) ==> {
                let version = match old(self).key_record_of(proof_type) {
                    Some(k) => (k.version + 1) as u32,
                    None => 1u32,
                };
                &&& r == Ok::<u32, Error>(version)
                &&& final(self).same_except_keys(old(self))
                &&& forall|t: ZkProofType| #[trigger]
                    final(self).key_record_of(t) == if t == proof_type {
                        Some(KeyRecordView { version, serialized_vk: serialized_vk@, vk_hash, is_active: true })
                    } else {
                        old(self).key_record_of(t)
                    }
            },
    {
        self.set_verification_key(caller, proof_type, serialized_vk, vk_hash)?;
        assert(self.key_record_of(proof_type) is Some);
        match self.verification_keys.get(proof_type.code()) {
            Some(k) => Ok(k.version),
            None => Err(Error::VerificationKeyNotFound),
        }
    }

    /// Deactivate the key of `proof_type`, so that checks for that type fail;
    /// the owner only.
    pub fn deactivate_verification_key(&mut self, caller: AccountId, proof_type: ZkProofType) -> (r:
        Result<(), Error>)
        ensures
            caller != old(self).owner ==> r == Err::<(), Error>(Error::NotAuthorized) && *final(self)
                == *old(self),
            caller == old(self).owner && old(self).key_record_of(proof_type) is None ==> r == Err::<
                (),
                Error,
            >(Error::VerificationKeyNotFound) && *final(self) == *old(self),
            caller == old(self).owner && old(self).key_record_of(proof_type) is Some ==> {
                &&& r is Ok
                &&& final(self).same_except_keys(old(self))
                &&& forall|t: ZkProofType| #[trigger]
                    final(self).key_record_of(t) == if t == proof_type {
                        Some(KeyRecordView { is_active: false, ..old(self).key_record_of(proof_type).unwrap() })
                    } else {
                        old(self).key_record_of(t)
                    }
            },
    {
        self.ensure_owner(caller)?;
        let code = proof_type.code();
        let mut record = match self.verification_keys.get(code) {
            Some(k) => k.copy(),
            None => return Err(Error::VerificationKeyNotFound),
        };
        record.is_active = false;
        let ghost rv = record@;
        self.verification_keys.insert(code, record);
        proof {
            assert forall|t: ZkProofType| #[trigger] self.key_record_of(t) == if t == proof_type {
                Some(rv)
            } else {
                old(self).key_record_of(t)
            } by {
                if t != proof_type {
                    assert(t.spec_code() != proof_type.spec_code());
                }
            }
        }
        Ok(())
    }

    /// The key record of `proof_type`.
    pub fn get_verification_key(&self, proof_type: ZkProofType) -> (r: Option<VerificationKeyRecord>)
        ensures
            match r {
                Some(k) => self.key_record_of(proof_type) == Some(k@),
                None => self.key_record_of(proof_type) is None,
            },
    {
        match self.verification_keys.get(proof_type.code()) {
            Some(k) => Some(k.copy()),
            None => None,
        }
    }

    /// The version of `proof_type`'s key.
    pub fn get_verification_key_version(&self, proof_type: ZkProofType) -> (r: Option<u32>)
        ensures
            r == match self.key_record_of(proof_type) {
                Some(k) => Some(k.version),
                None => None::<u32>,
            },
    {
        match self.verification_keys.get(proof_type.code()) {
            Some(k) => Some(k.version),
            None => None,
        }
    }

    /// Approve `verifier` to review proofs; the owner only.
    pub fn add_approved_verifier(&mut self, caller: AccountId, verifier: AccountId) -> (r: Result<
        (),
        Error,
    >)
        ensures
            caller != old(self).owner ==> r == Err::<(), Error>(Error::NotAuthorized) && *final(self)
                == *old(self),
            caller == old(self).owner ==> r is Ok && forall|a: AccountId| #[trigger]
                final(self).approved_verifiers.value_of(a) == if a == verifier {
                    Some(true)
                } else {
                    old(self).approved_verifiers.value_of(a)
                },
    {
        self.ensure_owner(caller)?;
        self.approved_verifiers.insert(verifier, true);
        Ok(())
    }

    /// Withdraw `verifier`'s approval; the owner only.
    pub fn remove_approved_verifier(&mut self, caller: AccountId, verifier: AccountId) -> (r: Result<
        (),
        Error,
    >)
        ensures
            caller != old(self).owner ==> r == Err::<(), Error>(Error::NotAuthorized) && *final(self)
                == *old(self),
            caller == old(self).owner ==> r is Ok && forall|a: AccountId| #[trigger]
                final(self).approved_verifiers.value_of(a) == if a == verifier {
                    Some(false)
                } else {
                    old(self).approved_verifiers.value_of(a)
                },
    {
        self.ensure_owner(caller)?;
        self.approved_verifiers.insert(verifier, false);
        Ok(())
    }

    /// Store `prefs` as `account`'s preferences.
    fn store_preferences(&mut self, account: AccountId, prefs: PrivacyPreferences)
        ensures
            final(self).same_except_preferences(old(self)),
            forall|a: AccountId| #[trigger]
                final(self).preferences_of(a) == if a == account {
                    Some(prefs@)
                } else {
                    old(self).preferences_of(a)
                },
    {
        let ghost pv = prefs@;
        self.privacy_preferences.insert(account, prefs);
        assert forall|a: AccountId| #[trigger]
            self.preferences_of(a) == if a == account {
                Some(pv)
            } else {
                old(self).preferences_of(a)
            } by {}
    }

    /// `caller` sets their preferences at `now`; the privacy level is at most 5.
    pub fn update_privacy_preferences(
        &mut self,
        caller: AccountId,
        allow_analytics: bool,
        share_data_with_third_party: bool,
        privacy_level: u8,
        encrypted_metadata: Vec<u8>,
        now: u64,
    ) -> (r: Result<(), Error>)
        ensures
            privacy_level > 5 ==> r == Err::<(), Error>(Error::InvalidPrivacyLevel) && *final(self)
                == *old(self),
            privacy_level <= 5 ==> {
                &&& r is Ok
                &&& final(self).same_except_preferences(old(self))
                &&& forall|a: AccountId| #[trigger]
                    final(self).preferences_of(a) == if a == caller {
                        Some(
                            PreferencesView {
                                allow_analytics,
                                share_data_with_third_party,
                                consent_timestamp: now,
                                privacy_level,
                                encrypted_metadata: encrypted_metadata@,
                            },
                        )
                    } else {
                        old(self).preferences_of(a)
                    }
            },
    {
        if privacy_level > 5 {
            return Err(Error::InvalidPrivacyLevel);
        }
        let preferences = PrivacyPreferences {
            allow_analytics,
            share_data_with_third_party,
            consent_timestamp: now,
            privacy_level,
            encrypted_metadata,
        };
        self.store_preferences(caller, preferences);
        Ok(())
    }

    /// `caller`'s preferences.
    pub fn get_privacy_preferences(&self, account: AccountId) -> (r: Option<PrivacyPreferences>)
        ensures
            match r {
                Some(p) => self.preferences_of(account) == Some(p@),
                None => self.preferences_of(account) is None,
            },
    {
        match self.privacy_preferences.get(account) {
            Some(p) => Some(p.copy()),
            None => None,
        }
    }

    /// `caller` sets their privacy controls; requires a privacy level of at
    /// most 5 and explicit consent to processing.
    pub fn set_privacy_controls(
        &mut self,
        caller: AccountId,
        allow_analytics: bool,
        share_data_with_third_party: bool,
        privacy_level: u8,
        consent_to_process: bool,
        consent_to_store: bool,
        encrypted_metadata: Vec<u8>,
        now: u64,
    ) -> (r: Result<(), Error>)
        ensures
            privacy_level > 5 ==> r == Err::<(), Error>(Error::InvalidPrivacyLevel) && *final(self)
                == *old(self),
            privacy_level <= 5 && !consent_to_process ==> r == Err::<(), Error>(
                Error::PrivacyControlsViolation,
            ) && *final(self) == *old(self),
            privacy_level <= 5 && consent_to_process ==> {
                &&& r is Ok
                &&& final(self).same_except_preferences(old(self))
                &&& forall|a: AccountId| #[trigger]
                    final(self).preferences_of(a) == if a == caller {
                        Some(
                            PreferencesView {
                                allow_analytics,
                                share_data_with_third_party,
                                consent_timestamp: now,
                                privacy_level,
                                encrypted_metadata: encrypted_metadata@,
                            },
                        )
                    } else {
                        old(self).preferences_of(a)
                    }
            },
    {
        if privacy_level > 5 {
            return Err(Error::InvalidPrivacyLevel);
        }
        if !consent_to_process {
            return Err(Error::PrivacyControlsViolation);
        }
        let preferences = PrivacyPreferences {
            allow_analytics,
            share_data_with_third_party,
            consent_timestamp: now,
            privacy_level,
            encrypted_metadata,
        };
        self.store_preferences(caller, preferences);
        Ok(())
    }

    /// `caller`'s preferences, or the defaults stamped `consent_timestamp`.
    fn preferences_or_default(&self, caller: AccountId, consent_timestamp: u64) -> (p: PrivacyPreferences)
        ensures
            p@ == match self.preferences_of(caller) {
                Some(q) => q,
                None => default_preferences(consent_timestamp),
            },
    {
        match self.privacy_preferences.get(caller) {
            Some(p) => p.copy(),
            None => {
                let p = PrivacyPreferences {
                    allow_analytics: false,
                    share_data_with_third_party: false,
                    consent_timestamp,
                    privacy_level: 3,
                    encrypted_metadata: Vec::new(),
                };
                assert(p@ =~= default_preferences(consent_timestamp));
                p
            },
        }
    }

    /// `caller` consents to proofs of the given types: refused below privacy
    /// level 2, otherwise the consent time becomes `now`.
    pub fn grant_proof_consent(&mut self, caller: AccountId, proof_types: Vec<ZkProofType>, now: u64) -> (r:
        Result<(), Error>)
        ensures
            ({
                let prefs = match old(self).preferences_of(caller) {
                    Some(q) => q,
                    None => default_preferences(0),
                };
                if prefs.privacy_level < 2 {
                    r == Err::<(), Error>(Error::PrivacyControlsViolation) && *final(self) == *old(self)
                } else {
                    &&& r is Ok
                    &&& final(self).same_except_preferences(old(self))
                    &&& forall|a: AccountId| #[trigger]
                        final(self).preferences_of(a) == if a == caller {
                            Some(PreferencesView { consent_timestamp: now, ..prefs })
                        } else {
                            old(self).preferences_of(a)
                        }
                }
            }),
    {
        let mut prefs = self.preferences_or_default(caller, 0);
        if prefs.privacy_level < 2 {
            return Err(Error::PrivacyControlsViolation);
        }
        prefs.consent_timestamp = now;
        self.store_preferences(caller, prefs);
        Ok(())
    }

    /// `caller` withdraws consent: the consent time becomes `now`.
    pub fn revoke_proof_consent(&mut self, caller: AccountId, proof_types: Vec<ZkProofType>, now: u64) -> (r:
        Result<(), Error>)
        ensures
            r is Ok,
            final(self).same_except_preferences(old(self)),
            forall|a: AccountId| #[trigger]
                final(self).preferences_of(a) == if a == caller {
                    Some(
                        PreferencesView {
                            consent_timestamp: now,
                            ..match old(self).preferences_of(caller) {
                                Some(q) => q,
                                None => default_preferences(0),
                            }
                        },
                    )
                } else {
                    old(self).preferences_of(a)
                },
    {
        let mut prefs = self.preferences_or_default(caller, 0);
        prefs.consent_timestamp = now;
        self.store_preferences(caller, prefs);
        Ok(())
    }

    /// `caller` updates their settings from the dashboard, keeping the
    /// original consent time (`now` for a first setting); the privacy level
    /// is at most 5.
    pub fn update_privacy_settings_via_dashboard(
        &mut self,
        caller: AccountId,
        new_privacy_level: u8,
        allow_analytics: bool,
        share_data_with_third_party: bool,
        encrypted_metadata: Vec<u8>,
        now: u64,
    ) -> (r: Result<(), Error>)
        ensures
            new_privacy_level > 5 ==> r == Err::<(), Error>(Error::InvalidPrivacyLevel) && *final(self)
                == *old(self),
            new_privacy_level <= 5 ==> {
                &&& r is Ok
                &&& final(self).same_except_preferences(old(self))
                &&& forall|a: AccountId| #[trigger]
                    final(self).preferences_of(a) == if a == caller {
                        Some(
                            PreferencesView {
                                allow_analytics,
                                share_data_with_third_party,
                                consent_timestamp: match old(self).preferences_of(caller) {
                                    Some(q) => q.consent_timestamp,
                                    None => now,
                                },
                                privacy_level: new_privacy_level,
                                encrypted_metadata: encrypted_metadata@,
                            },
                        )
                    } else {
                        old(self).preferences_of(a)
                    }
            },
    {
        if new_privacy_level > 5 {
            return Err(Error::InvalidPrivacyLevel);
        }
        let existing = self.preferences_or_default(caller, now);
        let updated = PrivacyPreferences {
            allow_analytics,
            share_data_with_third_party,
            consent_timestamp: existing.consent_timestamp,
            privacy_level: new_privacy_level,
            encrypted_metadata,
        };
        self.store_preferences(caller, updated);
        Ok(())
    }

    /// The aggregated verification counts.
    pub fn get_verification_stats(&self) -> (r: Result<VerificationStats, Error>)
        ensures
            r == Ok::<VerificationStats, Error>(self.verification_stats),
    {
        Ok(self.verification_stats)
    }

    /// The status of `account`'s latest proof, if it has one.
    pub open spec fn latest_status(&self, account: AccountId) -> Option<ZkProofStatus> {
        match self.proof_counter.value_of(account) {
            Some(c) => match self.proof_of(account, c) {
                Some(p) => Some(p.status),
                None => None,
            },
            None => None,
        }
    }

    /// Append an audit entry for `account`.
    fn log_audit_event(
        &mut self,
        account: AccountId,
        proof_type: ZkProofType,
        status: ZkProofStatus,
        action: u8,
        now: u64,
    )
        requires
            old(self).audit_count_of(account) < u64::MAX,
        ensures
            forall|a: AccountId| #[trigger]
                final(self).audit_count_of(a) == if a == account {
                    (old(self).audit_count_of(account) + 1) as u64
                } else {
                    old(self).audit_count_of(a)
                },
            forall|a: AccountId, i: u64| #[trigger]
                final(self).audit_of(a, i) == if a == account && i == old(self).audit_count_of(account) {
                    Some(AuditLog { account, proof_type, status, timestamp: now, action })
                } else {
                    old(self).audit_of(a, i)
                },
            final(self).owner == old(self).owner,
            final(self).zk_proofs == old(self).zk_proofs,
            final(self).proof_counter == old(self).proof_counter,
            final(self).privacy_preferences == old(self).privacy_preferences,
            final(self).zk_compliance_data == old(self).zk_compliance_data,
            final(self).approved_verifiers == old(self).approved_verifiers,
            final(self).verification_stats == old(self).verification_stats,
            final(self).verification_keys == old(self).verification_keys,
    {
        let count = match self.audit_log_count.get(account) {
            Some(c) => *c,
            None => 0,
        };
        let log = AuditLog { account, proof_type, status, timestamp: now, action };
        self.audit_logs.insert(AccountKey { account, index: count }, log);
        self.audit_log_count.insert(account, count + 1);
        assert forall|a: AccountId, i: u64| #[trigger]
            self.audit_of(a, i) == if a == account && i == count {
                Some(log)
            } else {
                old(self).audit_of(a, i)
            } by {
            assert(key_of(a, i) == key_of(account, count) <==> (a == account && i == count));
        }
    }

    /// The next proof id of `account`, which becomes its counter.
    fn get_next_proof_id(&mut self, account: AccountId) -> (id: u64)
        requires
            old(self).counter_of(account) < u64::MAX,
        ensures
            id == old(self).counter_of(account) + 1,
            forall|a: AccountId| #[trigger]
                final(self).proof_counter.value_of(a) == if a == account {
                    Some(id)
                } else {
                    old(self).proof_counter.value_of(a)
                },
            final(self).owner == old(self).owner,
            final(self).zk_proofs == old(self).zk_proofs,
            final(self).privacy_preferences == old(self).privacy_preferences,
            final(self).zk_compliance_data == old(self).zk_compliance_data,
            final(self).approved_verifiers == old(self).approved_verifiers,
            final(self).audit_logs == old(self).audit_logs,
            final(self).audit_log_count == old(self).audit_log_count,
            final(self).verification_stats == old(self).verification_stats,
            final(self).verification_keys == old(self).verification_keys,
    {
        let current = match self.proof_counter.get(account) {
            Some(c) => *c,
            None => 0,
        };
        let next = current + 1;
        self.proof_counter.insert(account, next);
        next
    }

    /// Store `proof` as `account`'s proof number `id`.
    fn store_proof(&mut self, account: AccountId, id: u64, proof: ZkProofData)
        ensures
            forall|a: AccountId, i: u64| #[trigger]
                final(self).proof_of(a, i) == if a == account && i == id {
                    Some(proof@)
                } else {
                    old(self).proof_of(a, i)
                },
            final(self).owner == old(self).owner,
            final(self).proof_counter == old(self).proof_counter,
            final(self).privacy_preferences == old(self).privacy_preferences,
            final(self).zk_compliance_data == old(self).zk_compliance_data,
            final(self).approved_verifiers == old(self).approved_verifiers,
            final(self).audit_logs == old(self).audit_logs,
            final(self).audit_log_count == old(self).audit_log_count,
            final(self).verification_stats == old(self).verification_stats,
            final(self).verification_keys == old(self).verification_keys,
    {
        let ghost pv = proof@;
        self.zk_proofs.insert(AccountKey { account, index: id }, proof);
        assert forall|a: AccountId, i: u64| #[trigger]
            self.proof_of(a, i) == if a == account && i == id {
                Some(pv)
            } else {
                old(self).proof_of(a, i)
            } by {
            assert(key_of(a, i) == key_of(account, id) <==> (a == account && i == id));
        }
    }

    /// `caller` submits a proof at `now`; it is pending, valid for a year,
    /// and gets the caller's next proof id.
    pub fn submit_zk_proof(
        &mut self,
        caller: AccountId,
        proof_type: ZkProofType,
        public_inputs: Vec<[u8; 32]>,
        proof_data: Vec<u8>,
        metadata: Vec<u8>,
        now: u64,
    ) -> (r: Result<u64, Error>)
        requires
            old(self).counter_of(caller) < u64::MAX,
            now + PROOF_VALIDITY_MS <= u64::MAX,
            old(self).audit_count_of(caller) < u64::MAX,
        ensures
            r == Ok::<u64, Error>((old(self).counter_of(caller) + 1) as u64),
            submitted(
                *old(self),
                *final(self),
                caller,
                proof_type,
                public_inputs@,
                proof_data@,
                metadata@,
                now,
            ),
    {
        let proof_id = self.get_next_proof_id(caller);
        let ghost s1: ZkCompliance = *self;
        let proof = ZkProofData {
            proof_type,
            status: ZkProofStatus::Pending,
            public_inputs,
            proof_data,
            created_at: now,
            expires_at: now + PROOF_VALIDITY_MS,
            verifier: null_account(),
            metadata,
        };
        let ghost pv = proof@;
        self.store_proof(caller, proof_id, proof);
        let ghost s2: ZkCompliance = *self;
        self.log_audit_event(caller, proof_type, ZkProofStatus::Pending, 0, now);
        assert(pv == ZkProofView {
            proof_type,
            status: ZkProofStatus::Pending,
            public_inputs: public_inputs@,
            proof_data: proof_data@,
            created_at: now,
            expires_at: (now + PROOF_VALIDITY_MS) as u64,
            verifier: zero_account(),
            metadata: metadata@,
        });
        assert(self.audit_count_of(caller) == old(self).audit_count_of(caller) + 1);
        assert forall|a: AccountId, i: u64| #[trigger] self.proof_of(a, i) == if a == caller && i == proof_id {
            Some(pv)
        } else {
            old(self).proof_of(a, i)
        } by {
            assert(s1.proof_of(a, i) == old(self).proof_of(a, i));
            assert(s2.proof_of(a, i) == self.proof_of(a, i));
        }
        assert forall|a: AccountId| #[trigger] self.audit_count_of(a) == if a == caller {
            (old(self).audit_count_of(caller) + 1) as u64
        } else {
            old(self).audit_count_of(a)
        } by {
            assert(s1.audit_count_of(a) == old(self).audit_count_of(a));
            assert(s2.audit_count_of(a) == s1.audit_count_of(a));
        }
        assert forall|a: AccountId, i: u64| #[trigger] self.audit_of(a, i) == if a == caller && i == old(self).audit_count_of(caller) {
            Some(AuditLog { account: caller, proof_type, status: ZkProofStatus::Pending, timestamp: now, action: 0 })
        } else {
            old(self).audit_of(a, i)
        } by {
            assert(s1.audit_of(a, i) == old(self).audit_of(a, i));
            assert(s2.audit_of(a, i) == s1.audit_of(a, i));
        }
        Ok(proof_id)
    }

    /// Check a stored proof against the key registered for its type.
    fn perform_zk_verification(&self, proof: &ZkProofData) -> (r: Result<bool, Error>)
        ensures
            r == proof_check(self.key_record_of(proof.proof_type), proof@),
    {
        self.deserialize_and_verify_zk_proof(proof)
    }

    /// Gate the proof's inputs and payload, find the active key of its type,
    /// and run the Groth16 check.
    fn deserialize_and_verify_zk_proof(&self, proof: &ZkProofData) -> (r: Result<bool, Error>)
        ensures
            r == proof_check(self.key_record_of(proof.proof_type), proof@),
    {
        if !validate_public_inputs(proof.public_inputs.as_slice()) {
            return Err(Error::InvalidInputs);
        }
        if !validate_proof_payload(proof.proof_data.as_slice()) {
            return Err(Error::InvalidProof);
        }
        let record = match self.verification_keys.get(proof.proof_type.code()) {
            Some(k) => k,
            None => return Err(Error::VerificationKeyNotFound),
        };
        if !record.is_active {
            return Err(Error::VerificationKeyNotFound);
        }
        let outcome = groth16_check(
            record.serialized_vk.as_slice(),
            proof.public_inputs.as_slice(),
            proof.proof_data.as_slice(),
        );
        outcome_to_result(outcome)
    }

    /// Stateless check of a proof for `proof_type` against the registered
    /// key, callable by anyone.
    pub fn verify_zk_proof_data(
        &self,
        proof_type: ZkProofType,
        public_inputs: Vec<[u8; 32]>,
        proof_data: Vec<u8>,
    ) -> (r: Result<bool, ZkVerifyError>)
        ensures
            !public_inputs_well_formed(public_inputs@) ==> r == Err::<bool, ZkVerifyError>(
                ZkVerifyError::InvalidPublicInputs,
            ),
            public_inputs_well_formed(public_inputs@) && !payload_accepted(proof_data@.len()) ==> r
                == Err::<bool, ZkVerifyError>(ZkVerifyError::InvalidProof),
            public_inputs_well_formed(public_inputs@) && payload_accepted(proof_data@.len()) ==> r
                == match self.key_record_of(proof_type) {
                Some(k) => if k.is_active {
                    outcome_as_verify_result(groth16_outcome(k.serialized_vk, public_inputs@, proof_data@))
                } else {
                    Err(ZkVerifyError::VerificationKeyNotFound)
                },
                None => Err(ZkVerifyError::VerificationKeyNotFound),
            },
    {
        if !validate_public_inputs(public_inputs.as_slice()) {
            return Err(ZkVerifyError::InvalidPublicInputs);
        }
        if !validate_proof_payload(proof_data.as_slice()) {
            return Err(ZkVerifyError::InvalidProof);
        }
        let record = match self.verification_keys.get(proof_type.code()) {
            Some(k) => k,
            None => return Err(ZkVerifyError::VerificationKeyNotFound),
        };
        if !record.is_active {
            return Err(ZkVerifyError::VerificationKeyNotFound);
        }
        let outcome = groth16_check(
            record.serialized_vk.as_slice(),
            public_inputs.as_slice(),
            proof_data.as_slice(),
        );
        outcome_to_verify_result(outcome)
    }

    /// Count one more verification, successful or not, at `now`.
    fn count_verification(&mut self, successful: bool, now: u64)
        requires
            old(self).verification_stats.total_verifications < u64::MAX,
            successful ==> old(self).verification_stats.successful_verifications < u64::MAX,
            !successful ==> old(self).verification_stats.failed_verifications < u64::MAX,
        ensures
            final(self).verification_stats == counted(old(self).verification_stats, successful, now),
            final(self).owner == old(self).owner,
            final(self).zk_proofs == old(self).zk_proofs,
            final(self).proof_counter == old(self).proof_counter,
            final(self).privacy_preferences == old(self).privacy_preferences,
            final(self).zk_compliance_data == old(self).zk_compliance_data,
            final(self).approved_verifiers == old(self).approved_verifiers,
            final(self).audit_logs == old(self).audit_logs,
            final(self).audit_log_count == old(self).audit_log_count,
            final(self).verification_keys == old(self).verification_keys,
    {
        if successful {
            self.verification_stats.successful_verifications = self.verification_stats.successful_verifications + 1;
        } else {
            self.verification_stats.failed_verifications = self.verification_stats.failed_verifications + 1;
        }
        self.verification_stats.total_verifications = self.verification_stats.total_verifications + 1;
        self.verification_stats.last_updated = now;
    }

    /// Refresh `account`'s compliance record at `now` from its latest proof.
    fn update_compliance_data(&mut self, account: AccountId, now: u64)
        requires
            now + PROOF_VALIDITY_MS <= u64::MAX,
        ensures
            forall|a: AccountId| #[trigger]
                final(self).compliance_of(a) == if a == account {
                    Some(
                        refreshed_compliance(
                            old(self).compliance_of(account),
                            old(self).proof_counter.value_of(account),
                            old(self).latest_status(account),
                            now,
                        ),
                    )
                } else {
                    old(self).compliance_of(a)
                },
            final(self).owner == old(self).owner,
            final(self).zk_proofs == old(self).zk_proofs,
            final(self).proof_counter == old(self).proof_counter,
            final(self).privacy_preferences == old(self).privacy_preferences,
            final(self).approved_verifiers == old(self).approved_verifiers,
            final(self).audit_logs == old(self).audit_logs,
            final(self).audit_log_count == old(self).audit_log_count,
            final(self).verification_stats == old(self).verification_stats,
            final(self).verification_keys == old(self).verification_keys,
    {
        let mut data = match self.zk_compliance_data.get(account) {
            Some(c) => c.copy(),
            None => ZkComplianceData {
                zk_proof_ids: Vec::new(),
                verification_status: ZkProofStatus::NotSubmitted,
                last_verification: 0,
                next_required_verification: 0,
                compliance_jurisdiction: 0,
                privacy_controls_enabled: true,
            },
        };
        let counter = match self.proof_counter.get(account) {
            Some(c) => Some(*c),
            None => None,
        };
        if let Some(current_id) = counter {
            if current_id > 0 {
                data.zk_proof_ids.push(current_id);
            }
        }
        data.last_verification = now;
        data.next_required_verification = now + PROOF_VALIDITY_MS;
        if let Some(latest_id) = counter {
            if latest_id > 0 {
                if let Some(latest) = self.zk_proofs.get(AccountKey { account, index: latest_id }) {
                    data.verification_status = latest.status;
                }
            }
        }
        let ghost dv = data@;
        proof {
            assert(dv =~= refreshed_compliance(
                old(self).compliance_of(account),
                old(self).proof_counter.value_of(account),
                old(self).latest_status(account),
                now,
            ));
        }
        self.zk_compliance_data.insert(account, data);
        assert forall|a: AccountId| #[trigger]
            self.compliance_of(a) == if a == account {
                Some(dv)
            } else {
                old(self).compliance_of(a)
            } by {}
    }

    /// Record a verifier's review of `account`'s pending proof `proof_id`
    /// at `now`, given whether the cryptographic check succeeded.
    pub fn record_review(
        &mut self,
        caller: AccountId,
        account: AccountId,
        proof_id: u64,
        approve: bool,
        verified: bool,
        now: u64,
    )
        requires
            old(self).proof_of(account, proof_id) is Some,
            review_fits(*old(self), account, now),
        ensures
            review_recorded(*old(self), *final(self), caller, account, proof_id, approve, verified, now),
    {
        let mut proof = self.zk_proofs.get(AccountKey { account, index: proof_id }).unwrap().copy();
        let ghost p0 = proof@;
        assert(self.proof_of(account, proof_id) == Some(p0));
        let success = approve && verified;
        proof.status = if success {
            ZkProofStatus::Verified
        } else {
            ZkProofStatus::Rejected
        };
        proof.verifier = caller;
        let proof_type = proof.proof_type;
        let status = proof.status;
        self.store_proof(account, proof_id, proof);
        let ghost s1: ZkCompliance = *self;
        let action: u8 = if approve {
            1
        } else {
            2
        };
        self.log_audit_event(account, proof_type, status, action, now);
        let ghost s2: ZkCompliance = *self;
        self.count_verification(success, now);
        let ghost s3: ZkCompliance = *self;
        self.update_compliance_data(account, now);
        proof {
            assert forall|a: AccountId, i: u64| #[trigger] self.proof_of(a, i) == s1.proof_of(a, i) by {
                assert(s2.proof_of(a, i) == s1.proof_of(a, i));
                assert(s3.proof_of(a, i) == s2.proof_of(a, i));
            }
            assert forall|a: AccountId| #[trigger] self.audit_count_of(a) == s2.audit_count_of(a) by {
                assert(s3.audit_count_of(a) == s2.audit_count_of(a));
                assert(s1.audit_count_of(a) == old(self).audit_count_of(a));
            }
            assert forall|a: AccountId, i: u64| #[trigger] self.audit_of(a, i) == s2.audit_of(a, i) by {
                assert(s3.audit_of(a, i) == s2.audit_of(a, i));
                assert(s1.audit_of(a, i) == old(self).audit_of(a, i));
            }
            assert forall|a: AccountId| #[trigger] s3.compliance_of(a) == old(self).compliance_of(a) by {
                assert(s1.compliance_of(a) == old(self).compliance_of(a));
                assert(s2.compliance_of(a) == s1.compliance_of(a));
            }
            assert(s3.latest_status(account) == self.latest_status(account));
            assert(s3.proof_counter.value_of(account) == old(self).proof_counter.value_of(account));
        }
    }

    /// A verifier reviews `account`'s pending proof `proof_id` at `now`. An
    /// approval runs the Groth16 check, whose errors are returned unchanged;
    /// the proof is verified only when approved and the check succeeds, and
    /// rejected otherwise. An approval that fails the check is recorded as a
    /// rejection and reported as `VerificationFailed`.
    pub fn verify_zk_proof(
        &mut self,
        caller: AccountId,
        account: AccountId,
        proof_id: u64,
        approve: bool,
        now: u64,
    ) -> (r: Result<(), Error>)
        requires
            review_fits(*old(self), account, now),
        ensures
            match review_error(*old(self), caller, account, proof_id, approve) {
                Some(e) => r == Err::<(), Error>(e) && *final(self) == *old(self),
                None => review_recorded(
                    *old(self),
                    *final(self),
                    caller,
                    account,
                    proof_id,
                    approve,
                    review_verifies(*old(self), account, proof_id, approve),
                    now,
                ) && r == if approve && !review_verifies(*old(self), account, proof_id, approve) {
                    Err::<(), Error>(Error::VerificationFailed)
                } else {
                    Ok(())
                },
            },
    {
        self.ensure_approved_verifier(caller)?;
        let proof = match self.zk_proofs.get(AccountKey { account, index: proof_id }) {
            Some(p) => p.copy(),
            None => return Err(Error::ProofNotFound),
        };
        assert(self.proof_of(account, proof_id) == Some(proof@));
        if proof.status != ZkProofStatus::Pending {
            return Err(Error::AlreadyVerified);
        }
        let verified = if approve {
            self.perform_zk_verification(&proof)?
        } else {
            false
        };
        self.record_review(caller, account, proof_id, approve, verified, now);
        if approve && !verified {
            return Err(Error::VerificationFailed);
        }
        Ok(())
    }

    /// Close the review of `account`'s pending proof `proof_id` at `now`.
    /// When `valid` holds the proof becomes `Verified` and its id comes back;
    /// otherwise it becomes `Rejected` and `VerificationFailed` comes back.
    pub fn settle_submitted_proof(&mut self, account: AccountId, proof_id: u64, valid: bool, now: u64) -> (r:
        Result<u64, Error>)
        requires
            old(self).proof_of(account, proof_id) is Some,
            review_fits(*old(self), account, now),
        ensures
            settled(*old(self), *final(self), account, proof_id, valid, now),
            r == if valid {
                Ok::<u64, Error>(proof_id)
            } else {
                Err(Error::VerificationFailed)
            },
    {
        let mut proof = self.zk_proofs.get(AccountKey { account, index: proof_id }).unwrap().copy();
        assert(self.proof_of(account, proof_id) == Some(proof@));
        let proof_type = proof.proof_type;
        if !valid {
            proof.status = ZkProofStatus::Rejected;
            self.store_proof(account, proof_id, proof);
            let ghost s1: ZkCompliance = *self;
            self.log_audit_event(account, proof_type, ZkProofStatus::Rejected, 2, now);
            let ghost s2: ZkCompliance = *self;
            self.count_verification(false, now);
            proof {
                assert forall|a: AccountId, i: u64| #[trigger] self.proof_of(a, i) == s1.proof_of(a, i) by {
                    assert(s2.proof_of(a, i) == s1.proof_of(a, i));
                }
                assert forall|a: AccountId| #[trigger] self.audit_count_of(a) == s2.audit_count_of(a) by {
                    assert(s1.audit_count_of(a) == old(self).audit_count_of(a));
                }
                assert forall|a: AccountId, i: u64| #[trigger] self.audit_of(a, i) == s2.audit_of(a, i) by {
                    assert(s1.audit_of(a, i) == old(self).audit_of(a, i));
                }
                assert forall|a: AccountId| #[trigger] self.compliance_of(a) == old(self).compliance_of(a) by {
                    assert(s1.compliance_of(a) == old(self).compliance_of(a));
                    assert(s2.compliance_of(a) == s1.compliance_of(a));
                }
            }
            return Err(Error::VerificationFailed);
        }
        proof.status = ZkProofStatus::Verified;
        proof.created_at = now;
        proof.expires_at = now + PROOF_VALIDITY_MS;
        self.store_proof(account, proof_id, proof);
        let ghost s1: ZkCompliance = *self;
        self.log_audit_event(account, proof_type, ZkProofStatus::Verified, 1, now);
        let ghost s2: ZkCompliance = *self;
        self.count_verification(true, now);
        let ghost s3: ZkCompliance = *self;
        self.update_compliance_data(account, now);
        proof {
            assert forall|a: AccountId, i: u64| #[trigger] self.proof_of(a, i) == s1.proof_of(a, i) by {
                assert(s2.proof_of(a, i) == s1.proof_of(a, i));
                assert(s3.proof_of(a, i) == s2.proof_of(a, i));
            }
            assert forall|a: AccountId| #[trigger] self.audit_count_of(a) == s2.audit_count_of(a) by {
                assert(s3.audit_count_of(a) == s2.audit_count_of(a));
                assert(s1.audit_count_of(a) == old(self).audit_count_of(a));
            }
            assert forall|a: AccountId, i: u64| #[trigger] self.audit_of(a, i) == s2.audit_of(a, i) by {
                assert(s3.audit_of(a, i) == s2.audit_of(a, i));
                assert(s1.audit_of(a, i) == old(self).audit_of(a, i));
            }
            assert forall|a: AccountId| #[trigger] s3.compliance_of(a) == old(self).compliance_of(a) by {
                assert(s1.compliance_of(a) == old(self).compliance_of(a));
                assert(s2.compliance_of(a) == s1.compliance_of(a));
            }
            assert(s3.latest_status(account) == self.latest_status(account));
            assert(s3.proof_counter.value_of(account) == old(self).proof_counter.value_of(account));
        }
        Ok(proof_id)
    }

    /// Submit `caller`'s proof and check it at once: a proof the check
    /// approves is verified, one it refuses is rejected; a proof that
    /// cannot be checked (malformed, or no active key) stays pending and
    /// the check's error is returned.
    pub fn verify_and_store_proof(
        &mut self,
        caller: AccountId,
        proof_type: ZkProofType,
        public_inputs: Vec<[u8; 32]>,
        proof_data: Vec<u8>,
        metadata: Vec<u8>,
        now: u64,
    ) -> (r: Result<u64, Error>)
        requires
            old(self).counter_of(caller) < u64::MAX,
            old(self).audit_count_of(caller) < u64::MAX - 1,
            review_fits(*old(self), caller, now),
        ensures
            stored_and_checked(
                *old(self),
                *final(self),
                caller,
                proof_type,
                public_inputs@,
                proof_data@,
                metadata@,
                now,
                r,
            ),
    {
        let ghost inputs = public_inputs@;
        let ghost data = proof_data@;
        let ghost meta = metadata@;
        let proof_id = self.submit_zk_proof(caller, proof_type, public_inputs, proof_data, metadata, now)?;
        let ghost mid: ZkCompliance = *self;
        let proof = self.zk_proofs.get(AccountKey { account: caller, index: proof_id }).unwrap().copy();
        assert(self.proof_of(caller, proof_id) == Some(proof@));
        assert(self.key_record_of(proof_type) == old(self).key_record_of(proof_type));
        let valid = match self.perform_zk_verification(&proof) {
            Ok(v) => v,
            Err(e) => {
                assert(submitted(*old(self), mid, caller, proof_type, inputs, data, meta, now));
                return Err(e);
            },
        };
        assert(self.audit_count_of(caller) == old(self).audit_count_of(caller) + 1);
        let r = self.settle_submitted_proof(caller, proof_id, valid, now);
        assert(submitted(*old(self), mid, caller, proof_type, inputs, data, meta, now));
        r
    }

    /// The public input that binds `statement`: its BLAKE2b-256 digest
    /// reduced into the scalar field, as the prover derives it.
    pub fn bind_public_input(statement: &[u8]) -> (r: [u8; 32])
        ensures
            binds_statement(statement@, r),
            r == statement_input(statement@),
    {
        let digest = blake2b_256(statement);
        let r = reduce_mod_bn254(&digest);
        assert(le_value32(r) == le_value32(digest) % bn254_modulus());
        proof {
            law_statement_binding_is_unique(statement@, r, r);
        }
        r
    }

    /// Append the `n` low little-endian bytes of `v` to `out`.
    fn push_le(out: &mut Vec<u8>, v: u128, n: usize)
        ensures
            final(out)@ == old(out)@ + le_bytes(v as nat, n as nat),
        decreases n,
    {
        if n == 0 {
            assert(old(out)@ + le_bytes(v as nat, 0) =~= old(out)@);
            return;
        }
        let ghost before = out@;
        out.push((v % 256) as u8);
        Self::push_le(out, v / 256, n - 1);
        assert(before + le_bytes(v as nat, n as nat) =~= before.push((v % 256) as u8) + le_bytes(
            (v / 256) as nat,
            (n - 1) as nat,
        ));
    }

    /// Append the 32 bytes of `bytes` to `out`.
    fn push_bytes32(out: &mut Vec<u8>, bytes: &[u8; 32])
        ensures
            final(out)@ == old(out)@ + bytes@,
    {
        let mut k: usize = 0;
        let ghost before = out@;
        while k < 32
            invariant
                k <= 32,
                out@ == before + bytes@.take(k as int),
            decreases 32 - k,
        {
            out.push(bytes[k]);
            k = k + 1;
            assert(out@ =~= before + bytes@.take(k as int));
        }
        assert(bytes@.take(32) =~= bytes@);
    }

    /// Check and store a proof bound to `statement` for `proof_type`.
    fn prove_statement(
        &mut self,
        caller: AccountId,
        proof_type: ZkProofType,
        statement: Vec<u8>,
        proof_data: Vec<u8>,
        now: u64,
    ) -> (r: Result<(), Error>)
        requires
            old(self).counter_of(caller) < u64::MAX,
            old(self).audit_count_of(caller) < u64::MAX - 1,
            review_fits(*old(self), caller, now),
        ensures
            statement_proved(*old(self), *final(self), caller, proof_type, statement@, proof_data@, now, r),
    {
        let public_input = Self::bind_public_input(statement.as_slice());
        let mut inputs: Vec<[u8; 32]> = Vec::new();
        inputs.push(public_input);
        let ghost st = statement@;
        let ghost pd = proof_data@;
        assert(inputs@ == seq![public_input]);
        let result = self.verify_and_store_proof(caller, proof_type, inputs, proof_data, statement, now);
        let r = match result {
            Ok(_) => Ok(()),
            Err(e) => Err(e),
        };
        assert(stored_and_checked(*old(self), *self, caller, proof_type, seq![public_input], pd, st, now, result));
        r
    }

    /// `caller` proves meeting an age requirement in a country without
    /// revealing personal data; the statement is `(age_requirement,
    /// country_code)` encoded as one byte and two little-endian bytes.
    pub fn verify_identity_zk(
        &mut self,
        caller: AccountId,
        age_requirement: u8,
        country_code: u16,
        proof_data: Vec<u8>,
        now: u64,
    ) -> (r: Result<(), Error>)
        requires
            old(self).counter_of(caller) < u64::MAX,
            old(self).audit_count_of(caller) < u64::MAX - 1,
            review_fits(*old(self), caller, now),
        ensures
            statement_proved(
                *old(self),
                *final(self),
                caller,
                ZkProofType::AgeVerification,
                seq![age_requirement] + le_bytes(country_code as nat, 2),
                proof_data@,
                now,
                r,
            ),
    {
        let mut statement: Vec<u8> = Vec::new();
        statement.push(age_requirement);
        Self::push_le(&mut statement, country_code as u128, 2);
        assert(statement@ =~= seq![age_requirement] + le_bytes(country_code as nat, 2));
        self.prove_statement(caller, ZkProofType::AgeVerification, statement, proof_data, now)
    }

    /// `caller` proves a minimum income without revealing amounts; the
    /// statement is `min_income_usd` as eight little-endian bytes.
    pub fn verify_financial_standing_zk(&mut self, caller: AccountId, min_income_usd: u64, proof_data: Vec<u8>, now: u64) -> (r:
        Result<(), Error>)
        requires
            old(self).counter_of(caller) < u64::MAX,
            old(self).audit_count_of(caller) < u64::MAX - 1,
            review_fits(*old(self), caller, now),
        ensures
            statement_proved(
                *old(self),
                *final(self),
                caller,
                ZkProofType::IncomeVerification,
                le_bytes(min_income_usd as nat, 8),
                proof_data@,
                now,
                r,
            ),
    {
        let mut statement: Vec<u8> = Vec::new();
        Self::push_le(&mut statement, min_income_usd as u128, 8);
        assert(statement@ =~= le_bytes(min_income_usd as nat, 8));
        self.prove_statement(caller, ZkProofType::IncomeVerification, statement, proof_data, now)
    }

    /// `caller` proves accredited-investor status; the statement is the
    /// single marker byte 1.
    pub fn verify_accredited_investor_zk(&mut self, caller: AccountId, proof_data: Vec<u8>, now: u64) -> (r:
        Result<(), Error>)
        requires
            old(self).counter_of(caller) < u64::MAX,
            old(self).audit_count_of(caller) < u64::MAX - 1,
            review_fits(*old(self), caller, now),
        ensures
            statement_proved(
                *old(self),
                *final(self),
                caller,
                ZkProofType::AccreditedInvestor,
                seq![1u8],
                proof_data@,
                now,
                r,
            ),
    {
        let mut statement: Vec<u8> = Vec::new();
        statement.push(1u8);
        self.prove_statement(caller, ZkProofType::AccreditedInvestor, statement, proof_data, now)
    }

    /// `caller` submits a confidential transaction; the statement is
    /// `(transaction_type, amount, asset_type)` as one byte, sixteen
    /// little-endian bytes and one byte.
    pub fn submit_confidential_transaction(
        &mut self,
        caller: AccountId,
        transaction_type: u8,
        amount: u128,
        asset_type: u8,
        proof_data: Vec<u8>,
        now: u64,
    ) -> (r: Result<(), Error>)
        requires
            old(self).counter_of(caller) < u64::MAX,
            old(self).audit_count_of(caller) < u64::MAX - 1,
            review_fits(*old(self), caller, now),
        ensures
            statement_proved(
                *old(self),
                *final(self),
                caller,
                ZkProofType::ComplianceCheck,
                seq![transaction_type] + le_bytes(amount as nat, 16) + seq![asset_type],
                proof_data@,
                now,
                r,
            ),
    {
        let mut statement: Vec<u8> = Vec::new();
        statement.push(transaction_type);
        Self::push_le(&mut statement, amount, 16);
        statement.push(asset_type);
        assert(statement@ =~= seq![transaction_type] + le_bytes(amount as nat, 16) + seq![asset_type]);
        self.prove_statement(caller, ZkProofType::ComplianceCheck, statement, proof_data, now)
    }

    /// `caller` proves owning property `property_id`; the statement is the
    /// id's bytes.
    pub fn create_property_ownership_proof(
        &mut self,
        caller: AccountId,
        property_id: [u8; 32],
        proof_data: Vec<u8>,
        now: u64,
    ) -> (r: Result<(), Error>)
        requires
            old(self).counter_of(caller) < u64::MAX,
            old(self).audit_count_of(caller) < u64::MAX - 1,
            review_fits(*old(self), caller, now),
        ensures
            statement_proved(
                *old(self),
                *final(self),
                caller,
                ZkProofType::PropertyOwnership,
                property_id@,
                proof_data@,
                now,
                r,
            ),
    {
        let mut statement: Vec<u8> = Vec::new();
        Self::push_bytes32(&mut statement, &property_id);
        assert(statement@ =~= property_id@);
        self.prove_statement(caller, ZkProofType::PropertyOwnership, statement, proof_data, now)
    }

    /// `caller` proves owning property `property_id` under
    /// `owner_public_key`; the statement is the two 32-byte values in turn.
    pub fn verify_property_ownership_zk(
        &mut self,
        caller: AccountId,
        property_id: [u8; 32],
        owner_public_key: [u8; 32],
        proof_data: Vec<u8>,
        now: u64,
    ) -> (r: Result<(), Error>)
        requires
            old(self).counter_of(caller) < u64::MAX,
            old(self).audit_count_of(caller) < u64::MAX - 1,
            review_fits(*old(self), caller, now),
        ensures
            statement_proved(
                *old(self),
                *final(self),
                caller,
                ZkProofType::PropertyOwnership,
                property_id@ + owner_public_key@,
                proof_data@,
                now,
                r,
            ),
    {
        let mut statement: Vec<u8> = Vec::new();
        Self::push_bytes32(&mut statement, &property_id);
        Self::push_bytes32(&mut statement, &owner_public_key);
        assert(statement@ =~= property_id@ + owner_public_key@);
        self.prove_statement(caller, ZkProofType::PropertyOwnership, statement, proof_data, now)
    }

    /// `caller` proves owning the address whose hash is `address_hash`; the
    /// statement is the hash's bytes.
    pub fn verify_address_ownership_zk(
        &mut self,
        caller: AccountId,
        address_hash: [u8; 32],
        proof_data: Vec<u8>,
        now: u64,
    ) -> (r: Result<(), Error>)
        requires
            old(self).counter_of(caller) < u64::MAX,
            old(self).audit_count_of(caller) < u64::MAX - 1,
            review_fits(*old(self), caller, now),
        ensures
            statement_proved(
                *old(self),
                *final(self),
                caller,
                ZkProofType::AddressOwnership,
                address_hash@,
                proof_data@,
                now,
                r,
            ),
    {
        let mut statement: Vec<u8> = Vec::new();
        Self::push_bytes32(&mut statement, &address_hash);
        assert(statement@ =~= address_hash@);
        self.prove_statement(caller, ZkProofType::AddressOwnership, statement, proof_data, now)
    }

    /// Whether `account`'s latest proof of `proof_type` is verified and
    /// unexpired at `now`.
    pub fn is_zk_proof_valid(&self, account: AccountId, proof_type: ZkProofType, now: u64) -> (r: bool)
        ensures
            r == latest_valid(*self, account, proof_type, now, self.counter_of(account) as nat),
    {
        let count = match self.proof_counter.get(account) {
            Some(c) => *c,
            None => 0,
        };
        let mut id = count;
        while id > 0
            invariant
                id <= count,
                count == self.counter_of(account),
                latest_valid(*self, account, proof_type, now, count as nat) == latest_valid(
                    *self,
                    account,
                    proof_type,
                    now,
                    id as nat,
                ),
            decreases id,
        {
            match self.zk_proofs.get(AccountKey { account, index: id }) {
                Some(p) => {
                    assert(self.proof_of(account, id) == Some(p@));
                    if p.proof_type == proof_type {
                        return p.status == ZkProofStatus::Verified && p.expires_at > now;
                    }
                },
                None => {},
            }
            id = id - 1;
        }
        false
    }

    /// Ok when `account` holds a valid proof of every required type at
    /// `now`, `VerificationFailed` otherwise.
    pub fn zk_compliance_check(&self, account: AccountId, required_proof_types: Vec<ZkProofType>, now: u64) -> (r:
        Result<(), Error>)
        ensures
            r == if all_valid(*self, account, required_proof_types@, now) {
                Ok::<(), Error>(())
            } else {
                Err(Error::VerificationFailed)
            },
    {
        if self.anonymous_compliance_check(account, required_proof_types, now) {
            Ok(())
        } else {
            Err(Error::VerificationFailed)
        }
    }

    /// Whether `account` holds a valid proof of every required type at
    /// `now`, revealing nothing else.
    pub fn anonymous_compliance_check(&self, account: AccountId, required_proof_types: Vec<ZkProofType>, now: u64) -> (r:
        bool)
        ensures
            r == all_valid(*self, account, required_proof_types@, now),
    {
        let mut k: usize = 0;
        while k < required_proof_types.len()
            invariant
                k <= required_proof_types@.len(),
                forall|j: int|
                    0 <= j < k ==> latest_valid(
                        *self,
                        account,
                        #[trigger] required_proof_types@[j],
                        now,
                        self.counter_of(account) as nat,
                    ),
            decreases required_proof_types@.len() - k,
        {
            if !self.is_zk_proof_valid(account, required_proof_types[k], now) {
                return false;
            }
            k = k + 1;
        }
        true
    }

    /// Match `public_params` against `account`'s latest proof of
    /// `proof_type`: Ok when they agree and the proof is valid at `now`,
    /// `ExpiredProof` when they agree but it is not, `InvalidProof` when
    /// they differ, `ProofNotFound` when there is no such proof.
    pub fn verify_compliance_public_params(
        &self,
        account: AccountId,
        proof_type: ZkProofType,
        public_params: Vec<[u8; 32]>,
        now: u64,
    ) -> (r: Result<(), Error>)
        ensures
            r == public_params_result(*self, account, proof_type, public_params@, now, self.counter_of(account) as nat),
    {
        let count = match self.proof_counter.get(account) {
            Some(c) => *c,
            None => 0,
        };
        let mut id = count;
        while id > 0
            invariant
                id <= count,
                count == self.counter_of(account),
                public_params_result(*self, account, proof_type, public_params@, now, count as nat)
                    == public_params_result(*self, account, proof_type, public_params@, now, id as nat),
            decreases id,
        {
            match self.zk_proofs.get(AccountKey { account, index: id }) {
                Some(p) => {
                    assert(self.proof_of(account, id) == Some(p@));
                    if p.proof_type == proof_type {
                        if same_inputs(&p.public_inputs, &public_params) {
                            if p.status == ZkProofStatus::Verified && p.expires_at > now {
                                return Ok(());
                            } else {
                                return Err(Error::ExpiredProof);
                            }
                        } else {
                            return Err(Error::InvalidProof);
                        }
                    }
                },
                None => {},
            }
            id = id - 1;
        }
        Err(Error::ProofNotFound)
    }

    /// `account`'s compliance record.
    pub fn get_zk_compliance_data(&self, account: AccountId) -> (r: Option<ZkComplianceData>)
        ensures
            match r {
                Some(c) => self.compliance_of(account) == Some(c@),
                None => self.compliance_of(account) is None,
            },
    {
        match self.zk_compliance_data.get(account) {
            Some(c) => Some(c.copy()),
            None => None,
        }
    }

    /// `account`'s proof number `proof_id`.
    pub fn get_zk_proof(&self, account: AccountId, proof_id: u64) -> (r: Option<ZkProofData>)
        ensures
            match r {
                Some(p) => self.proof_of(account, proof_id) == Some(p@),
                None => self.proof_of(account, proof_id) is None,
            },
    {
        match self.zk_proofs.get(AccountKey { account, index: proof_id }) {
            Some(p) => Some(p.copy()),
            None => None,
        }
    }

    /// Every proof of `account`, with its number, in order.
    pub fn get_account_proofs(&self, account: AccountId) -> (r: Vec<(u64, ZkProofData)>)
        ensures
            r@.len() == proof_ids(*self, account, self.counter_of(account) as nat).len(),
            forall|k: int|
                0 <= k < r@.len() ==> {
                    let id = proof_ids(*self, account, self.counter_of(account) as nat)[k];
                    &&& (#[trigger] r@[k]).0 == id
                    &&& self.proof_of(account, id) == Some(r@[k].1@)
                },
    {
        let count = match self.proof_counter.get(account) {
            Some(c) => *c,
            None => 0,
        };
        let mut proofs: Vec<(u64, ZkProofData)> = Vec::new();
        let mut id: u64 = 0;
        while id < count
            invariant
                id <= count,
                count == self.counter_of(account),
                proofs@.len() == proof_ids(*self, account, id as nat).len(),
                forall|k: int|
                    0 <= k < proofs@.len() ==> {
                        let pid = proof_ids(*self, account, id as nat)[k];
                        &&& (#[trigger] proofs@[k]).0 == pid
                        &&& self.proof_of(account, pid) == Some(proofs@[k].1@)
                    },
            decreases count - id,
        {
            id = id + 1;
            match self.zk_proofs.get(AccountKey { account, index: id }) {
                Some(p) => {
                    assert(self.proof_of(account, id) == Some(p@));
                    proofs.push((id, p.copy()));
                },
                None => {
                    assert(self.proof_of(account, id) is None);
                },
            }
        }
        proofs
    }

    /// The last `limit` audit entries of `account`, oldest first.
    pub fn get_audit_logs(&self, account: AccountId, limit: u64) -> (r: Vec<AuditLog>)
        ensures
            r@ == audit_entries(
                *self,
                account,
                (if self.audit_count_of(account) >= limit {
                    self.audit_count_of(account) - limit
                } else {
                    0
                }) as nat,
                self.audit_count_of(account) as nat,
            ),
    {
        let count = match self.audit_log_count.get(account) {
            Some(c) => *c,
            None => 0,
        };
        let start = count.saturating_sub(limit);
        let mut logs: Vec<AuditLog> = Vec::new();
        let mut i: u64 = start;
        while i < count
            invariant
                start <= i <= count,
                count == self.audit_count_of(account),
                start == (if count >= limit {
                    count - limit
                } else {
                    0
                }),
                logs@ == audit_entries(*self, account, start as nat, i as nat),
            decreases count - i,
        {
            match self.audit_logs.get(AccountKey { account, index: i }) {
                Some(log) => {
                    assert(self.audit_of(account, i) == Some(*log));
                    logs.push(*log);
                },
                None => {
                    assert(self.audit_of(account, i) is None);
                },
            }
            i = i + 1;
        }
        logs
    }

    /// A certificate that `account` holds a valid proof of the type
    /// `certificate_type` attests at `now`: the four low bytes of `now`,
    /// little-endian, then zeros. Fails with `VerificationFailed` when the
    /// account holds no such proof.
    pub fn create_compliance_certificate(
        &self,
        account: AccountId,
        certificate_type: u8,
        expiration_days: u32,
        now: u64,
    ) -> (r: Result<[u8; 32], Error>)
        ensures
            !latest_valid(*self, account, certificate_proof_type(certificate_type), now, self.counter_of(account) as nat)
                ==> r == Err::<[u8; 32], Error>(Error::VerificationFailed),
            latest_valid(*self, account, certificate_proof_type(certificate_type), now, self.counter_of(account) as nat)
                ==> (r matches Ok(c) && c@ == le_bytes(now as nat, 4) + Seq::new(28, |i: int| 0u8)),
    {
        let proof_type = if certificate_type == 0 {
            ZkProofType::IdentityVerification
        } else if certificate_type == 1 {
            ZkProofType::ComplianceCheck
        } else if certificate_type == 2 {
            ZkProofType::AccreditedInvestor
        } else {
            ZkProofType::ComplianceCheck
        };
        if !self.is_zk_proof_valid(account, proof_type, now) {
            return Err(Error::VerificationFailed);
        }
        let mut cert = [0u8; 32];
        cert[0] = (now % 256) as u8;
        cert[1] = ((now / 256) % 256) as u8;
        cert[2] = ((now / 65536) % 256) as u8;
        cert[3] = ((now / 16777216) % 256) as u8;
        proof {
            reveal_with_fuel(le_bytes, 5);
            assert(now as nat / 256 / 256 == now as nat / 65536) by (nonlinear_arith);
            assert(now as nat / 256 / 256 / 256 == now as nat / 16777216) by (nonlinear_arith);
            assert(cert@ =~= le_bytes(now as nat, 4) + Seq::new(28, |i: int| 0u8));
        }
        Ok(cert)
    }

    /// `caller` records an audit entry about `account` holding only a hash
    /// of the metadata; only the account itself or an approved verifier may.
    pub fn create_privacy_preserving_audit(
        &mut self,
        caller: AccountId,
        account: AccountId,
        action_type: u8,
        proof_type: ZkProofType,
        metadata_hash: [u8; 32],
        now: u64,
    ) -> (r: Result<(), Error>)
        requires
            old(self).audit_count_of(account) < u64::MAX,
        ensures
            caller != account && !old(self).is_approved(caller) ==> r == Err::<(), Error>(
                Error::NotAuthorized,
            ) && *final(self) == *old(self),
            caller == account || old(self).is_approved(caller) ==> {
                &&& r is Ok
                &&& forall|a: AccountId| #[trigger]
                    final(self).audit_count_of(a) == if a == account {
                        (old(self).audit_count_of(account) + 1) as u64
                    } else {
                        old(self).audit_count_of(a)
                    }
                &&& forall|a: AccountId, i: u64| #[trigger]
                    final(self).audit_of(a, i) == if a == account && i == old(self).audit_count_of(account) {
                        Some(
                            AuditLog {
                                account,
                                proof_type,
                                status: ZkProofStatus::NotSubmitted,
                                timestamp: now,
                                action: action_type,
                            },
                        )
                    } else {
                        old(self).audit_of(a, i)
                    }
                &&& final(self).zk_proofs == old(self).zk_proofs
                &&& final(self).verification_stats == old(self).verification_stats
            },
    {
        let approved = match self.approved_verifiers.get(caller) {
            Some(b) => *b,
            None => false,
        };
        if !crate::validation::same_account(&caller, &account) && !approved {
            return Err(Error::NotAuthorized);
        }
        self.log_audit_event(account, proof_type, ZkProofStatus::NotSubmitted, action_type, now);
        Ok(())
    }

    /// The aggregated counts as bytes: total, successful and failed
    /// verifications, each eight bytes little-endian.
    pub fn get_anonymized_compliance_stats(&self) -> (r: Result<Vec<u8>, Error>)
        ensures
            (r matches Ok(b) && b@ == le_bytes(self.verification_stats.total_verifications as nat, 8)
                + le_bytes(self.verification_stats.successful_verifications as nat, 8) + le_bytes(
                self.verification_stats.failed_verifications as nat,
                8,
            )),
    {
        let mut result: Vec<u8> = Vec::new();
        Self::push_le(&mut result, self.verification_stats.total_verifications as u128, 8);
        Self::push_le(&mut result, self.verification_stats.successful_verifications as u128, 8);
        Self::push_le(&mut result, self.verification_stats.failed_verifications as u128, 8);
        Ok(result)
    }

    /// An aggregate report: the three counts (eight bytes each,
    /// little-endian), the report type, and the last update time.
    pub fn generate_privacy_preserving_report(&self, report_type: u8) -> (r: Result<Vec<u8>, Error>)
        ensures
            (r matches Ok(b) && b@ == le_bytes(self.verification_stats.total_verifications as nat, 8)
                + le_bytes(self.verification_stats.successful_verifications as nat, 8) + le_bytes(
                self.verification_stats.failed_verifications as nat,
                8,
            ) + seq![report_type] + le_bytes(self.verification_stats.last_updated as nat, 8)),
    {
        let mut report: Vec<u8> = Vec::new();
        Self::push_le(&mut report, self.verification_stats.total_verifications as u128, 8);
        Self::push_le(&mut report, self.verification_stats.successful_verifications as u128, 8);
        Self::push_le(&mut report, self.verification_stats.failed_verifications as u128, 8);
        report.push(report_type);
        Self::push_le(&mut report, self.verification_stats.last_updated as u128, 8);
        Ok(report)
    }

    /// `account`'s privacy overview at `now`: its proofs counted by state,
    /// its privacy level (3 when unset), its compliance times (0 when
    /// unset) and the number of its last ten audit entries.
    pub fn get_privacy_dashboard(&self, account: AccountId, now: u64) -> (d: PrivacyDashboard)
        ensures
            ({
                let ids = proof_ids(*self, account, self.counter_of(account) as nat);
                &&& d.account == account
                &&& d.active_proofs == count_proofs(*self, account, ids, |p: ZkProofView| proof_active(p, now)) as u32
                &&& d.pending_proofs == count_proofs(*self, account, ids, |p: ZkProofView| p.status == ZkProofStatus::Pending) as u32
                &&& d.expired_proofs == count_proofs(*self, account, ids, |p: ZkProofView| p.expires_at <= now) as u32
                &&& d.total_proofs == ids.len() as u32
                &&& d.privacy_level == match self.preferences_of(account) {
                    Some(p) => p.privacy_level,
                    None => 3u8,
                }
                &&& d.last_compliance_check == match self.compliance_of(account) {
                    Some(c) => c.last_verification,
                    None => 0u64,
                }
                &&& d.next_verification_due == match self.compliance_of(account) {
                    Some(c) => c.next_required_verification,
                    None => 0u64,
                }
                &&& d.audit_log_count == audit_entries(
                    *self,
                    account,
                    (if self.audit_count_of(account) >= 10 {
                        self.audit_count_of(account) - 10
                    } else {
                        0
                    }) as nat,
                    self.audit_count_of(account) as nat,
                ).len() as u32
            }),
    {
        let proofs = self.get_account_proofs(account);
        let ghost ids = proof_ids(*self, account, self.counter_of(account) as nat);
        let mut active: usize = 0;
        let mut pending: usize = 0;
        let mut expired: usize = 0;
        let mut k: usize = 0;
        while k < proofs.len()
            invariant
                k <= proofs@.len(),
                proofs@.len() == ids.len(),
                forall|j: int|
                    0 <= j < proofs@.len() ==> (#[trigger] proofs@[j]).0 == ids[j] && self.proof_of(account, ids[j])
                        == Some(proofs@[j].1@),
                active == count_proofs(*self, account, ids.take(k as int), |p: ZkProofView| proof_active(p, now)),
                pending == count_proofs(*self, account, ids.take(k as int), |p: ZkProofView| p.status == ZkProofStatus::Pending),
                expired == count_proofs(*self, account, ids.take(k as int), |p: ZkProofView| p.expires_at <= now),
                active <= k,
                pending <= k,
                expired <= k,
            decreases proofs@.len() - k,
        {
            let (_, p) = &proofs[k];
            proof {
                let t = ids.take(k + 1);
                assert(t.drop_last() =~= ids.take(k as int));
                assert(t.last() == ids[k as int]);
                assert(self.proof_of(account, ids[k as int]) == Some(proofs@[k as int].1@));
            }
            if p.status == ZkProofStatus::Verified && p.expires_at > now {
                active = active + 1;
            }
            if p.expires_at <= now {
                expired = expired + 1;
            }
            if p.status == ZkProofStatus::Pending {
                pending = pending + 1;
            }
            k = k + 1;
        }
        assert(ids.take(proofs@.len() as int) =~= ids);
        let privacy_level = match self.privacy_preferences.get(account) {
            Some(p) => p.privacy_level,
            None => 3,
        };
        let (last, next) = match self.zk_compliance_data.get(account) {
            Some(c) => (c.last_verification, c.next_required_verification),
            None => (0, 0),
        };
        let logs = self.get_audit_logs(account, 10);
        PrivacyDashboard {
            account,
            active_proofs: #[verifier::truncate] (active as u32),
            pending_proofs: #[verifier::truncate] (pending as u32),
            expired_proofs: #[verifier::truncate] (expired as u32),
            total_proofs: #[verifier::truncate] (proofs.len() as u32),
            privacy_level,
            last_compliance_check: last,
            next_verification_due: next,
            audit_log_count: #[verifier::truncate] (logs.len() as u32),
        }
    }

    /// `account`'s compliance overview at `now`: which kinds of valid proof
    /// it holds, and its compliance status and times (`NotSubmitted` and 0
    /// when it has no record).
    pub fn get_compliance_status_summary(&self, account: AccountId, now: u64) -> (c: ComplianceStatusSummary)
        ensures
            ({
                let ids = proof_ids(*self, account, self.counter_of(account) as nat);
                &&& c.account == account
                &&& c.identity_verified == some_active(*self, account, ids, now, |t: ZkProofType| t == ZkProofType::IdentityVerification)
                &&& c.financial_verified == some_active(
                    *self,
                    account,
                    ids,
                    now,
                    |t: ZkProofType| t == ZkProofType::FinancialStanding || t == ZkProofType::IncomeVerification,
                )
                &&& c.accredited_investor == some_active(*self, account, ids, now, |t: ZkProofType| t == ZkProofType::AccreditedInvestor)
                &&& c.overall_status == match self.compliance_of(account) {
                    Some(d) => d.verification_status,
                    None => ZkProofStatus::NotSubmitted,
                }
                &&& c.last_verification == match self.compliance_of(account) {
                    Some(d) => d.last_verification,
                    None => 0u64,
                }
                &&& c.next_verification_due == match self.compliance_of(account) {
                    Some(d) => d.next_required_verification,
                    None => 0u64,
                }
            }),
    {
        let proofs = self.get_account_proofs(account);
        let ghost ids = proof_ids(*self, account, self.counter_of(account) as nat);
        let ghost id_types = |t: ZkProofType| t == ZkProofType::IdentityVerification;
        let ghost fin_types = |t: ZkProofType| t == ZkProofType::FinancialStanding || t == ZkProofType::IncomeVerification;
        let ghost acc_types = |t: ZkProofType| t == ZkProofType::AccreditedInvestor;
        let mut identity_verified = false;
        let mut financial_verified = false;
        let mut accredited_investor = false;
        let mut k: usize = 0;
        while k < proofs.len()
            invariant
                k <= proofs@.len(),
                proofs@.len() == ids.len(),
                forall|j: int|
                    0 <= j < proofs@.len() ==> (#[trigger] proofs@[j]).0 == ids[j] && self.proof_of(account, ids[j])
                        == Some(proofs@[j].1@),
                id_types == (|t: ZkProofType| t == ZkProofType::IdentityVerification),
                fin_types == (|t: ZkProofType| t == ZkProofType::FinancialStanding || t == ZkProofType::IncomeVerification),
                acc_types == (|t: ZkProofType| t == ZkProofType::AccreditedInvestor),
                identity_verified == some_active(*self, account, ids.take(k as int), now, id_types),
                financial_verified == some_active(*self, account, ids.take(k as int), now, fin_types),
                accredited_investor == some_active(*self, account, ids.take(k as int), now, acc_types),
            decreases proofs@.len() - k,
        {
            let (_, p) = &proofs[k];
            let ghost t = ids.take(k + 1);
            proof {
                assert(self.proof_of(account, ids[k as int]) == Some(proofs@[k as int].1@));
                assert(t.drop_last() =~= ids.take(k as int));
                assert(t.last() == ids[k as int]);
                lemma_some_active_push(*self, account, t, now, id_types);
                lemma_some_active_push(*self, account, t, now, fin_types);
                lemma_some_active_push(*self, account, t, now, acc_types);
            }
            if p.status == ZkProofStatus::Verified && p.expires_at > now {
                if p.proof_type == ZkProofType::IdentityVerification {
                    identity_verified = true;
                } else if p.proof_type == ZkProofType::FinancialStanding || p.proof_type == ZkProofType::IncomeVerification {
                    financial_verified = true;
                } else if p.proof_type == ZkProofType::AccreditedInvestor {
                    accredited_investor = true;
                }
            }
            proof {
                assert(identity_verified == some_active(*self, account, t, now, id_types));
                assert(financial_verified == some_active(*self, account, t, now, fin_types));
                assert(accredited_investor == some_active(*self, account, t, now, acc_types));
            }
            k = k + 1;
        }
        assert(ids.take(proofs@.len() as int) =~= ids);
        let (overall_status, last_verification, next_verification_due) = match self.zk_compliance_data.get(account) {
            Some(d) => (d.verification_status, d.last_verification, d.next_required_verification),
            None => (ZkProofStatus::NotSubmitted, 0, 0),
        };
        ComplianceStatusSummary {
            account,
            identity_verified,
            financial_verified,
            accredited_investor,
            overall_status,
            last_verification,
            next_verification_due,
        }
    }

    /// Submit several proofs of `caller` at once: refused with
    /// `InvalidProof` when the batch is empty or holds more than
    /// `MAX_PROOF_BATCH`, otherwise each is submitted in turn and the number
    /// submitted is returned.
    pub fn batch_submit_zk_proofs(
        &mut self,
        caller: AccountId,
        proofs: Vec<(ZkProofType, Vec<[u8; 32]>, Vec<u8>, Vec<u8>)>,
        now: u64,
    ) -> (r: Result<u32, Error>)
        requires
            old(self).counter_of(caller) + proofs@.len() <= u64::MAX,
            old(self).audit_count_of(caller) + proofs@.len() <= u64::MAX,
            now + PROOF_VALIDITY_MS <= u64::MAX,
        ensures
            proofs@.len() == 0 || proofs@.len() > MAX_PROOF_BATCH ==> r == Err::<u32, Error>(Error::InvalidProof)
                && *final(self) == *old(self),
            0 < proofs@.len() <= MAX_PROOF_BATCH ==> {
                let c0 = old(self).counter_of(caller);
                let a0 = old(self).audit_count_of(caller);
                &&& r == Ok::<u32, Error>(proofs@.len() as u32)
                &&& final(self).counter_of(caller) == c0 + proofs@.len()
                &&& forall|a: AccountId| a != caller ==> #[trigger] final(self).proof_counter.value_of(a)
                    == old(self).proof_counter.value_of(a)
                &&& forall|a: AccountId, i: u64| #[trigger]
                    final(self).proof_of(a, i) == if a == caller && c0 < i <= c0 + proofs@.len() {
                        Some(
                            ZkProofView {
                                proof_type: proofs@[i - c0 - 1].0,
                                status: ZkProofStatus::Pending,
                                public_inputs: proofs@[i - c0 - 1].1@,
                                proof_data: proofs@[i - c0 - 1].2@,
                                created_at: now,
                                expires_at: (now + PROOF_VALIDITY_MS) as u64,
                                verifier: zero_account(),
                                metadata: proofs@[i - c0 - 1].3@,
                            },
                        )
                    } else {
                        old(self).proof_of(a, i)
                    }
                &&& forall|a: AccountId| #[trigger]
                    final(self).audit_count_of(a) == if a == caller {
                        (a0 + proofs@.len()) as u64
                    } else {
                        old(self).audit_count_of(a)
                    }
                &&& forall|a: AccountId, i: u64| #[trigger]
                    final(self).audit_of(a, i) == if a == caller && a0 <= i < a0 + proofs@.len() {
                        Some(
                            AuditLog {
                                account: caller,
                                proof_type: proofs@[i - a0].0,
                                status: ZkProofStatus::Pending,
                                timestamp: now,
                                action: 0,
                            },
                        )
                    } else {
                        old(self).audit_of(a, i)
                    }
                &&& final(self).owner == old(self).owner
                &&& final(self).privacy_preferences == old(self).privacy_preferences
                &&& final(self).zk_compliance_data == old(self).zk_compliance_data
                &&& final(self).approved_verifiers == old(self).approved_verifiers
                &&& final(self).verification_stats == old(self).verification_stats
                &&& final(self).verification_keys == old(self).verification_keys
            },
    {
        if proofs.len() == 0 || proofs.len() > MAX_PROOF_BATCH {
            return Err(Error::InvalidProof);
        }
        let ghost c0 = old(self).counter_of(caller);
        let ghost a0 = old(self).audit_count_of(caller);
        let mut k: usize = 0;
        while k < proofs.len()
            invariant
                k <= proofs@.len() <= MAX_PROOF_BATCH,
                c0 == old(self).counter_of(caller),
                a0 == old(self).audit_count_of(caller),
                c0 + proofs@.len() <= u64::MAX,
                a0 + proofs@.len() <= u64::MAX,
                now + PROOF_VALIDITY_MS <= u64::MAX,
                self.counter_of(caller) == c0 + k,
                forall|a: AccountId| a != caller ==> #[trigger] self.proof_counter.value_of(a)
                    == old(self).proof_counter.value_of(a),
                forall|a: AccountId, i: u64| #[trigger]
                    self.proof_of(a, i) == if a == caller && c0 < i <= c0 + k {
                        Some(
                            ZkProofView {
                                proof_type: proofs@[i - c0 - 1].0,
                                status: ZkProofStatus::Pending,
                                public_inputs: proofs@[i - c0 - 1].1@,
                                proof_data: proofs@[i - c0 - 1].2@,
                                created_at: now,
                                expires_at: (now + PROOF_VALIDITY_MS) as u64,
                                verifier: zero_account(),
                                metadata: proofs@[i - c0 - 1].3@,
                            },
                        )
                    } else {
                        old(self).proof_of(a, i)
                    },
                forall|a: AccountId| #[trigger]
                    self.audit_count_of(a) == if a == caller {
                        (a0 + k) as u64
                    } else {
                        old(self).audit_count_of(a)
                    },
                forall|a: AccountId, i: u64| #[trigger]
                    self.audit_of(a, i) == if a == caller && a0 <= i < a0 + k {
                        Some(
                            AuditLog {
                                account: caller,
                                proof_type: proofs@[i - a0].0,
                                status: ZkProofStatus::Pending,
                                timestamp: now,
                                action: 0,
                            },
                        )
                    } else {
                        old(self).audit_of(a, i)
                    },
                self.owner == old(self).owner,
                self.privacy_preferences == old(self).privacy_preferences,
                self.zk_compliance_data == old(self).zk_compliance_data,
                self.approved_verifiers == old(self).approved_verifiers,
                self.verification_stats == old(self).verification_stats,
                self.verification_keys == old(self).verification_keys,
            decreases proofs@.len() - k,
        {
            let (proof_type, inputs, data, meta) = &proofs[k];
            let ghost before: ZkCompliance = *self;
            let _ = self.submit_zk_proof(caller, *proof_type, copy_vec(inputs), copy_vec(data), copy_vec(meta), now);
            proof {
                assert forall|a: AccountId, i: u64| #[trigger]
                    self.proof_of(a, i) == if a == caller && c0 < i <= c0 + k + 1 {
                        Some(
                            ZkProofView {
                                proof_type: proofs@[i - c0 - 1].0,
                                status: ZkProofStatus::Pending,
                                public_inputs: proofs@[i - c0 - 1].1@,
                                proof_data: proofs@[i - c0 - 1].2@,
                                created_at: now,
                                expires_at: (now + PROOF_VALIDITY_MS) as u64,
                                verifier: zero_account(),
                                metadata: proofs@[i - c0 - 1].3@,
                            },
                        )
                    } else {
                        old(self).proof_of(a, i)
                    } by {
                    assert(before.proof_of(a, i) == (if a == caller && c0 < i <= c0 + k {
                        Some(
                            ZkProofView {
                                proof_type: proofs@[i - c0 - 1].0,
                                status: ZkProofStatus::Pending,
                                public_inputs: proofs@[i - c0 - 1].1@,
                                proof_data: proofs@[i - c0 - 1].2@,
                                created_at: now,
                                expires_at: (now + PROOF_VALIDITY_MS) as u64,
                                verifier: zero_account(),
                                metadata: proofs@[i - c0 - 1].3@,
                            },
                        )
                    } else {
                        old(self).proof_of(a, i)
                    }));
                }
                assert forall|a: AccountId, i: u64| #[trigger]
                    self.audit_of(a, i) == if a == caller && a0 <= i < a0 + k + 1 {
                        Some(
                            AuditLog {
                                account: caller,
                                proof_type: proofs@[i - a0].0,
                                status: ZkProofStatus::Pending,
                                timestamp: now,
                                action: 0,
                            },
                        )
                    } else {
                        old(self).audit_of(a, i)
                    } by {
                    assert(before.audit_of(a, i) == (if a == caller && a0 <= i < a0 + k {
                        Some(
                            AuditLog {
                                account: caller,
                                proof_type: proofs@[i - a0].0,
                                status: ZkProofStatus::Pending,
                                timestamp: now,
                                action: 0,
                            },
                        )
                    } else {
                        old(self).audit_of(a, i)
                    }));
                }
                assert forall|a: AccountId| a != caller implies #[trigger] self.proof_counter.value_of(a)
                    == old(self).proof_counter.value_of(a) by {
                    assert(before.proof_counter.value_of(a) == old(self).proof_counter.value_of(a));
                }
                assert forall|a: AccountId| #[trigger]
                    self.audit_count_of(a) == if a == caller {
                        (a0 + k + 1) as u64
                    } else {
                        old(self).audit_count_of(a)
                    } by {
                    assert(before.audit_count_of(a) == if a == caller {
                        (a0 + k) as u64
                    } else {
                        old(self).audit_count_of(a)
                    });
                }
            }
            k = k + 1;
        }
        Ok(proofs.len() as u32)
    }

    /// Review several proofs at once: refused with `InvalidProof` when the
    /// batch is empty or holds more than `MAX_PROOF_BATCH`; otherwise every
    /// `(account, proof_id, approve)` is reviewed in turn, a refused review
    /// not stopping the others, and each proof id is returned with whether
    /// its review was accepted.
    pub fn batch_verify_zk_proofs(
        &mut self,
        caller: AccountId,
        verifications: Vec<(AccountId, u64, bool)>,
        now: u64,
    ) -> (r: Result<Vec<(u64, bool)>, Error>)
        requires
            now + PROOF_VALIDITY_MS <= u64::MAX,
            old(self).verification_stats.total_verifications + verifications@.len() < u64::MAX,
            old(self).verification_stats.successful_verifications + verifications@.len() < u64::MAX,
            old(self).verification_stats.failed_verifications + verifications@.len() < u64::MAX,
            forall|a: AccountId| #[trigger] old(self).audit_count_of(a) + verifications@.len() < u64::MAX,
        ensures
            verifications@.len() == 0 || verifications@.len() > MAX_PROOF_BATCH ==> r == Err::<
                Vec<(u64, bool)>,
                Error,
            >(Error::InvalidProof) && *final(self) == *old(self),
            0 < verifications@.len() <= MAX_PROOF_BATCH ==> (r matches Ok(results) && results@.len()
                == verifications@.len() && (forall|k: int|
                0 <= k < results@.len() ==> (#[trigger] results@[k]).0 == verifications@[k].1) && exists|
                states: Seq<ZkCompliance>,
            |
                states.len() == verifications@.len() + 1 && states[0] == *old(self) && states.last()
                    == *final(self) && forall|k: int|
                    0 <= k < verifications@.len() ==> #[trigger] review_step(
                        states[k],
                        states[k + 1],
                        caller,
                        verifications@[k],
                        now,
                        results@[k].1,
                    )),
    {
        if verifications.len() == 0 || verifications.len() > MAX_PROOF_BATCH {
            return Err(Error::InvalidProof);
        }
        let mut results: Vec<(u64, bool)> = Vec::new();
        let ghost mut states: Seq<ZkCompliance> = seq![*self];
        let mut k: usize = 0;
        while k < verifications.len()
            invariant
                k <= verifications@.len(),
                now + PROOF_VALIDITY_MS <= u64::MAX,
                results@.len() == k,
                states.len() == k + 1,
                states[0] == *old(self),
                states.last() == *self,
                forall|j: int| 0 <= j < k ==> (#[trigger] results@[j]).0 == verifications@[j].1,
                forall|j: int|
                    0 <= j < k ==> #[trigger] review_step(
                        states[j],
                        states[j + 1],
                        caller,
                        verifications@[j],
                        now,
                        results@[j].1,
                    ),
                self.verification_stats.total_verifications <= old(self).verification_stats.total_verifications + k,
                self.verification_stats.successful_verifications <= old(self).verification_stats.successful_verifications + k,
                self.verification_stats.failed_verifications <= old(self).verification_stats.failed_verifications + k,
                old(self).verification_stats.total_verifications + verifications@.len() < u64::MAX,
                old(self).verification_stats.successful_verifications + verifications@.len() < u64::MAX,
                old(self).verification_stats.failed_verifications + verifications@.len() < u64::MAX,
                forall|a: AccountId| #[trigger] self.audit_count_of(a) <= old(self).audit_count_of(a) + k,
                forall|a: AccountId| #[trigger] old(self).audit_count_of(a) + verifications@.len() < u64::MAX,
            decreases verifications@.len() - k,
        {
            let (account, proof_id, approve) = verifications[k];
            let ghost before: ZkCompliance = *self;
            assert(self.audit_count_of(account) <= old(self).audit_count_of(account) + k);
            let outcome = self.verify_zk_proof(caller, account, proof_id, approve, now);
            let ok = outcome.is_ok();
            results.push((proof_id, ok));
            proof {
                assert(verifications@[k as int] == (account, proof_id, approve));
                assert(review_step(before, *self, caller, verifications@[k as int], now, ok));
                states = states.push(*self);
                assert forall|j: int|
                    0 <= j < k + 1 implies #[trigger] review_step(
                        states[j],
                        states[j + 1],
                        caller,
                        verifications@[j],
                        now,
                        results@[j].1,
                    ) by {
                    if j < k {
                        assert(states[j] == states.drop_last()[j]);
                        assert(states[j + 1] == states.drop_last()[j + 1]);
                    }
                }
                assert forall|a: AccountId| #[trigger] self.audit_count_of(a) <= old(self).audit_count_of(a) + k + 1 by {
                    assert(before.audit_count_of(a) <= old(self).audit_count_of(a) + k);
                }
            }
            k = k + 1;
        }
        Ok(results)
    }

    /// The commitment over the owner and the number of verifications: the
    /// BLAKE2b Merkle root of the owner's 32 bytes and the count's eight
    /// little-endian bytes.
    pub fn get_state_root(&self) -> (r: [u8; 32])
        ensures
            r@ == merkle_root(
                seq![self.owner@, le_bytes(self.verification_stats.total_verifications as nat, 8)],
                root_hash_fn(RootHash::Blake2b),
            ),
    {
        let mut owner_bytes: Vec<u8> = Vec::new();
        Self::push_bytes32(&mut owner_bytes, &self.owner);
        let mut count_bytes: Vec<u8> = Vec::new();
        Self::push_le(&mut count_bytes, self.verification_stats.total_verifications as u128, 8);
        let mut entries: Vec<Vec<u8>> = Vec::new();
        entries.push(owner_bytes);
        entries.push(count_bytes);
        let r = compute_root_with(RootHash::Blake2b, entries.as_slice());
        proof {
            assert(crate::state_root::views(entries@) =~= seq![
                self.owner@,
                le_bytes(self.verification_stats.total_verifications as nat, 8),
            ]);
        }
        r
    }
}

/// A proof is never approved without a successful check: once a review is
/// recorded, the reviewed proof is `Verified` exactly when the verifier
/// approved it, its inputs and payload are well formed, and the Groth16
/// check against the active key registered for its type accepted it.
pub proof fn law_review_verifies_only_checked_proofs(
    s0: ZkCompliance,
    s1: ZkCompliance,
    caller: AccountId,
    account: AccountId,
    id: u64,
    approve: bool,
    now: u64,
)
    requires
        s0.proof_of(account, id) is Some,
        review_recorded(s0, s1, caller, account, id, approve, review_verifies(s0, account, id, approve), now),
    ensures
        s1.proof_of(account, id) is Some,
        (s1.proof_of(account, id).unwrap().status == ZkProofStatus::Verified) <==> ({
            let p = s0.proof_of(account, id).unwrap();
            &&& approve
            &&& public_inputs_well_formed(p.public_inputs)
            &&& payload_accepted(p.proof_data.len())
            &&& s0.key_record_of(p.proof_type) matches Some(k)
            &&& k.is_active
            &&& groth16_outcome(k.serialized_vk, p.public_inputs, p.proof_data) == Groth16Outcome::Checked(true)
        }),
{
    assert(s1.proof_of(account, id) == Some(ZkProofView {
        status: if review_verifies(s0, account, id, approve) { ZkProofStatus::Verified } else { ZkProofStatus::Rejected },
        verifier: caller,
        ..s0.proof_of(account, id).unwrap()
    }));
}

/// A proof is reviewed at most once: after a review was recorded, any
/// further review of that proof, by anyone and either way, is refused.
pub proof fn law_proof_is_reviewed_once(
    s0: ZkCompliance,
    s1: ZkCompliance,
    caller: AccountId,
    account: AccountId,
    id: u64,
    approve: bool,
    verified: bool,
    now: u64,
    next_caller: AccountId,
    next_approve: bool,
)
    requires
        s0.proof_of(account, id) is Some,
        review_recorded(s0, s1, caller, account, id, approve, verified, now),
    ensures
        review_error(s1, next_caller, account, id, next_approve) is Some,
{
    assert(s1.proof_of(account, id).unwrap().status != ZkProofStatus::Pending);
}

/// Between the latest proof of a type and `i`, no proof of that type: the
/// verdict at `i` is the verdict at the latest one.
proof fn lemma_latest_valid_skips_other_types(
    s: ZkCompliance,
    account: AccountId,
    t: ZkProofType,
    now: u64,
    k: nat,
    i: nat,
)
    requires
        k <= i <= u64::MAX,
        forall|j: u64|
            k < j <= i ==> !(#[trigger] s.proof_of(account, j) matches Some(q) && q.proof_type == t),
    ensures
        latest_valid(s, account, t, now, i) == latest_valid(s, account, t, now, k),
    decreases i - k,
{
    if k < i {
        assert(!(s.proof_of(account, i as u64) matches Some(q) && q.proof_type == t));
        lemma_latest_valid_skips_other_types(s, account, t, now, k, (i - 1) as nat);
    }
}

/// Whether an account holds a valid proof of a type is decided by its
/// latest proof of that type alone: the result is that proof being
/// verified and unexpired, whatever earlier proofs of the type say; with no
/// proof of the type there is none.
pub proof fn law_latest_proof_decides_validity(
    s: ZkCompliance,
    account: AccountId,
    t: ZkProofType,
    now: u64,
    k: u64,
)
    requires
        1 <= k <= s.counter_of(account),
        s.proof_of(account, k) matches Some(p) && p.proof_type == t,
        forall|j: u64|
            k < j <= s.counter_of(account) ==> !(#[trigger] s.proof_of(account, j) matches Some(q)
                && q.proof_type == t),
    ensures
        latest_valid(s, account, t, now, s.counter_of(account) as nat) == (s.proof_of(
            account,
            k,
        ).unwrap().status == ZkProofStatus::Verified && s.proof_of(account, k).unwrap().expires_at
            > now),
{
    lemma_latest_valid_skips_other_types(s, account, t, now, k as nat, s.counter_of(account) as nat);
}

/// An account with no proof of a type holds no valid proof of it.
pub proof fn law_no_proof_of_type_is_never_valid(s: ZkCompliance, account: AccountId, t: ZkProofType, now: u64)
    requires
        forall|j: u64|
            1 <= j <= s.counter_of(account) ==> !(#[trigger] s.proof_of(account, j) matches Some(q)
                && q.proof_type == t),
    ensures
        !latest_valid(s, account, t, now, s.counter_of(account) as nat),
{
    lemma_latest_valid_skips_other_types(s, account, t, now, 0, s.counter_of(account) as nat);
}

} // verus!
