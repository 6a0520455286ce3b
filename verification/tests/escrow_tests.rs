use meridian_contracts::access_control::AccessControlRole;
use meridian_contracts::circuit_breaker::PAUSE_TIMELOCK_SECONDS;
use meridian_contracts::errors::EscrowError;
use meridian_contracts::escrow::{
    require_future_timestamp, require_non_zero_address, require_non_zero_u64, require_positive_amount,
    require_valid_multisig, AdvancedEscrow, ApprovalType, EscrowStatus,
};
use meridian_contracts::risk_pool::StorageVersion;
use meridian_contracts::validation::ValidationError;

const CONTRACT: [u8; 32] = [9u8; 32];
const ADMIN: [u8; 32] = [1u8; 32];
const BUYER: [u8; 32] = [2u8; 32];
const SELLER: [u8; 32] = [3u8; 32];
const P1: [u8; 32] = [4u8; 32];
const P2: [u8; 32] = [5u8; 32];
const GOV: [u8; 32] = [6u8; 32];

fn setup() -> AdvancedEscrow {
    let mut e = AdvancedEscrow::new(CONTRACT);
    e.init(ADMIN).unwrap();
    e
}

fn open(e: &mut AdvancedEscrow, nonce: u64) -> u64 {
    e.create_escrow_advanced(7, 1_000, BUYER, SELLER, vec![P1, P2], 2, None, nonce, 100).unwrap()
}

#[test]
fn test_escrow_init_grants_admin_role() {
    let e = setup();
    assert!(e.roles.has_role(&ADMIN, AccessControlRole::Admin));
    assert_eq!(e.get_supported_abis(), (1_000, 1_000));
    assert_eq!(e.get_fee_bps(), 0);
    assert_eq!(e.get_escrow_count(), 0);
}

#[test]
fn test_escrow_set_role_works() {
    let mut e = setup();
    let new_admin = [8u8; 32];
    e.set_role(new_admin, AccessControlRole::Admin).unwrap();
    assert!(e.roles.has_role(&new_admin, AccessControlRole::Admin));
}

#[test]
fn init_rejects_null_admin_and_second_init() {
    let mut e = AdvancedEscrow::new(CONTRACT);
    assert_eq!(e.init([0u8; 32]), Err(ValidationError::ZeroAddress));
    e.init(ADMIN).unwrap();
    assert_eq!(e.init(ADMIN), Err(ValidationError::ZeroAddress));
}

#[test]
fn full_escrow_lifecycle() {
    let mut e = setup();
    let id = open(&mut e, 1);
    assert_eq!(id, 1);
    assert_eq!(e.get_nonce(BUYER), 1);
    let data = e.get_escrow(id).unwrap();
    assert_eq!(data.status, EscrowStatus::Created);
    assert_eq!(data.participants, vec![P1, P2]);
    assert_eq!(e.get_multisig_config(id).unwrap().required_signatures, 2);

    e.deposit_funds(id, 400, 101).unwrap();
    assert_eq!(e.get_escrow(id).unwrap().status, EscrowStatus::Funded);
    assert_eq!(e.deposit_funds(id, 601, 102), Err(EscrowError::DepositExceedsAmount));
    e.deposit_funds(id, 600, 102).unwrap();
    assert_eq!(e.get_escrow(id).unwrap().status, EscrowStatus::Active);
    assert_eq!(e.get_escrow(id).unwrap().deposited_amount, 1_000);

    assert_eq!(e.release_funds(id, 103), Err(EscrowError::SignatureThresholdNotMet));
    e.sign_approval(id, ApprovalType::Release, P1, 104).unwrap();
    assert_eq!(e.sign_approval(id, ApprovalType::Release, P1, 105), Err(EscrowError::AlreadySigned));
    assert_eq!(e.sign_approval(id, ApprovalType::Release, BUYER, 105), Err(EscrowError::Unauthorized));
    e.sign_approval(id, ApprovalType::Release, P2, 106).unwrap();
    assert_eq!(e.get_sig_count(id, ApprovalType::Release), 2);
    e.release_funds(id, 107).unwrap();
    let released = e.get_escrow(id).unwrap();
    assert_eq!(released.status, EscrowStatus::Released);
    assert_eq!(released.deposited_amount, 0);
    assert_eq!(e.release_funds(id, 108), Err(EscrowError::InvalidStatus));
}

#[test]
fn nonce_replay_and_creation_errors() {
    let mut e = setup();
    open(&mut e, 1);
    assert_eq!(
        e.create_escrow_advanced(7, 1_000, BUYER, SELLER, vec![P1], 1, None, 1, 100),
        Err(EscrowError::InvalidNonce)
    );
    assert_eq!(
        e.create_escrow_advanced(0, 1_000, BUYER, SELLER, vec![P1], 1, None, 2, 100),
        Err(EscrowError::InvalidNonce)
    );
    assert_eq!(
        e.create_escrow_advanced(7, 0, BUYER, SELLER, vec![P1], 1, None, 2, 100),
        Err(EscrowError::DepositExceedsAmount)
    );
    assert_eq!(
        e.create_escrow_advanced(7, 5, BUYER, SELLER, vec![P1; 11], 1, None, 2, 100),
        Err(EscrowError::TooManyParticipants)
    );
    assert_eq!(
        e.create_escrow_advanced(7, 5, BUYER, SELLER, vec![P1], 2, None, 2, 100),
        Err(EscrowError::InvalidStatus)
    );
    assert_eq!(
        e.create_escrow_advanced(7, 5, BUYER, [0u8; 32], vec![P1], 1, None, 2, 100),
        Err(EscrowError::Unauthorized)
    );
    assert_eq!(
        e.create_escrow_advanced(7, 5, BUYER, SELLER, vec![P1], 1, Some(100), 2, 100),
        Err(EscrowError::TimeLockActive)
    );
    assert_eq!(e.get_nonce(BUYER), 1);
    assert_eq!(e.create_escrow_advanced(7, 5, BUYER, SELLER, vec![P1], 1, Some(200), 2, 100), Ok(2));
}

#[test]
fn time_lock_holds_release_back() {
    let mut e = setup();
    let id = e.create_escrow_advanced(7, 10, BUYER, SELLER, vec![P1], 1, Some(500), 1, 100).unwrap();
    e.deposit_funds(id, 10, 101).unwrap();
    e.sign_approval(id, ApprovalType::Release, P1, 102).unwrap();
    assert_eq!(e.release_funds(id, 499), Err(EscrowError::TimeLockActive));
    assert_eq!(e.release_funds(id, 500), Ok(()));
    assert_eq!(e.deposit_funds(0, 1, 501), Err(EscrowError::EscrowNotFound));
    assert_eq!(e.deposit_funds(9, 1, 501), Err(EscrowError::EscrowNotFound));
}

#[test]
fn paused_escrow_refuses_operations() {
    let mut e = setup();
    e.set_role(GOV, AccessControlRole::Governance).unwrap();
    e.pause(GOV, 1_000, 0).unwrap();
    assert!(!e.is_paused(PAUSE_TIMELOCK_SECONDS - 1));
    assert!(e.is_paused(PAUSE_TIMELOCK_SECONDS));
    assert_eq!(
        e.create_escrow_advanced(7, 5, BUYER, SELLER, vec![P1], 1, None, 1, PAUSE_TIMELOCK_SECONDS),
        Err(EscrowError::Unauthorized)
    );
    e.resume(ADMIN, PAUSE_TIMELOCK_SECONDS).unwrap();
    e.emergency_pause(GOV, PAUSE_TIMELOCK_SECONDS + 1);
    assert!(e.is_paused(u64::MAX));
}

#[test]
fn migration_adds_the_fee_entry() {
    let mut e = AdvancedEscrow::new(CONTRACT);
    e.roles.set_role(&ADMIN, AccessControlRole::Admin);
    assert_eq!(e.migrate([0u8; 32], StorageVersion::V2), Err(EscrowError::Unauthorized));
    e.migrate(ADMIN, StorageVersion::V2).unwrap();
    assert_eq!(e.version(), StorageVersion::V2);
    assert_eq!(e.get_supported_abis(), (1_000, 1_001));
    assert_eq!(e.get_fee_bps(), 0);
    assert_eq!(e.migrate(ADMIN, StorageVersion::V1), Err(EscrowError::InvalidStatus));
    assert_eq!(e.migrate(ADMIN, StorageVersion::V2), Ok(()));
}

#[test]
fn escrow_validators() {
    assert_eq!(require_non_zero_u64(0), Err(ValidationError::NonPositiveAmount));
    assert_eq!(require_non_zero_u64(1), Ok(()));
    assert_eq!(require_positive_amount(-3), Err(ValidationError::NonPositiveAmount));
    assert_eq!(require_future_timestamp(5, 5), Err(ValidationError::InvalidTimestamp));
    assert_eq!(require_non_zero_address(&[0u8; 32]), Err(ValidationError::ZeroAddress));
    assert_eq!(require_valid_multisig(0, 3), Err(ValidationError::InvalidMultisigConfig));
    assert_eq!(require_valid_multisig(2, 0), Err(ValidationError::InvalidMultisigConfig));
    assert_eq!(require_valid_multisig(4, 3), Err(ValidationError::InvalidMultisigConfig));
    assert_eq!(require_valid_multisig(3, 3), Ok(()));
    assert_eq!(EscrowError::SignatureThresholdNotMet.code(), 9);
}

#[test]
fn escrow_state_root_stays_zero() {
    let e = AdvancedEscrow::new([9u8; 32]);
    assert_eq!(e.get_state_root(), [0u8; 32]);
}
