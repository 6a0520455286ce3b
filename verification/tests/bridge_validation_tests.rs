use meridian_contracts::breaker_store::{emergency_pause, init};
use meridian_contracts::access_control::{AccessControlRole, RoleTable};
use meridian_contracts::bridge_validation::{
    require_admin, require_future_timestamp, require_non_zero_address, require_non_zero_u128,
    require_non_zero_u32, require_non_zero_u64, require_not_paused, require_operator,
    require_supported_chain, require_valid_signatures, BridgeConfig,
};
use meridian_contracts::validation::ValidationError;

const ADMIN: [u8; 32] = [1u8; 32];
const OPERATOR: [u8; 32] = [2u8; 32];
const OTHER: [u8; 32] = [3u8; 32];

fn config() -> BridgeConfig {
    BridgeConfig { supported_chains: vec![1, 56, 137], min_signatures_required: 2, max_signatures_required: 5 }
}

#[test]
fn supported_chains_and_signature_bounds() {
    let c = config();
    assert_eq!(require_supported_chain(&c, 56), Ok(()));
    assert_eq!(require_supported_chain(&c, 2), Err(ValidationError::OutOfRange));
    assert_eq!(require_valid_signatures(&c, 2), Ok(()));
    assert_eq!(require_valid_signatures(&c, 5), Ok(()));
    assert_eq!(require_valid_signatures(&c, 1), Err(ValidationError::OutOfRange));
    assert_eq!(require_valid_signatures(&c, 6), Err(ValidationError::OutOfRange));
}

#[test]
fn operator_and_admin_gates() {
    assert_eq!(require_operator(&None, &OPERATOR), Err(ValidationError::NotInitialized));
    let ops = Some(vec![OPERATOR]);
    assert_eq!(require_operator(&ops, &OPERATOR), Ok(()));
    assert_eq!(require_operator(&ops, &OTHER), Err(ValidationError::Unauthorized));
    assert_eq!(require_admin(&None, &ADMIN), Err(ValidationError::NotInitialized));
    assert_eq!(require_admin(&Some(ADMIN), &ADMIN), Ok(()));
    assert_eq!(require_admin(&Some(ADMIN), &OTHER), Err(ValidationError::Unauthorized));
}

#[test]
fn zero_values_and_past_timestamps_are_rejected() {
    assert_eq!(require_non_zero_address(&[0u8; 32]), Err(ValidationError::ZeroAddress));
    assert_eq!(require_non_zero_address(&ADMIN), Ok(()));
    assert_eq!(require_non_zero_u32(0), Err(ValidationError::InvalidEnumRange));
    assert_eq!(require_non_zero_u32(1), Ok(()));
    assert_eq!(require_non_zero_u64(0), Err(ValidationError::OutOfRange));
    assert_eq!(require_non_zero_u64(u64::MAX), Ok(()));
    assert_eq!(require_non_zero_u128(0), Err(ValidationError::OutOfRange));
    assert_eq!(require_non_zero_u128(7), Ok(()));
    assert_eq!(require_future_timestamp(10, 10), Err(ValidationError::InvalidTimestamp));
    assert_eq!(require_future_timestamp(11, 10), Ok(()));
}

#[test]
fn a_paused_bridge_refuses_calls() {
    let mut stored = init();
    assert_eq!(require_not_paused(&mut stored, 1), Ok(None));
    let mut roles = RoleTable::new();
    roles.set_role(&ADMIN, AccessControlRole::Governance);
    emergency_pause(&mut stored, &roles, ADMIN, 1);
    assert_eq!(require_not_paused(&mut stored, 2), Err(ValidationError::ContractPaused));
}
