//! Input checks of the bridge contract.
//!
//! Each check returns the error with which the bridge aborts the call.
use vstd::prelude::*;
use crate::breaker_store::{StoredCircuitBreakerState, require_not_paused as breaker_guard};
use crate::circuit_breaker::{CircuitBreakerTransition, paused_at, sync_step};
use crate::validation::{
    AccountId, ValidationError, contains_account, is_zero_account, same_account, validate_address,
    validate_enum_range, validate_timestamp,
};

verus! {

/// The part of the bridge configuration the checks read.
#[derive(Clone, Debug)]
pub struct BridgeConfig {
    pub supported_chains: Vec<u32>,
    pub min_signatures_required: u32,
    pub max_signatures_required: u32,
}

/// Rejects any call while the bridge's circuit breaker holds it paused;
/// reports the transition that became due at `now`.
pub fn require_not_paused(stored: &mut StoredCircuitBreakerState, now: u64) -> (r: Result<
    Option<CircuitBreakerTransition<AccountId>>,
    ValidationError,
>)
    ensures
        final(stored).state() == sync_step(old(stored).state(), now).0,
        r == if paused_at(sync_step(old(stored).state(), now).0, now) {
            Err::<Option<CircuitBreakerTransition<AccountId>>, ValidationError>(ValidationError::ContractPaused)
        } else {
            Ok(sync_step(old(stored).state(), now).1)
        },
{
    breaker_guard(stored, now)
}

/// Rejects a destination chain the bridge does not support.
pub fn require_supported_chain(config: &BridgeConfig, destination_chain: u32) -> (r: Result<
    (),
    ValidationError,
>)
    ensures
        r == if config.supported_chains@.contains(destination_chain) {
            Ok::<(), ValidationError>(())
        } else {
            Err(ValidationError::OutOfRange)
        },
{
    let mut i: usize = 0;
    while i < config.supported_chains.len()
        invariant
            i <= config.supported_chains@.len(),
            forall|k: int| 0 <= k < i ==> config.supported_chains@[k] != destination_chain,
        decreases config.supported_chains@.len() - i,
    {
        if config.supported_chains[i] == destination_chain {
            return Ok(());
        }
        i = i + 1;
    }
    Err(ValidationError::OutOfRange)
}

/// Rejects a signature requirement outside the configured range.
pub fn require_valid_signatures(config: &BridgeConfig, required_signatures: u32) -> (r: Result<
    (),
    ValidationError,
>)
    ensures
        r == if config.min_signatures_required <= required_signatures
            <= config.max_signatures_required {
            Ok::<(), ValidationError>(())
        } else {
            Err(ValidationError::OutOfRange)
        },
{
    if required_signatures < config.min_signatures_required
        || required_signatures > config.max_signatures_required {
        return Err(ValidationError::OutOfRange);
    }
    Ok(())
}

/// Rejects a caller that is not a registered operator; `NotInitialized`
/// before the operators are stored.
pub fn require_operator(operators: &Option<Vec<AccountId>>, caller: &AccountId) -> (r: Result<
    (),
    ValidationError,
>)
    ensures
        r == match operators {
            None => Err::<(), ValidationError>(ValidationError::NotInitialized),
            Some(ops) => if ops@.contains(*caller) {
                Ok(())
            } else {
                Err(ValidationError::Unauthorized)
            },
        },
{
    match operators {
        None => Err(ValidationError::NotInitialized),
        Some(ops) => if contains_account(ops, caller) {
            Ok(())
        } else {
            Err(ValidationError::Unauthorized)
        },
    }
}

/// Rejects a caller that is not the stored admin; `NotInitialized` before
/// the admin is stored.
pub fn require_admin(admin: &Option<AccountId>, caller: &AccountId) -> (r: Result<(), ValidationError>)
    ensures
        r == match admin {
            None => Err::<(), ValidationError>(ValidationError::NotInitialized),
            Some(a) => if *a == *caller {
                Ok(())
            } else {
                Err(ValidationError::Unauthorized)
            },
        },
{
    match admin {
        None => Err(ValidationError::NotInitialized),
        Some(a) => if same_account(a, caller) {
            Ok(())
        } else {
            Err(ValidationError::Unauthorized)
        },
    }
}

/// Rejects the null account.
pub fn require_non_zero_address(address: &AccountId) -> (r: Result<(), ValidationError>)
    ensures
        r == if is_zero_account(*address) {
            Err::<(), ValidationError>(ValidationError::ZeroAddress)
        } else {
            Ok(())
        },
{
    validate_address(address)
}

/// Rejects zero (as a value outside `1..=u32::MAX`).
pub fn require_non_zero_u32(value: u32) -> (r: Result<(), ValidationError>)
    ensures
        r == if value == 0 {
            Err::<(), ValidationError>(ValidationError::InvalidEnumRange)
        } else {
            Ok(())
        },
{
    validate_enum_range(value, 1, u32::MAX)
}

/// Rejects zero.
pub fn require_non_zero_u64(value: u64) -> (r: Result<(), ValidationError>)
    ensures
        r == if value == 0 {
            Err::<(), ValidationError>(ValidationError::OutOfRange)
        } else {
            Ok(())
        },
{
    if value == 0 {
        return Err(ValidationError::OutOfRange);
    }
    Ok(())
}

/// Rejects zero.
pub fn require_non_zero_u128(value: u128) -> (r: Result<(), ValidationError>)
    ensures
        r == if value == 0 {
            Err::<(), ValidationError>(ValidationError::OutOfRange)
        } else {
            Ok(())
        },
{
    if value == 0 {
        return Err(ValidationError::OutOfRange);
    }
    Ok(())
}

/// Rejects a timestamp at or before `now`.
pub fn require_future_timestamp(timestamp: u64, now: u64) -> (r: Result<(), ValidationError>)
    ensures
        r == if timestamp <= now {
            Err::<(), ValidationError>(ValidationError::InvalidTimestamp)
        } else {
            Ok(())
        },
{
    validate_timestamp(timestamp, now)
}

} // verus!
