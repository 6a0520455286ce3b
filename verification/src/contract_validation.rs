//! The per-contract validators built on the shared ones: fees, oracle
//! valuations, IPFS metadata, property tokens and compliance inputs.
use vstd::prelude::*;
use crate::validation::{
    AccountId, ValidationError, in_inclusive_range, is_zero_account, str_len_u32, validate_address,
    validate_amount, validate_cross_field, validate_enum_range, validate_string_length,
};

verus! {

/// `Ok` when `ok` holds, the error otherwise.
pub open spec fn check(ok: bool, e: ValidationError) -> Result<(), ValidationError> {
    if ok {
        Ok(())
    } else {
        Err(e)
    }
}

/// A fee is a positive amount.
pub fn validate_fee(amount: i128) -> (r: Result<(), ValidationError>)
    ensures
        r == check(amount > 0, ValidationError::NonPositiveAmount),
{
    validate_amount(amount)
}

/// A rate is given in basis points: `0..=10_000`.
pub fn validate_rate(rate: u32) -> (r: Result<(), ValidationError>)
    ensures
        r == check(rate <= 10_000, ValidationError::InvalidEnumRange),
{
    validate_enum_range(rate, 0, 10_000)
}

/// The minimum fee does not exceed the maximum.
pub fn validate_fee_bounds(minimum: u128, maximum: u128) -> (r: Result<(), ValidationError>)
    ensures
        r == check(minimum <= maximum, ValidationError::CrossFieldConstraint),
{
    validate_cross_field(minimum <= maximum)
}

/// A valuation is a positive amount.
pub fn validate_valuation(amount: i128) -> (r: Result<(), ValidationError>)
    ensures
        r == check(amount > 0, ValidationError::NonPositiveAmount),
{
    validate_amount(amount)
}

/// An oracle source name is 1 to 128 bytes long.
pub fn validate_source_name(name: &str) -> (r: Result<(), ValidationError>)
    ensures
        r == check(in_inclusive_range(str_len_u32(name), 1, 128), ValidationError::InvalidStringLength),
{
    validate_string_length(name, 1, 128)
}

/// A confidence is given in basis points: `0..=10_000`.
pub fn validate_confidence(value: u32) -> (r: Result<(), ValidationError>)
    ensures
        r == check(value <= 10_000, ValidationError::InvalidEnumRange),
{
    validate_enum_range(value, 0, 10_000)
}

/// A content identifier is 1 to 256 bytes long.
pub fn validate_cid(cid: &str) -> (r: Result<(), ValidationError>)
    ensures
        r == check(in_inclusive_range(str_len_u32(cid), 1, 256), ValidationError::InvalidStringLength),
{
    validate_string_length(cid, 1, 256)
}

/// A metadata value is 1 to 65 536 bytes long.
pub fn validate_metadata(value: &str) -> (r: Result<(), ValidationError>)
    ensures
        r == check(in_inclusive_range(str_len_u32(value), 1, 65_536), ValidationError::InvalidStringLength),
{
    validate_string_length(value, 1, 65_536)
}

/// A token owner is not the null account.
pub fn validate_owner(owner: &AccountId) -> (r: Result<(), ValidationError>)
    ensures
        r == check(!is_zero_account(*owner), ValidationError::ZeroAddress),
{
    validate_address(owner)
}

/// A token amount is positive.
pub fn validate_token_amount(amount: i128) -> (r: Result<(), ValidationError>)
    ensures
        r == check(amount > 0, ValidationError::NonPositiveAmount),
{
    validate_amount(amount)
}

/// A chain id is not zero.
pub fn validate_chain(chain: u32) -> (r: Result<(), ValidationError>)
    ensures
        r == check(chain >= 1, ValidationError::InvalidEnumRange),
{
    validate_enum_range(chain, 1, u32::MAX)
}

/// A compliance account is not the null account.
pub fn validate_account(account: &AccountId) -> (r: Result<(), ValidationError>)
    ensures
        r == check(!is_zero_account(*account), ValidationError::ZeroAddress),
{
    validate_address(account)
}

/// A proof type discriminant fits in a byte.
pub fn validate_proof_type(value: u32) -> (r: Result<(), ValidationError>)
    ensures
        r == check(value <= 255, ValidationError::InvalidEnumRange),
{
    validate_enum_range(value, 0, 255)
}

} // verus!
