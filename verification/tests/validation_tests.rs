use meridian_contracts::contract_validation::{
    validate_account, validate_chain, validate_cid, validate_confidence, validate_fee, validate_fee_bounds,
    validate_metadata, validate_owner, validate_proof_type, validate_rate, validate_source_name,
    validate_token_amount, validate_valuation,
};
use meridian_contracts::validation::{
    contains_account, validate_address, validate_amount, validate_cross_field, validate_enum_range,
    validate_string_length, validate_timestamp, ValidationError,
};

#[test]
fn rejects_invalid_boundaries_with_specific_errors() {
    assert_eq!(validate_amount(0), Err(ValidationError::NonPositiveAmount));
    assert_eq!(validate_timestamp(10, 10), Err(ValidationError::InvalidTimestamp));
    assert_eq!(validate_enum_range(4, 0, 3), Err(ValidationError::InvalidEnumRange));
    assert_eq!(validate_cross_field(false), Err(ValidationError::CrossFieldConstraint));
}

#[test]
fn accepts_values_inside_the_boundaries() {
    assert_eq!(validate_amount(1), Ok(()));
    assert_eq!(validate_timestamp(11, 10), Ok(()));
    assert_eq!(validate_enum_range(3, 0, 3), Ok(()));
    assert_eq!(validate_enum_range(1, 3, 0), Err(ValidationError::InvalidEnumRange));
    assert_eq!(validate_cross_field(true), Ok(()));
}

#[test]
fn null_account_is_rejected() {
    assert_eq!(validate_address(&[0u8; 32]), Err(ValidationError::ZeroAddress));
    let mut a = [0u8; 32];
    a[31] = 1;
    assert_eq!(validate_address(&a), Ok(()));
    assert!(contains_account(&vec![[1u8; 32], a], &a));
    assert!(!contains_account(&vec![[1u8; 32]], &a));
}

#[test]
fn string_length_window_is_inclusive() {
    assert_eq!(validate_string_length("", 1, 3), Err(ValidationError::InvalidStringLength));
    assert_eq!(validate_string_length("abc", 1, 3), Ok(()));
    assert_eq!(validate_string_length("abcd", 1, 3), Err(ValidationError::InvalidStringLength));
    assert_eq!(validate_string_length("é", 2, 2), Ok(()));
}

#[test]
fn contract_validators_apply_their_windows() {
    assert_eq!(validate_fee(0), Err(ValidationError::NonPositiveAmount));
    assert_eq!(validate_fee(5), Ok(()));
    assert_eq!(validate_rate(10_000), Ok(()));
    assert_eq!(validate_rate(10_001), Err(ValidationError::InvalidEnumRange));
    assert_eq!(validate_fee_bounds(5, 4), Err(ValidationError::CrossFieldConstraint));
    assert_eq!(validate_fee_bounds(4, 4), Ok(()));
    assert_eq!(validate_valuation(-1), Err(ValidationError::NonPositiveAmount));
    assert_eq!(validate_source_name(""), Err(ValidationError::InvalidStringLength));
    assert_eq!(validate_source_name(&"x".repeat(128)), Ok(()));
    assert_eq!(validate_source_name(&"x".repeat(129)), Err(ValidationError::InvalidStringLength));
    assert_eq!(validate_confidence(10_001), Err(ValidationError::InvalidEnumRange));
    assert_eq!(validate_cid(&"c".repeat(256)), Ok(()));
    assert_eq!(validate_cid(&"c".repeat(257)), Err(ValidationError::InvalidStringLength));
    assert_eq!(validate_metadata("m"), Ok(()));
    assert_eq!(validate_owner(&[0u8; 32]), Err(ValidationError::ZeroAddress));
    assert_eq!(validate_token_amount(1), Ok(()));
    assert_eq!(validate_chain(0), Err(ValidationError::InvalidEnumRange));
    assert_eq!(validate_chain(u32::MAX), Ok(()));
    assert_eq!(validate_account(&[3u8; 32]), Ok(()));
    assert_eq!(validate_proof_type(255), Ok(()));
    assert_eq!(validate_proof_type(256), Err(ValidationError::InvalidEnumRange));
}
