//! Shared input validators used at every contract entry point.
use vstd::prelude::*;
use vstd::string::StringSliceAdditionalSpecFns;

verus! {

/// A 32-byte account identifier (the all-zero value is the null account).
pub type AccountId = [u8; 32];

/// Common validation errors shared across contracts.
#[derive(Copy, Clone, Debug, PartialEq, Eq, Structural)]
pub enum ValidationError {
    ZeroAddress,
    NonPositiveAmount,
    InvalidTimestamp,
    InvalidMultisigConfig,
    ContractPaused,
    Overflow,
    Underflow,
    OutOfRange,
    Unauthorized,
    InvalidState,
    NotInitialized,
    InvalidStringLength,
    InvalidEnumRange,
    CrossFieldConstraint,
}

/// The account is the null account: every byte is zero.
pub open spec fn is_zero_account(address: AccountId) -> bool {
    forall|i: int| 0 <= i < 32 ==> #[trigger] address@[i] == 0u8
}

/// The null account.
pub open spec fn zero_account() -> AccountId {
    choose|a: AccountId| is_zero_account(a)
}

/// The null account, as a value.
pub fn null_account() -> (r: AccountId)
    ensures
        r == zero_account(),
        is_zero_account(r),
{
    let r = [0u8; 32];
    assert(is_zero_account(r));
    let ghost z = zero_account();
    assert(is_zero_account(z));
    assert(r@ =~= z@);
    proof {
        vstd::array::axiom_array_ext_equal(r, z);
    }
    r
}

/// Rejects the all-zero account address.
pub fn validate_address(address: &AccountId) -> (r: Result<(), ValidationError>)
    ensures
        r == (if is_zero_account(*address) {
            Err::<(), ValidationError>(ValidationError::ZeroAddress)
        } else {
            Ok(())
        }),
{
    let mut i: usize = 0;
    while i < 32
        invariant
            0 <= i <= 32,
            forall|k: int| 0 <= k < i ==> #[trigger] address@[k] == 0u8,
        decreases 32 - i,
    {
        if address[i] != 0 {
            return Ok(());
        }
        i = i + 1;
    }
    Err(ValidationError::ZeroAddress)
}

/// Byte-wise equality of two account identifiers.
pub fn same_account(a: &AccountId, b: &AccountId) -> (r: bool)
    ensures
        r == (*a == *b),
{
    let mut i: usize = 0;
    while i < 32
        invariant
            0 <= i <= 32,
            forall|k: int| 0 <= k < i ==> #[trigger] a@[k] == b@[k],
        decreases 32 - i,
    {
        if a[i] != b[i] {
            return false;
        }
        i = i + 1;
    }
    proof {
        assert(a@ =~= b@);
        vstd::array::axiom_array_ext_equal(*a, *b);
    }
    true
}

/// Membership of an account in a list.
pub fn contains_account(accounts: &Vec<AccountId>, a: &AccountId) -> (r: bool)
    ensures
        r == accounts@.contains(*a),
{
    let mut i: usize = 0;
    while i < accounts.len()
        invariant
            i <= accounts@.len(),
            forall|k: int| 0 <= k < i ==> accounts@[k] != *a,
        decreases accounts@.len() - i,
    {
        if same_account(&accounts[i], a) {
            assert(accounts@[i as int] == *a);
            return true;
        }
        i = i + 1;
    }
    false
}

/// A copy of a list of accounts.
pub fn copy_accounts(accounts: &Vec<AccountId>) -> (r: Vec<AccountId>)
    ensures
        r@ == accounts@,
{
    copy_vec(accounts)
}

/// An element-wise copy of a vector of plain values.
pub fn copy_vec<T: Copy>(accounts: &Vec<T>) -> (r: Vec<T>)
    ensures
        r@ == accounts@,
{
    let mut r: Vec<T> = Vec::new();
    let mut i: usize = 0;
    while i < accounts.len()
        invariant
            i <= accounts@.len(),
            r@ == accounts@.take(i as int),
        decreases accounts@.len() - i,
    {
        r.push(accounts[i]);
        i = i + 1;
        assert(r@ =~= accounts@.take(i as int));
    }
    assert(accounts@.take(i as int) =~= accounts@);
    r
}

/// An element-wise copy of a slice of plain values.
pub fn copy_slice<T: Copy>(items: &[T]) -> (r: Vec<T>)
    ensures
        r@ == items@,
{
    let mut r: Vec<T> = Vec::new();
    let mut i: usize = 0;
    while i < items.len()
        invariant
            i <= items@.len(),
            r@ == items@.take(i as int),
        decreases items@.len() - i,
    {
        r.push(items[i]);
        i = i + 1;
        assert(r@ =~= items@.take(i as int));
    }
    assert(items@.take(i as int) =~= items@);
    r
}

/// Whether any account of the list is the null account.
pub fn any_zero_account(accounts: &Vec<AccountId>) -> (r: bool)
    ensures
        r == exists|k: int| 0 <= k < accounts@.len() && is_zero_account(#[trigger] accounts@[k]),
{
    let mut i: usize = 0;
    while i < accounts.len()
        invariant
            i <= accounts@.len(),
            forall|k: int| 0 <= k < i ==> !is_zero_account(#[trigger] accounts@[k]),
        decreases accounts@.len() - i,
    {
        if validate_address(&accounts[i]).is_err() {
            return true;
        }
        i = i + 1;
    }
    false
}

/// Accepts only strictly positive signed amounts.
pub fn validate_amount(amount: i128) -> (r: Result<(), ValidationError>)
    ensures
        r == (if amount <= 0 {
            Err::<(), ValidationError>(ValidationError::NonPositiveAmount)
        } else {
            Ok(())
        }),
{
    if amount <= 0 {
        Err(ValidationError::NonPositiveAmount)
    } else {
        Ok(())
    }
}

/// Requires a timestamp strictly after `now`.
pub fn validate_timestamp(timestamp: u64, now: u64) -> (r: Result<(), ValidationError>)
    ensures
        r == (if timestamp <= now {
            Err::<(), ValidationError>(ValidationError::InvalidTimestamp)
        } else {
            Ok(())
        }),
{
    if timestamp <= now {
        Err(ValidationError::InvalidTimestamp)
    } else {
        Ok(())
    }
}

/// The inclusive range `[min, max]` is well formed and holds `value`.
pub open spec fn in_inclusive_range(value: u32, min: u32, max: u32) -> bool {
    min <= max && min <= value && value <= max
}

/// The string's UTF-8 byte length carried as a `u32` (truncating).
pub open spec fn str_len_u32(value: &str) -> u32 {
    #[verifier::truncate] ((value.spec_bytes().len() as usize) as u32)
}

/// Enforces an inclusive length window on the string's UTF-8 byte length
/// (taken modulo 2^32, as the length is carried as a `u32`).
pub fn validate_string_length(value: &str, min: u32, max: u32) -> (r: Result<(), ValidationError>)
    ensures
        r == (if in_inclusive_range(str_len_u32(value), min, max) {
            Ok::<(), ValidationError>(())
        } else {
            Err(ValidationError::InvalidStringLength)
        }),
{
    let length = #[verifier::truncate] (value.len() as u32);
    if min > max || length < min || length > max {
        Err(ValidationError::InvalidStringLength)
    } else {
        Ok(())
    }
}

/// Enforces an inclusive numeric discriminant range.
pub fn validate_enum_range(value: u32, min: u32, max: u32) -> (r: Result<(), ValidationError>)
    ensures
        r == (if in_inclusive_range(value, min, max) {
            Ok::<(), ValidationError>(())
        } else {
            Err(ValidationError::InvalidEnumRange)
        }),
{
    if min > max || value < min || value > max {
        Err(ValidationError::InvalidEnumRange)
    } else {
        Ok(())
    }
}

/// Represents a relationship between two or more fields.
pub fn validate_cross_field(condition: bool) -> (r: Result<(), ValidationError>)
    ensures
        r == (if condition {
            Ok::<(), ValidationError>(())
        } else {
            Err(ValidationError::CrossFieldConstraint)
        }),
{
    if condition {
        Ok(())
    } else {
        Err(ValidationError::CrossFieldConstraint)
    }
}

} // verus!
