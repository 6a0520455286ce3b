//! Shared contract invariants expressed as pure predicates.
//!
//! They model properties that must always hold in contract state:
//! non-negative balances, monotonic counters, conservation, coverage and
//! withdrawal limits, vote accounting and threshold monotonicity.
use vstd::prelude::*;

verus! {

pub type Amount = i128;

pub type Count = u64;

pub type Weight = i128;

/// A balance must never be negative.
pub fn non_negative_balance(balance: Amount) -> (r: bool)
    ensures
        r == (balance >= 0),
{
    balance >= 0
}

/// The sum of individual balances must not exceed the total supply.
pub fn conservation_law(total_supply: Amount, sum_of_parts: Amount) -> (r: bool)
    ensures
        r == (sum_of_parts <= total_supply),
{
    sum_of_parts <= total_supply
}

/// A monotonically increasing counter must never decrease.
pub fn monotonic_counter(old_value: Count, new_value: Count) -> (r: bool)
    ensures
        r == (new_value >= old_value),
{
    new_value >= old_value
}

/// A claim must be positive and fit in the remaining coverage.
pub fn claim_within_coverage(total_claimed: Amount, claim_amount: Amount, coverage: Amount) -> (r:
    bool)
    requires
        claim_amount > 0 ==> i128::MIN <= total_claimed + claim_amount <= i128::MAX,
    ensures
        r == (claim_amount > 0 && total_claimed + claim_amount <= coverage),
{
    claim_amount > 0 && total_claimed + claim_amount <= coverage
}

/// A withdrawal must be positive and not exceed available capital.
pub fn withdrawal_within_available(withdrawal: Amount, available: Amount) -> (r: bool)
    ensures
        r == (withdrawal > 0 && withdrawal <= available),
{
    withdrawal > 0 && withdrawal <= available
}

/// A withdrawal must be positive and not exceed the staked balance.
pub fn withdrawal_within_stake(withdrawal: Amount, stake: Amount) -> (r: bool)
    ensures
        r == (withdrawal > 0 && withdrawal <= stake),
{
    withdrawal > 0 && withdrawal <= stake
}

/// Pool available capital must never be negative.
pub fn non_negative_available_capital(available: Amount) -> (r: bool)
    ensures
        r == (available >= 0),
{
    available >= 0
}

/// Total capital must be at least available capital.
pub fn total_capital_covers_available(total: Amount, available: Amount) -> (r: bool)
    ensures
        r == (total >= available),
{
    total >= available
}

/// After a deposit `d` and a withdrawal `w`, the total is `original + d - w`.
pub fn deposit_withdraw_roundtrip(
    original: Amount,
    deposit: Amount,
    withdrawal: Amount,
    final_total: Amount,
) -> (r: bool)
    requires
        i128::MIN <= original + deposit <= i128::MAX,
        i128::MIN <= original + deposit - withdrawal <= i128::MAX,
    ensures
        r == (original + deposit - withdrawal == final_total),
{
    let expected = original + deposit - withdrawal;
    expected == final_total
}

/// Yes votes plus no votes must equal the total weight cast.
pub fn vote_sum_equals_total_weight(yes_votes: Weight, no_votes: Weight, total_weight: Weight) -> (r:
    bool)
    requires
        i128::MIN <= yes_votes + no_votes <= i128::MAX,
    ensures
        r == (yes_votes + no_votes == total_weight),
{
    yes_votes + no_votes == total_weight
}

/// Integer division truncating toward zero, as Rust computes it.
pub open spec fn trunc_div(a: int, b: int) -> int
    recommends
        b != 0,
{
    if a >= 0 && b > 0 {
        a / b
    } else if a < 0 && b < 0 {
        (-a) / (-b)
    } else if a >= 0 {
        -(a / (-b))
    } else {
        -((-a) / b)
    }
}

/// A proposal passes at `threshold` percent: some votes were cast and the
/// truncated yes percentage reaches the threshold.
pub open spec fn passes_threshold(yes_votes: int, total_votes: int, threshold: u32) -> bool {
    total_votes > 0 && trunc_div(yes_votes * 100, total_votes) >= threshold
}

/// Raising the threshold can never make a failing proposal pass.
pub fn threshold_monotonic(
    yes_votes: Weight,
    total_votes: Weight,
    threshold_old: u32,
    threshold_new: u32,
) -> (r: bool)
    requires
        threshold_new > threshold_old && total_votes > 0 ==> i128::MIN <= yes_votes * 100 <= i128::MAX,
    ensures
        r == (threshold_new <= threshold_old || !passes_threshold(
            yes_votes as int,
            total_votes as int,
            threshold_new,
        ) || passes_threshold(yes_votes as int, total_votes as int, threshold_old)),
        r,
{
    if threshold_new <= threshold_old {
        return true;
    }
    let passes_old = total_votes > 0 && (yes_votes * 100 / total_votes) >= threshold_old as i128;
    let passes_new = total_votes > 0 && (yes_votes * 100 / total_votes) >= threshold_new as i128;
    !passes_new || passes_old
}

/// A nonce must be exactly one above the current one.
pub fn monotonic_nonce(current_nonce: Count, supplied_nonce: Count) -> (r: bool)
    requires
        current_nonce < u64::MAX,
    ensures
        r == (supplied_nonce == current_nonce + 1),
{
    supplied_nonce == current_nonce + 1
}

/// The signature count must not exceed the number of signers.
pub fn sig_count_within_signers(sig_count: u32, signer_count: usize) -> (r: bool)
    ensures
        r == (sig_count <= signer_count),
{
    sig_count as usize <= signer_count
}

/// A premium must be non-negative.
pub fn non_negative_premium(premium: Amount) -> (r: bool)
    ensures
        r == (premium >= 0),
{
    premium >= 0
}

/// A coverage amount must be non-negative.
pub fn non_negative_coverage(coverage: Amount) -> (r: bool)
    ensures
        r == (coverage >= 0),
{
    coverage >= 0
}

/// A time lock must lie in the future.
pub fn future_time_lock(lock_time: u64, current_time: u64) -> (r: bool)
    ensures
        r == (lock_time > current_time),
{
    lock_time > current_time
}

/// Distribution rates (saturating sum, in basis points) must not exceed 100%.
pub fn distribution_rates_within_bounds(validator_bp: u32, treasury_bp: u32) -> (r: bool)
    ensures
        r == (validator_bp + treasury_bp <= 10_000),
{
    validator_bp.saturating_add(treasury_bp) <= 10_000
}

/// Reputation must be within 0..=1000.
pub fn reputation_in_bounds(reputation: u32) -> (r: bool)
    ensures
        r == (reputation <= 1000),
{
    reputation <= 1000
}

/// The minimum fee must not exceed the maximum fee.
pub fn fee_bounds_valid(min_fee: Amount, max_fee: Amount) -> (r: bool)
    ensures
        r == (min_fee <= max_fee),
{
    min_fee <= max_fee
}

/// The base fee must be within the configured bounds.
pub fn base_fee_within_bounds(base_fee: Amount, min_fee: Amount, max_fee: Amount) -> (r: bool)
    ensures
        r == (min_fee <= base_fee && base_fee <= max_fee),
{
    min_fee <= base_fee && base_fee <= max_fee
}

/// A history length must not exceed the configured maximum.
pub fn history_within_max(len: usize, max: usize) -> (r: bool)
    ensures
        r == (len <= max),
{
    len <= max
}

} // verus!
