//! Records shared by the policy, claims and governance contracts.
use vstd::prelude::*;
use crate::validation::AccountId;

verus! {

/// Lifecycle of a policy.
#[derive(Clone, Copy, Debug, PartialEq, Eq, Structural)]
pub enum PolicyStatus {
    Active,
    Renewed,
    Expired,
    Cancelled,
}

/// Kind of cover a policy gives.
#[derive(Clone, Copy, Debug, PartialEq, Eq, Structural)]
pub enum PolicyType {
    Standard,
    Parametric,
}

/// An insurance policy.
#[derive(Clone, Copy, Debug)]
pub struct InsurancePolicy {
    pub policy_id: u64,
    pub holder: AccountId,
    pub coverage_amount: i128,
    pub premium_amount: i128,
    pub start_time: u64,
    pub duration_days: u32,
    pub policy_type: PolicyType,
    pub status: PolicyStatus,
    pub risk_pool: AccountId,
    pub total_claimed: i128,
}

/// Lifecycle of a claim.
#[derive(Clone, Copy, Debug, PartialEq, Eq, Structural)]
pub enum ClaimStatus {
    Submitted,
    UnderReview,
    Approved,
    Rejected,
    Settled,
}

/// A claim against a policy.
#[derive(Clone, Copy, Debug)]
pub struct InsuranceClaim {
    pub claim_id: u64,
    pub policy_id: u64,
    pub claimant: AccountId,
    pub amount: i128,
    pub status: ClaimStatus,
    pub submitted_at: u64,
}

/// Aggregate figures of a risk pool, with its number of providers.
#[derive(Clone, Copy, Debug, PartialEq, Eq, Structural)]
pub struct PoolStats {
    pub total_capital: i128,
    pub available_capital: i128,
    pub total_claims_paid: i128,
    pub provider_count: u32,
}

/// A governance proposal.
#[derive(Debug)]
pub struct Proposal {
    pub id: u64,
    pub title: String,
    pub description: String,
    pub execution_data: String,
    pub creator: AccountId,
    pub expires_at: u64,
    pub threshold_percentage: u32,
    pub yes_votes: i128,
    pub no_votes: i128,
    pub is_finalized: bool,
    pub is_executed: bool,
}

/// "Leave the status as it is" or "set it to this".
#[derive(Clone, Copy, Debug, PartialEq, Eq, Structural)]
pub enum StatusPatch {
    Keep,
    SetTo(PolicyStatus),
}

/// A governance-approved change to one policy; `None` leaves the attribute
/// unchanged.
#[derive(Clone, Copy, Debug, PartialEq, Eq, Structural)]
pub struct PolicyPatch {
    pub coverage_amount: Option<i128>,
    pub premium_amount: Option<i128>,
    pub status: StatusPatch,
}

/// Governance-controlled bounds on new policies.
#[derive(Clone, Copy, Debug, PartialEq, Eq, Structural)]
pub struct PolicyParams {
    pub max_coverage_amount: i128,
    pub min_premium_amount: i128,
}

/// The action a passed proposal carries out.
#[derive(Debug, PartialEq, Eq)]
pub enum GovernanceAction {
    /// Approve the claim with this id.
    ClaimApproval(u64),
    /// Pay `amount` from the risk pool to the recipient.
    FundAllocation(AccountId, i128),
    /// Patch the policy with this id.
    PolicyChange(u64, PolicyPatch),
    /// Slash `amount` of the target's stake held under the named role.
    Slashing(AccountId, String, i128),
    /// Pause the target contract for this many seconds.
    PauseContract(AccountId, u64),
}

} // verus!
