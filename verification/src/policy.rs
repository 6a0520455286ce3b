//! The policy contract: issuing, renewing, cancelling and expiring insurance
//! policies, with governance-controlled bounds and patches.
//!
//! Entry points that the contract aborts on (missing policy, unmet bounds,
//! unauthorised caller) state those conditions in `requires`.
use vstd::prelude::*;
use crate::access_control::{AccessControlRole, RoleTable};
use crate::insurance_types::{InsurancePolicy, PolicyParams, PolicyPatch, PolicyStatus, PolicyType, StatusPatch};
use crate::keyed_map::IdMap;
use crate::validation::AccountId;

verus! {

/// Seconds in a day.
pub const SECONDS_PER_DAY: u64 = 86_400;

/// Largest batch the batch entry points accept.
pub const MAX_POLICY_BATCH: usize = 50;

/// The storage of one policy contract.
#[derive(Debug)]
pub struct PolicyContract {
    /// The policy contract's own address.
    pub contract: AccountId,
    pub admin: Option<AccountId>,
    pub risk_pool: Option<AccountId>,
    pub claims_contract: Option<AccountId>,
    pub governance_contract: Option<AccountId>,
    pub params: Option<PolicyParams>,
    pub policies: IdMap<InsurancePolicy>,
    pub counter: u64,
    pub roles: RoleTable,
}

/// The parameters in force: the stored ones, or the unconstrained defaults
/// (any coverage, any non-negative premium).
pub open spec fn params_in(params: Option<PolicyParams>) -> PolicyParams {
    match params {
        Some(p) => p,
        None => PolicyParams { max_coverage_amount: i128::MAX, min_premium_amount: 0 },
    }
}

/// The instant a policy lapses: its start plus its duration in days.
pub open spec fn expiry(p: InsurancePolicy) -> int {
    p.start_time + p.duration_days * 86400
}

/// The policy's expiry fits the clock's range.
pub open spec fn expiry_fits(p: InsurancePolicy) -> bool {
    expiry(p) <= u64::MAX
}

/// The policy is in force: active or renewed, and not past its expiry.
pub open spec fn in_force(p: InsurancePolicy, now: u64) -> bool {
    (p.status == PolicyStatus::Active || p.status == PolicyStatus::Renewed) && now <= expiry(p)
}

/// The policy may be renewed by `extra_days` at `now`.
pub open spec fn renewable(p: InsurancePolicy, extra_days: u32, now: u64) -> bool {
    &&& p.status == PolicyStatus::Active || p.status == PolicyStatus::Renewed
    &&& expiry_fits(p)
    &&& now <= expiry(p)
    &&& p.duration_days + extra_days <= u32::MAX
}

/// The policy after a renewal by `extra_days`.
pub open spec fn renewed(p: InsurancePolicy, extra_days: u32) -> InsurancePolicy {
    InsurancePolicy {
        duration_days: (p.duration_days + extra_days) as u32,
        status: PolicyStatus::Renewed,
        ..p
    }
}

/// The policy may be cancelled at `now`: it has not yet lapsed.
pub open spec fn cancellable(p: InsurancePolicy, now: u64) -> bool {
    expiry_fits(p) && now <= expiry(p)
}

/// The policy after a cancellation.
pub open spec fn cancelled(p: InsurancePolicy) -> InsurancePolicy {
    InsurancePolicy { status: PolicyStatus::Cancelled, ..p }
}

/// The patch may be applied to `p` under `params`: a new coverage is
/// positive, within the maximum and covers what was already claimed; a new
/// premium reaches the minimum; a status change does not touch an expired or
/// cancelled policy.
pub open spec fn patch_valid(p: InsurancePolicy, patch: PolicyPatch, params: PolicyParams) -> bool {
    &&& patch.coverage_amount matches Some(c) ==> (0 < c <= params.max_coverage_amount
        && p.total_claimed <= c)
    &&& patch.premium_amount matches Some(m) ==> m >= params.min_premium_amount
    &&& patch.status is SetTo ==> (p.status != PolicyStatus::Expired && p.status
        != PolicyStatus::Cancelled)
}

/// The policy after the patch: each attribute the patch names is replaced,
/// the others are kept.
pub open spec fn patched(p: InsurancePolicy, patch: PolicyPatch) -> InsurancePolicy {
    InsurancePolicy {
        coverage_amount: match patch.coverage_amount {
            Some(c) => c,
            None => p.coverage_amount,
        },
        premium_amount: match patch.premium_amount {
            Some(m) => m,
            None => p.premium_amount,
        },
        status: match patch.status {
            StatusPatch::SetTo(s) => s,
            StatusPatch::Keep => p.status,
        },
        ..p
    }
}

/// The policies after renewing each `(id, extra_days)` request in turn, or
/// `None` when some request is for a missing or non-renewable policy.
pub open spec fn renew_all(m: Map<u64, InsurancePolicy>, reqs: Seq<(u64, u32)>, now: u64) -> Option<
    Map<u64, InsurancePolicy>,
>
    decreases reqs.len(),
{
    if reqs.len() == 0 {
        Some(m)
    } else {
        match renew_all(m, reqs.drop_last(), now) {
            None => None,
            Some(m2) => {
                let (id, days) = reqs.last();
                if m2.dom().contains(id) && renewable(m2[id], days, now) {
                    Some(m2.insert(id, renewed(m2[id], days)))
                } else {
                    None
                }
            },
        }
    }
}

/// The policies after cancelling each id in turn, or `None` when some id
/// names a missing or lapsed policy.
pub open spec fn cancel_all(m: Map<u64, InsurancePolicy>, ids: Seq<u64>, now: u64) -> Option<
    Map<u64, InsurancePolicy>,
>
    decreases ids.len(),
{
    if ids.len() == 0 {
        Some(m)
    } else {
        match cancel_all(m, ids.drop_last(), now) {
            None => None,
            Some(m2) => {
                let id = ids.last();
                if m2.dom().contains(id) && cancellable(m2[id], now) {
                    Some(m2.insert(id, cancelled(m2[id])))
                } else {
                    None
                }
            },
        }
    }
}

/// A successful run over all requests succeeds over each prefix.
proof fn lemma_renew_prefix(m: Map<u64, InsurancePolicy>, reqs: Seq<(u64, u32)>, now: u64, i: int)
    requires
        0 <= i <= reqs.len(),
        renew_all(m, reqs, now) is Some,
    ensures
        renew_all(m, reqs.take(i), now) is Some,
    decreases reqs.len(),
{
    if i == reqs.len() {
        assert(reqs.take(i) =~= reqs);
    } else {
        lemma_renew_prefix(m, reqs.drop_last(), now, i);
        assert(reqs.drop_last().take(i) =~= reqs.take(i));
    }
}

/// A successful run over all ids succeeds over each prefix.
proof fn lemma_cancel_prefix(m: Map<u64, InsurancePolicy>, ids: Seq<u64>, now: u64, i: int)
    requires
        0 <= i <= ids.len(),
        cancel_all(m, ids, now) is Some,
    ensures
        cancel_all(m, ids.take(i), now) is Some,
    decreases ids.len(),
{
    if i == ids.len() {
        assert(ids.take(i) =~= ids);
    } else {
        lemma_cancel_prefix(m, ids.drop_last(), now, i);
        assert(ids.drop_last().take(i) =~= ids.take(i));
    }
}

/// The policy issued under `id` for a request.
pub open spec fn issued_policy(
    id: u64,
    holder: AccountId,
    coverage_amount: i128,
    premium_amount: i128,
    duration_days: u32,
    policy_type: PolicyType,
    now: u64,
    risk_pool: AccountId,
) -> InsurancePolicy {
    InsurancePolicy {
        policy_id: id,
        holder,
        coverage_amount,
        premium_amount,
        start_time: now,
        duration_days,
        policy_type,
        status: PolicyStatus::Active,
        risk_pool,
        total_claimed: 0,
    }
}

impl PolicyContract {
    /// The parameters in force.
    pub open spec fn current_params(&self) -> PolicyParams {
        params_in(self.params)
    }

    /// The policy stored under `id`.
    pub open spec fn policy_of(&self, id: u64) -> Option<InsurancePolicy> {
        self.policies.value_of(id)
    }

    /// Everything but the stored policies and the counter is unchanged.
    pub open spec fn same_settings(&self, other: &PolicyContract) -> bool {
        &&& self.contract == other.contract
        &&& self.admin == other.admin
        &&& self.risk_pool == other.risk_pool
        &&& self.claims_contract == other.claims_contract
        &&& self.governance_contract == other.governance_contract
        &&& self.params == other.params
        &&& self.roles == other.roles
    }

    /// Only the policy under `id` changed, to `p`.
    pub open spec fn only_policy_changed(&self, old: &PolicyContract, id: u64, p: InsurancePolicy) -> bool {
        &&& self.same_settings(old)
        &&& self.counter == old.counter
        &&& forall|i: u64| #[trigger]
            self.policy_of(i) == if i == id {
                Some(p)
            } else {
                old.policy_of(i)
            }
    }

    /// The storage of a policy contract at `contract` before `initialize`.
    pub fn new(contract: AccountId) -> (s: Self)
        ensures
            s.contract == contract,
            s.admin.is_none(),
            s.risk_pool.is_none(),
            s.claims_contract.is_none(),
            s.governance_contract.is_none(),
            s.params.is_none(),
            forall|id: u64| s.policy_of(id).is_none(),
            s.counter == 0,
            forall|a: AccountId, r: AccessControlRole| !s.roles.holds(a, r),
    {
        PolicyContract {
            contract,
            admin: None,
            risk_pool: None,
            claims_contract: None,
            governance_contract: None,
            params: None,
            policies: IdMap::new(),
            counter: 0,
            roles: RoleTable::new(),
        }
    }

    /// Set up the contract once with `admin` and the risk pool that backs
    /// its policies.
    pub fn initialize(&mut self, admin: AccountId, risk_pool: AccountId)
        requires
            old(self).admin.is_none(),
        ensures
            final(self).admin == Some(admin),
            final(self).risk_pool == Some(risk_pool),
            final(self).counter == 0,
            forall|a: AccountId, role: AccessControlRole|
                final(self).roles.holds(a, role) <==> (old(self).roles.holds(a, role) || (a == admin
                    && role == AccessControlRole::Admin)),
            final(self).contract == old(self).contract,
            final(self).claims_contract == old(self).claims_contract,
            final(self).governance_contract == old(self).governance_contract,
            final(self).params == old(self).params,
            final(self).policies == old(self).policies,
    {
        self.admin = Some(admin);
        self.risk_pool = Some(risk_pool);
        self.counter = 0;
        self.roles.init_access_control(&admin);
    }

    /// Grant `role` to `addr` (the host checks the admin's authorisation).
    pub fn set_role(&mut self, addr: AccountId, role: AccessControlRole)
        ensures
            forall|a: AccountId, q: AccessControlRole|
                final(self).roles.holds(a, q) <==> (old(self).roles.holds(a, q) || (a == addr
                    && q == role)),
            final(self).policies == old(self).policies,
            final(self).counter == old(self).counter,
    {
        self.roles.set_role(&addr, role);
    }

    /// The parameters in force.
    pub fn get_policy_params(&self) -> (p: PolicyParams)
        ensures
            p == self.current_params(),
    {
        match self.params {
            Some(p) => p,
            None => PolicyParams { max_coverage_amount: i128::MAX, min_premium_amount: 0 },
        }
    }

    /// Issue a policy to `holder` starting `now`; returns its id, one more
    /// than the previous count. Only a contract whose own address holds the
    /// admin role may issue, within the governance bounds.
    pub fn issue_policy(
        &mut self,
        holder: AccountId,
        coverage_amount: i128,
        premium_amount: i128,
        duration_days: u32,
        policy_type: PolicyType,
        now: u64,
    ) -> (id: u64)
        requires
            old(self).roles.holds(old(self).contract, AccessControlRole::Admin),
            coverage_amount <= old(self).current_params().max_coverage_amount,
            premium_amount >= old(self).current_params().min_premium_amount,
            old(self).counter < u64::MAX,
            old(self).risk_pool is Some,
        ensures
            id == old(self).counter + 1,
            final(self).counter == id,
            final(self).same_settings(old(self)),
            forall|i: u64| #[trigger]
                final(self).policy_of(i) == if i == id {
                    Some(
                        issued_policy(
                            id,
                            holder,
                            coverage_amount,
                            premium_amount,
                            duration_days,
                            policy_type,
                            now,
                            old(self).risk_pool.unwrap(),
                        ),
                    )
                } else {
                    old(self).policy_of(i)
                },
    {
        let counter = self.counter + 1;
        self.counter = counter;
        let risk_pool = self.risk_pool.unwrap();
        let policy = InsurancePolicy {
            policy_id: counter,
            holder,
            coverage_amount,
            premium_amount,
            start_time: now,
            duration_days,
            policy_type,
            status: PolicyStatus::Active,
            risk_pool,
            total_claimed: 0,
        };
        self.policies.insert(counter, policy);
        counter
    }

    /// The policy stored under `policy_id`.
    pub fn get_policy(&self, policy_id: u64) -> (p: InsurancePolicy)
        requires
            self.policy_of(policy_id) is Some,
        ensures
            Some(p) == self.policy_of(policy_id),
    {
        *self.policies.get(policy_id).unwrap()
    }

    /// The name under which the claims contract reads `get_policy`.
    pub fn get_pol(&self, policy_id: u64) -> (p: InsurancePolicy)
        requires
            self.policy_of(policy_id) is Some,
        ensures
            Some(p) == self.policy_of(policy_id),
    {
        self.get_policy(policy_id)
    }

    /// The expiry of an active or renewed policy.
    fn expiry_of(p: &InsurancePolicy) -> (e: u64)
        requires
            expiry_fits(*p),
        ensures
            e == expiry(*p),
    {
        p.start_time + (p.duration_days as u64 * SECONDS_PER_DAY)
    }

    /// Whether the policy is in force at `now`.
    pub fn is_active(&self, policy_id: u64, now: u64) -> (r: bool)
        requires
            self.policy_of(policy_id) is Some,
            (self.policy_of(policy_id).unwrap().status == PolicyStatus::Active
                || self.policy_of(policy_id).unwrap().status == PolicyStatus::Renewed)
                ==> expiry_fits(self.policy_of(policy_id).unwrap()),
        ensures
            r == in_force(self.policy_of(policy_id).unwrap(), now),
    {
        let policy = self.get_policy(policy_id);
        if policy.status != PolicyStatus::Active && policy.status != PolicyStatus::Renewed {
            return false;
        }
        now <= Self::expiry_of(&policy)
    }

    /// The holder extends an active or renewed, unexpired policy by
    /// `duration_days`.
    pub fn renew_policy(&mut self, policy_id: u64, duration_days: u32, now: u64)
        requires
            old(self).policy_of(policy_id) is Some,
            renewable(old(self).policy_of(policy_id).unwrap(), duration_days, now),
        ensures
            final(self).only_policy_changed(
                old(self),
                policy_id,
                renewed(old(self).policy_of(policy_id).unwrap(), duration_days),
            ),
    {
        let mut policy = self.get_policy(policy_id);
        policy.duration_days = policy.duration_days + duration_days;
        policy.status = PolicyStatus::Renewed;
        self.policies.insert(policy_id, policy);
    }

    /// The holder cancels a policy that has not lapsed.
    pub fn cancel_policy(&mut self, policy_id: u64, now: u64)
        requires
            old(self).policy_of(policy_id) is Some,
            cancellable(old(self).policy_of(policy_id).unwrap(), now),
        ensures
            final(self).only_policy_changed(
                old(self),
                policy_id,
                cancelled(old(self).policy_of(policy_id).unwrap()),
            ),
    {
        let mut policy = self.get_policy(policy_id);
        policy.status = PolicyStatus::Cancelled;
        self.policies.insert(policy_id, policy);
    }

    /// Register the claims contract trusted to record claimed amounts.
    pub fn set_claims_contract(&mut self, claims_contract: AccountId)
        requires
            old(self).roles.holds(old(self).contract, AccessControlRole::Admin),
        ensures
            final(self).claims_contract == Some(claims_contract),
            final(self).contract == old(self).contract,
            final(self).admin == old(self).admin,
            final(self).risk_pool == old(self).risk_pool,
            final(self).governance_contract == old(self).governance_contract,
            final(self).params == old(self).params,
            final(self).roles == old(self).roles,
            final(self).policies == old(self).policies,
            final(self).counter == old(self).counter,
    {
        self.claims_contract = Some(claims_contract);
    }

    /// Register the governance contract trusted to patch policies and set
    /// the parameters.
    pub fn set_governance_contract(&mut self, governance_contract: AccountId)
        requires
            old(self).roles.holds(old(self).contract, AccessControlRole::Admin),
        ensures
            final(self).governance_contract == Some(governance_contract),
            final(self).contract == old(self).contract,
            final(self).admin == old(self).admin,
            final(self).risk_pool == old(self).risk_pool,
            final(self).claims_contract == old(self).claims_contract,
            final(self).params == old(self).params,
            final(self).roles == old(self).roles,
            final(self).policies == old(self).policies,
            final(self).counter == old(self).counter,
    {
        self.governance_contract = Some(governance_contract);
    }

    /// Apply a governance-approved patch to a policy.
    pub fn apply_governance_update(&mut self, policy_id: u64, patch: PolicyPatch)
        requires
            old(self).governance_contract is Some,
            old(self).policy_of(policy_id) is Some,
            patch_valid(old(self).policy_of(policy_id).unwrap(), patch, old(self).current_params()),
        ensures
            final(self).only_policy_changed(
                old(self),
                policy_id,
                patched(old(self).policy_of(policy_id).unwrap(), patch),
            ),
    {
        let mut policy = self.get_policy(policy_id);
        if let Some(coverage_amount) = patch.coverage_amount {
            policy.coverage_amount = coverage_amount;
        }
        if let Some(premium_amount) = patch.premium_amount {
            policy.premium_amount = premium_amount;
        }
        if let StatusPatch::SetTo(status) = patch.status {
            policy.status = status;
        }
        self.policies.insert(policy_id, policy);
    }

    /// Replace the governance bounds: a positive maximum coverage and a
    /// non-negative minimum premium.
    pub fn apply_governance_params(&mut self, params: PolicyParams)
        requires
            old(self).governance_contract is Some,
            params.max_coverage_amount > 0,
            params.min_premium_amount >= 0,
        ensures
            final(self).params == Some(params),
            final(self).contract == old(self).contract,
            final(self).admin == old(self).admin,
            final(self).risk_pool == old(self).risk_pool,
            final(self).claims_contract == old(self).claims_contract,
            final(self).governance_contract == old(self).governance_contract,
            final(self).roles == old(self).roles,
            final(self).policies == old(self).policies,
            final(self).counter == old(self).counter,
    {
        self.params = Some(params);
    }

    /// The claims contract records `amount` more claimed against a policy;
    /// the total may not exceed the coverage.
    pub fn update_claimed(&mut self, policy_id: u64, amount: i128)
        requires
            old(self).claims_contract is Some,
            old(self).policy_of(policy_id) is Some,
            i128::MIN <= old(self).policy_of(policy_id).unwrap().total_claimed + amount,
            old(self).policy_of(policy_id).unwrap().total_claimed + amount
                <= old(self).policy_of(policy_id).unwrap().coverage_amount,
        ensures
            final(self).only_policy_changed(
                old(self),
                policy_id,
                InsurancePolicy {
                    total_claimed: (old(self).policy_of(policy_id).unwrap().total_claimed
                        + amount) as i128,
                    ..old(self).policy_of(policy_id).unwrap()
                },
            ),
    {
        let mut policy = self.get_policy(policy_id);
        policy.total_claimed = policy.total_claimed + amount;
        self.policies.insert(policy_id, policy);
    }

    /// The name under which the claims contract calls `update_claimed`.
    pub fn update_cl(&mut self, policy_id: u64, amount: i128)
        requires
            old(self).claims_contract is Some,
            old(self).policy_of(policy_id) is Some,
            i128::MIN <= old(self).policy_of(policy_id).unwrap().total_claimed + amount,
            old(self).policy_of(policy_id).unwrap().total_claimed + amount
                <= old(self).policy_of(policy_id).unwrap().coverage_amount,
        ensures
            final(self).only_policy_changed(
                old(self),
                policy_id,
                InsurancePolicy {
                    total_claimed: (old(self).policy_of(policy_id).unwrap().total_claimed
                        + amount) as i128,
                    ..old(self).policy_of(policy_id).unwrap()
                },
            ),
    {
        self.update_claimed(policy_id, amount)
    }

    /// Mark a policy expired once `now` reaches its expiry.
    pub fn expire_policy(&mut self, policy_id: u64, now: u64)
        requires
            old(self).policy_of(policy_id) is Some,
            expiry_fits(old(self).policy_of(policy_id).unwrap()),
            now >= expiry(old(self).policy_of(policy_id).unwrap()),
        ensures
            final(self).only_policy_changed(
                old(self),
                policy_id,
                InsurancePolicy {
                    status: PolicyStatus::Expired,
                    ..old(self).policy_of(policy_id).unwrap()
                },
            ),
    {
        let mut policy = self.get_policy(policy_id);
        policy.status = PolicyStatus::Expired;
        self.policies.insert(policy_id, policy);
    }

    /// The contract's state commitment: it is never refreshed, so it stays
    /// all-zero.
    pub fn get_state_root(&self) -> (r: [u8; 32])
        ensures
            r@ == Seq::new(32, |i: int| 0u8),
    {
        let zero = [0u8; 32];
        assert(zero@ =~= Seq::new(32, |i: int| 0u8));
        zero
    }

    /// The number of policies issued.
    pub fn get_stats(&self) -> (c: u64)
        ensures
            c == self.counter,
    {
        self.counter
    }

    /// Issue one policy per request, all or nothing; returns the new ids in
    /// request order. Each request is `(holder, coverage, premium,
    /// duration_days, policy_type)`.
    pub fn issue_policies_batch(
        &mut self,
        requests: &Vec<(AccountId, i128, i128, u32, PolicyType)>,
        now: u64,
    ) -> (ids: Vec<u64>)
        requires
            old(self).roles.holds(old(self).contract, AccessControlRole::Admin),
            1 <= requests@.len() <= MAX_POLICY_BATCH,
            forall|k: int|
                0 <= k < requests@.len() ==> #[trigger] requests@[k].1
                    <= old(self).current_params().max_coverage_amount
                    && requests@[k].2 >= old(self).current_params().min_premium_amount,
            old(self).counter + requests@.len() <= u64::MAX,
            old(self).risk_pool is Some,
        ensures
            ids@.len() == requests@.len(),
            forall|k: int| 0 <= k < ids@.len() ==> #[trigger] ids@[k] == old(self).counter + k + 1,
            final(self).counter == old(self).counter + requests@.len(),
            final(self).same_settings(old(self)),
            forall|i: u64| #[trigger]
                final(self).policy_of(i) == if old(self).counter < i <= old(self).counter
                    + requests@.len() {
                    Some(
                        issued_policy(
                            i,
                            requests@[i - old(self).counter - 1].0,
                            requests@[i - old(self).counter - 1].1,
                            requests@[i - old(self).counter - 1].2,
                            requests@[i - old(self).counter - 1].3,
                            requests@[i - old(self).counter - 1].4,
                            now,
                            old(self).risk_pool.unwrap(),
                        ),
                    )
                } else {
                    old(self).policy_of(i)
                },
    {
        let risk_pool = self.risk_pool.unwrap();
        let start = self.counter;
        let mut ids: Vec<u64> = Vec::new();
        let mut i: usize = 0;
        while i < requests.len()
            invariant
                i <= requests@.len(),
                self.counter == start + i,
                start + requests@.len() <= u64::MAX,
                ids@.len() == i,
                forall|k: int| 0 <= k < i ==> #[trigger] ids@[k] == start + k + 1,
                self.same_settings(old(self)),
                start == old(self).counter,
                risk_pool == old(self).risk_pool.unwrap(),
                forall|id: u64| #[trigger]
                    self.policy_of(id) == if start < id <= start + i {
                        Some(
                            issued_policy(
                                id,
                                requests@[id - start - 1].0,
                                requests@[id - start - 1].1,
                                requests@[id - start - 1].2,
                                requests@[id - start - 1].3,
                                requests@[id - start - 1].4,
                                now,
                                risk_pool,
                            ),
                        )
                    } else {
                        old(self).policy_of(id)
                    },
            decreases requests@.len() - i,
        {
            let (holder, coverage_amount, premium_amount, duration_days, policy_type) = requests[i];
            let ghost prev: PolicyContract = *self;
            let counter = self.counter + 1;
            self.counter = counter;
            let policy = InsurancePolicy {
                policy_id: counter,
                holder,
                coverage_amount,
                premium_amount,
                start_time: now,
                duration_days,
                policy_type,
                status: PolicyStatus::Active,
                risk_pool,
                total_claimed: 0,
            };
            self.policies.insert(counter, policy);
            proof {
                assert(requests@[i as int] == (holder, coverage_amount, premium_amount, duration_days, policy_type));
                assert forall|id: u64| #[trigger]
                    self.policy_of(id) == if start < id <= start + i + 1 {
                        Some(
                            issued_policy(
                                id,
                                requests@[id - start - 1].0,
                                requests@[id - start - 1].1,
                                requests@[id - start - 1].2,
                                requests@[id - start - 1].3,
                                requests@[id - start - 1].4,
                                now,
                                risk_pool,
                            ),
                        )
                    } else {
                        old(self).policy_of(id)
                    } by {
                    if id == counter {
                        assert(id - start - 1 == i);
                    } else {
                        assert(prev.policy_of(id) == self.policy_of(id));
                    }
                }
            }
            ids.push(counter);
            i = i + 1;
        }
        ids
    }

    /// Renew each `(policy_id, extra_days)` in turn, all or nothing.
    pub fn renew_policies_batch(&mut self, requests: &Vec<(u64, u32)>, now: u64)
        requires
            1 <= requests@.len() <= MAX_POLICY_BATCH,
            renew_all(old(self).policies.as_map(), requests@, now) is Some,
        ensures
            final(self).policies.as_map() == renew_all(old(self).policies.as_map(), requests@, now).unwrap(),
            final(self).same_settings(old(self)),
            final(self).counter == old(self).counter,
    {
        let ghost start = self.policies.as_map();
        let mut i: usize = 0;
        assert(requests@.take(0) =~= Seq::<(u64, u32)>::empty());
        while i < requests.len()
            invariant
                i <= requests@.len(),
                renew_all(start, requests@, now) is Some,
                renew_all(start, requests@.take(i as int), now) == Some(self.policies.as_map()),
                self.same_settings(old(self)),
                self.counter == old(self).counter,
            decreases requests@.len() - i,
        {
            let (policy_id, duration_days) = requests[i];
            proof {
                lemma_renew_prefix(start, requests@, now, i + 1);
                assert(requests@.take(i + 1).drop_last() =~= requests@.take(i as int));
                assert(requests@.take(i + 1).last() == requests@[i as int]);
            }
            let mut policy = *self.policies.get(policy_id).unwrap();
            policy.duration_days = policy.duration_days + duration_days;
            policy.status = PolicyStatus::Renewed;
            self.policies.insert(policy_id, policy);
            i = i + 1;
        }
        assert(requests@.take(i as int) =~= requests@);
    }

    /// Cancel each policy in turn, all or nothing.
    pub fn cancel_policies_batch(&mut self, policy_ids: &Vec<u64>, now: u64)
        requires
            1 <= policy_ids@.len() <= MAX_POLICY_BATCH,
            cancel_all(old(self).policies.as_map(), policy_ids@, now) is Some,
        ensures
            final(self).policies.as_map() == cancel_all(old(self).policies.as_map(), policy_ids@, now).unwrap(),
            final(self).same_settings(old(self)),
            final(self).counter == old(self).counter,
    {
        let ghost start = self.policies.as_map();
        let mut i: usize = 0;
        assert(policy_ids@.take(0) =~= Seq::<u64>::empty());
        while i < policy_ids.len()
            invariant
                i <= policy_ids@.len(),
                cancel_all(start, policy_ids@, now) is Some,
                cancel_all(start, policy_ids@.take(i as int), now) == Some(self.policies.as_map()),
                self.same_settings(old(self)),
                self.counter == old(self).counter,
            decreases policy_ids@.len() - i,
        {
            let policy_id = policy_ids[i];
            proof {
                lemma_cancel_prefix(start, policy_ids@, now, i + 1);
                assert(policy_ids@.take(i + 1).drop_last() =~= policy_ids@.take(i as int));
                assert(policy_ids@.take(i + 1).last() == policy_ids@[i as int]);
            }
            let mut policy = *self.policies.get(policy_id).unwrap();
            policy.status = PolicyStatus::Cancelled;
            self.policies.insert(policy_id, policy);
            i = i + 1;
        }
        assert(policy_ids@.take(i as int) =~= policy_ids@);
    }
}

/// The policy has not paid out more than it covers.
pub open spec fn claims_within_coverage(p: InsurancePolicy) -> bool {
    p.total_claimed <= p.coverage_amount
}

/// No operation lets a policy's claims exceed its coverage: a freshly
/// issued policy with non-negative coverage starts within it, and renewal,
/// cancellation, expiry, valid governance patches and accepted claim
/// updates keep it there.
pub proof fn law_claims_stay_within_coverage(
    p: InsurancePolicy,
    extra_days: u32,
    patch: PolicyPatch,
    params: PolicyParams,
    claim: i128,
    id: u64,
    holder: AccountId,
    coverage_amount: i128,
    premium_amount: i128,
    duration_days: u32,
    policy_type: PolicyType,
    now: u64,
    risk_pool: AccountId,
)
    requires
        claims_within_coverage(p),
        patch_valid(p, patch, params),
        i128::MIN <= p.total_claimed + claim <= p.coverage_amount,
        coverage_amount >= 0,
    ensures
        claims_within_coverage(
            issued_policy(id, holder, coverage_amount, premium_amount, duration_days, policy_type, now, risk_pool),
        ),
        claims_within_coverage(renewed(p, extra_days)),
        claims_within_coverage(cancelled(p)),
        claims_within_coverage(InsurancePolicy { status: PolicyStatus::Expired, ..p }),
        claims_within_coverage(patched(p, patch)),
        claims_within_coverage(InsurancePolicy { total_claimed: (p.total_claimed + claim) as i128, ..p }),
{
}

/// A renewal pushes the policy's expiry back by exactly the added days.
pub proof fn law_renewal_extends_expiry(p: InsurancePolicy, extra_days: u32, now: u64)
    requires
        renewable(p, extra_days, now),
    ensures
        expiry(renewed(p, extra_days)) == expiry(p) + extra_days * 86400,
        renewed(p, extra_days).status == PolicyStatus::Renewed,
{
    assert((p.duration_days + extra_days) * 86400 == p.duration_days * 86400 + extra_days * 86400)
        by (nonlinear_arith);
}

/// A patch that names no attribute leaves the policy as it was.
pub proof fn law_empty_patch_changes_nothing(p: InsurancePolicy)
    ensures
        patched(
            p,
            PolicyPatch { coverage_amount: None, premium_amount: None, status: StatusPatch::Keep },
        ) == p,
{
}

/// Renewing one policy in a batch does what a single renewal does: the
/// policy's duration grows by the requested days and its status becomes
/// `Renewed`; nothing else changes. A request the single renewal refuses
/// fails the batch.
pub proof fn law_batch_of_one_renews_like_renew_policy(
    m: Map<u64, InsurancePolicy>,
    id: u64,
    extra_days: u32,
    now: u64,
)
    ensures
        m.dom().contains(id) && renewable(m[id], extra_days, now) ==> renew_all(m, seq![(id, extra_days)], now)
            == Some(
            m.insert(
                id,
                InsurancePolicy {
                    duration_days: (m[id].duration_days + extra_days) as u32,
                    status: PolicyStatus::Renewed,
                    ..m[id]
                },
            ),
        ),
        !(m.dom().contains(id) && renewable(m[id], extra_days, now)) ==> renew_all(
            m,
            seq![(id, extra_days)],
            now,
        ) is None,
{
    let reqs = seq![(id, extra_days)];
    assert(reqs.drop_last() =~= Seq::<(u64, u32)>::empty());
    assert(reqs.last() == (id, extra_days));
    assert(renew_all(m, reqs.drop_last(), now) == Some(m));
    assert(reqs.len() == 1);
}

/// A successful batch renewal leaves every requested policy `Renewed`, with
/// a duration no shorter than before, keeps every other policy as it was,
/// and stores no new policy.
pub proof fn law_batch_renewal_marks_requested_policies(
    m: Map<u64, InsurancePolicy>,
    reqs: Seq<(u64, u32)>,
    now: u64,
)
    requires
        renew_all(m, reqs, now) is Some,
    ensures
        renew_all(m, reqs, now).unwrap().dom() == m.dom(),
        forall|k: int|
            0 <= k < reqs.len() ==> renew_all(m, reqs, now).unwrap()[#[trigger] reqs[k].0].status
                == PolicyStatus::Renewed,
        forall|k: int|
            0 <= k < reqs.len() ==> renew_all(m, reqs, now).unwrap()[#[trigger] reqs[k].0].duration_days
                >= m[reqs[k].0].duration_days,
        forall|i: u64|
            m.dom().contains(i) && (forall|k: int| 0 <= k < reqs.len() ==> #[trigger] reqs[k].0 != i)
                ==> #[trigger] renew_all(m, reqs, now).unwrap()[i] == m[i],
    decreases reqs.len(),
{
    if reqs.len() > 0 {
        let prefix = reqs.drop_last();
        law_batch_renewal_marks_requested_policies(m, prefix, now);
        let m2 = renew_all(m, prefix, now).unwrap();
        let (id, days) = reqs.last();
        let m3 = renew_all(m, reqs, now).unwrap();
        assert(m3 == m2.insert(id, renewed(m2[id], days)));
        assert(m3.dom() =~= m.dom());
        assert forall|k: int| 0 <= k < reqs.len() implies m3[#[trigger] reqs[k].0].status
            == PolicyStatus::Renewed && m3[reqs[k].0].duration_days >= m[reqs[k].0].duration_days by {
            if k < reqs.len() - 1 {
                assert(reqs[k] == prefix[k]);
                if reqs[k].0 == id {
                    assert(m2[id].duration_days >= m[id].duration_days);
                }
            } else {
                if !(exists|j: int| 0 <= j < prefix.len() && prefix[j].0 == id) {
                    assert(m2[id] == m[id]);
                } else {
                    let j = choose|j: int| 0 <= j < prefix.len() && prefix[j].0 == id;
                    assert(m2[prefix[j].0].duration_days >= m[prefix[j].0].duration_days);
                }
            }
        }
        assert forall|i: u64|
            m.dom().contains(i) && (forall|k: int| 0 <= k < reqs.len() ==> #[trigger] reqs[k].0 != i)
                implies #[trigger] m3[i] == m[i] by {
            assert(reqs[reqs.len() - 1].0 != i);
            assert forall|k: int| 0 <= k < prefix.len() implies #[trigger] prefix[k].0 != i by {
                assert(prefix[k] == reqs[k]);
            }
        }
    }
}

} // verus!
