use meridian_contracts::access_control::AccessControlRole;
use meridian_contracts::insurance_types::{
    InsurancePolicy, PolicyParams, PolicyPatch, PolicyStatus, PolicyType, StatusPatch,
};
use meridian_contracts::policy::{PolicyContract, SECONDS_PER_DAY};

const CONTRACT: [u8; 32] = [20u8; 32];
const ADMIN: [u8; 32] = [1u8; 32];
const RISK_POOL: [u8; 32] = [2u8; 32];
const GOVERNANCE: [u8; 32] = [3u8; 32];
const HOLDER: [u8; 32] = [4u8; 32];
const CLAIMS: [u8; 32] = [5u8; 32];

fn setup() -> PolicyContract {
    let mut c = PolicyContract::new(CONTRACT);
    c.initialize(ADMIN, RISK_POOL);
    c
}

fn seed_policy(c: &mut PolicyContract, total_claimed: i128) {
    c.governance_contract = Some(GOVERNANCE);
    let policy = InsurancePolicy {
        policy_id: 1,
        holder: HOLDER,
        coverage_amount: 1000,
        premium_amount: 100,
        start_time: 0,
        duration_days: 365,
        policy_type: PolicyType::Standard,
        status: PolicyStatus::Active,
        risk_pool: RISK_POOL,
        total_claimed,
    };
    c.policies.insert(1, policy);
}

#[test]
fn policy_initialize_sets_admin_role() {
    let c = setup();
    assert!(c.roles.has_role(&ADMIN, AccessControlRole::Admin));
}

#[test]
fn test_policy_contract_init_grants_admin_role() {
    let c = setup();
    assert!(c.roles.has_role(&ADMIN, AccessControlRole::Admin));
    assert!(!c.roles.has_role(&CONTRACT, AccessControlRole::Admin));
    assert_eq!(c.get_stats(), 0);
}

#[test]
fn test_apply_governance_update_patches_policy() {
    let mut c = PolicyContract::new(CONTRACT);
    seed_policy(&mut c, 0);
    let patch = PolicyPatch {
        coverage_amount: Some(5000),
        premium_amount: Some(200),
        status: StatusPatch::SetTo(PolicyStatus::Cancelled),
    };
    c.apply_governance_update(1, patch);
    let policy = c.get_policy(1);
    assert_eq!(policy.coverage_amount, 5000);
    assert_eq!(policy.premium_amount, 200);
    assert_eq!(policy.status, PolicyStatus::Cancelled);
    assert_eq!(policy.holder, HOLDER);
}

#[test]
fn empty_patch_changes_nothing() {
    let mut c = PolicyContract::new(CONTRACT);
    seed_policy(&mut c, 10);
    let before = c.get_policy(1);
    c.apply_governance_update(1, PolicyPatch { coverage_amount: None, premium_amount: None, status: StatusPatch::Keep });
    let after = c.get_policy(1);
    assert_eq!(after.coverage_amount, before.coverage_amount);
    assert_eq!(after.premium_amount, before.premium_amount);
    assert_eq!(after.status, before.status);
    assert_eq!(after.total_claimed, 10);
}

#[test]
fn issue_renew_cancel_and_expire() {
    let mut c = setup();
    c.set_role(CONTRACT, AccessControlRole::Admin);
    let id = c.issue_policy(HOLDER, 1000, 100, 30, PolicyType::Parametric, 500);
    assert_eq!(id, 1);
    assert_eq!(c.get_stats(), 1);
    let p = c.get_pol(id);
    assert_eq!(p.start_time, 500);
    assert_eq!(p.risk_pool, RISK_POOL);
    assert_eq!(p.status, PolicyStatus::Active);
    let end = 500 + 30 * SECONDS_PER_DAY;
    assert!(c.is_active(id, end));
    assert!(!c.is_active(id, end + 1));

    c.renew_policy(id, 10, end);
    let p = c.get_policy(id);
    assert_eq!(p.duration_days, 40);
    assert_eq!(p.status, PolicyStatus::Renewed);
    assert!(c.is_active(id, end + 1));

    let id2 = c.issue_policy(HOLDER, 10, 1, 1, PolicyType::Standard, 0);
    assert_eq!(id2, 2);
    c.cancel_policy(id2, 0);
    assert_eq!(c.get_policy(id2).status, PolicyStatus::Cancelled);
    assert!(!c.is_active(id2, 0));

    c.expire_policy(id, 500 + 40 * SECONDS_PER_DAY);
    assert_eq!(c.get_policy(id).status, PolicyStatus::Expired);
}

#[test]
fn governance_params_bound_new_policies() {
    let mut c = setup();
    c.set_role(CONTRACT, AccessControlRole::Admin);
    c.set_governance_contract(GOVERNANCE);
    assert_eq!(c.get_policy_params(), PolicyParams { max_coverage_amount: i128::MAX, min_premium_amount: 0 });
    let params = PolicyParams { max_coverage_amount: 500, min_premium_amount: 50 };
    c.apply_governance_params(params);
    assert_eq!(c.get_policy_params(), params);
    let id = c.issue_policy(HOLDER, 500, 50, 365, PolicyType::Standard, 0);
    assert_eq!(c.get_policy(id).coverage_amount, 500);
}

#[test]
fn claimed_amounts_accumulate() {
    let mut c = setup();
    c.set_role(CONTRACT, AccessControlRole::Admin);
    c.set_claims_contract(CLAIMS);
    let id = c.issue_policy(HOLDER, 1000, 100, 365, PolicyType::Standard, 0);
    c.update_claimed(id, 400);
    c.update_cl(id, 600);
    assert_eq!(c.get_policy(id).total_claimed, 1000);
}

#[test]
fn batches_issue_renew_and_cancel_in_order() {
    let mut c = setup();
    c.set_role(CONTRACT, AccessControlRole::Admin);
    let reqs = vec![
        (HOLDER, 100i128, 10i128, 30u32, PolicyType::Standard),
        (ADMIN, 200i128, 20i128, 60u32, PolicyType::Parametric),
    ];
    let ids = c.issue_policies_batch(&reqs, 0);
    assert_eq!(ids, vec![1, 2]);
    assert_eq!(c.get_policy(2).holder, ADMIN);
    c.renew_policies_batch(&vec![(1, 5), (2, 5)], 0);
    assert_eq!(c.get_policy(1).duration_days, 35);
    assert_eq!(c.get_policy(2).duration_days, 65);
    c.cancel_policies_batch(&vec![1, 2], 0);
    assert_eq!(c.get_policy(1).status, PolicyStatus::Cancelled);
    assert_eq!(c.get_policy(2).status, PolicyStatus::Cancelled);
}

#[test]
fn policy_state_root_stays_zero() {
    let mut c = setup();
    c.set_role(CONTRACT, AccessControlRole::Admin);
    c.issue_policy(HOLDER, 10, 1, 1, PolicyType::Standard, 0);
    assert_eq!(c.get_state_root(), [0u8; 32]);
}
