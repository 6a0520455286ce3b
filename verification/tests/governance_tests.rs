use meridian_contracts::access_control::AccessControlRole;
use meridian_contracts::circuit_breaker::{CircuitBreaker, CircuitBreakerState, PAUSE_TIMELOCK_SECONDS};
use meridian_contracts::errors::GovernanceError;
use meridian_contracts::governance::{GovernanceCall, GovernanceContract, ProposalState};
use meridian_contracts::insurance_types::{
    GovernanceAction, PolicyPatch, PolicyStatus, PolicyType, StatusPatch,
};
use meridian_contracts::invariants::{threshold_monotonic, vote_sum_equals_total_weight};
use meridian_contracts::policy::PolicyContract;
use meridian_contracts::risk_pool::RiskPoolContract;

const GOV: [u8; 32] = [10u8; 32];
const ADMIN: [u8; 32] = [1u8; 32];
const TOKEN: [u8; 32] = [2u8; 32];
const SLASHING: [u8; 32] = [3u8; 32];
const CLAIMS: [u8; 32] = [4u8; 32];
const RISK_POOL: [u8; 32] = [5u8; 32];
const POLICY: [u8; 32] = [6u8; 32];
const CREATOR: [u8; 32] = [7u8; 32];
const VOTER: [u8; 32] = [8u8; 32];
const TARGET: [u8; 32] = [9u8; 32];
const HOLDER: [u8; 32] = [11u8; 32];

const VOTING_PERIOD: u64 = 1000;
const T0: u64 = 1_000;

fn setup() -> GovernanceContract {
    let mut gov = GovernanceContract::new(GOV);
    gov.initialize(ADMIN, TOKEN, SLASHING, VOTING_PERIOD, CLAIMS, RISK_POOL, POLICY).unwrap();
    gov
}

#[test]
fn governance_initialize_sets_admin_role() {
    let gov = setup();
    assert!(gov.roles.has_role(&ADMIN, AccessControlRole::Admin));
}

#[test]
fn test_governance_init_grants_admin_role() {
    let gov = setup();
    assert!(gov.roles.has_role(&ADMIN, AccessControlRole::Admin));
    assert!(!gov.roles.has_role(&CREATOR, AccessControlRole::Admin));
}

#[test]
fn second_initialize_is_refused() {
    let mut gov = setup();
    assert_eq!(
        gov.initialize(CREATOR, TOKEN, SLASHING, 5, CLAIMS, RISK_POOL, POLICY),
        Err(GovernanceError::AlreadyInitialized)
    );
    assert!(!gov.roles.has_role(&CREATOR, AccessControlRole::Admin));
}

#[test]
fn test_pause_proposal_stores_target_and_duration() {
    let mut gov = setup();
    let proposal_id = gov.create_pause_proposal(CREATOR, TARGET, 7_200, 60, T0).unwrap();
    let action = gov.pending.get(proposal_id).unwrap();
    assert_eq!(*action, GovernanceAction::PauseContract(TARGET, 7_200));
}

#[test]
fn zero_duration_pause_proposal_is_refused() {
    let mut gov = setup();
    assert_eq!(
        gov.create_pause_proposal(CREATOR, TARGET, 0, 60, T0),
        Err(GovernanceError::InvalidPauseDuration)
    );
    assert_eq!(gov.counter, 0);
}

#[test]
fn passing_slashing_proposal_reduces_stake_and_credits_pool() {
    let mut pool = RiskPoolContract::new(RISK_POOL);
    pool.initialize(ADMIN, TOKEN, 100).unwrap();
    pool.set_role(RISK_POOL, AccessControlRole::Governance).unwrap();
    pool.deposit_liquidity(TARGET, 500).unwrap();
    assert_eq!(pool.get_provider_info(TARGET), 500);
    assert_eq!(pool.get_pool_stats().available_capital, 500);

    let mut gov = setup();
    let proposal_id = gov
        .create_slashing_proposal(CREATOR, TARGET, "validator".to_string(), "misbehaviour".to_string(), 200, 50, T0)
        .unwrap();
    gov.vote(VOTER, proposal_id, 100, true, T0).unwrap();
    gov.finalize_proposal(proposal_id, T0 + VOTING_PERIOD + 1).unwrap();
    let call = gov.execute_slashing_proposal(proposal_id).unwrap();
    match call {
        Some(GovernanceCall::Slash { slashing_contract, risk_pool, target, role, reason, amount }) => {
            assert_eq!(slashing_contract, SLASHING);
            assert_eq!(risk_pool, RISK_POOL);
            assert_eq!(target, TARGET);
            assert_eq!(role, "validator");
            assert_eq!(reason, "governance_slash");
            assert_eq!(amount, 200);
            pool.absorb_slash(target, amount).unwrap();
        }
        other => panic!("unexpected call {:?}", other),
    }
    assert_eq!(pool.get_provider_info(TARGET), 300);
    assert_eq!(pool.get_pool_stats().available_capital, 700);
}

#[test]
fn failing_slashing_proposal_leaves_state_unchanged() {
    let mut pool = RiskPoolContract::new(RISK_POOL);
    pool.initialize(ADMIN, TOKEN, 100).unwrap();
    pool.deposit_liquidity(TARGET, 500).unwrap();

    let mut gov = setup();
    let proposal_id = gov
        .create_slashing_proposal(CREATOR, TARGET, "validator".to_string(), "misbehaviour".to_string(), 200, 50, T0)
        .unwrap();
    gov.vote(VOTER, proposal_id, 100, false, T0).unwrap();
    gov.finalize_proposal(proposal_id, T0 + VOTING_PERIOD + 1).unwrap();
    let result = gov.execute_slashing_proposal(proposal_id);
    assert!(matches!(result, Err(GovernanceError::ThresholdNotMet)));
    assert!(!gov.get_proposal(proposal_id).is_executed);
    assert_eq!(pool.get_provider_info(TARGET), 500);
    assert_eq!(pool.get_pool_stats().available_capital, 500);
}

#[test]
fn passing_pause_proposal_schedules_target_circuit_breaker() {
    let mut gov = setup();
    let proposal_id = gov.create_pause_proposal(CREATOR, SLASHING, 7_200, 50, T0).unwrap();
    gov.vote(VOTER, proposal_id, 100, true, T0).unwrap();
    let now = T0 + VOTING_PERIOD + 1;
    gov.finalize_proposal(proposal_id, now).unwrap();
    let call = gov.execute_proposal(proposal_id).unwrap();
    let mut breaker: CircuitBreakerState<[u8; 32]> = CircuitBreakerState::default();
    match call {
        Some(GovernanceCall::Pause { target_contract, governance, duration_seconds }) => {
            assert_eq!(target_contract, SLASHING);
            assert_eq!(governance, GOV);
            assert_eq!(duration_seconds, 7_200);
            CircuitBreaker::pause(&mut breaker, now, duration_seconds, governance).unwrap();
        }
        other => panic!("unexpected call {:?}", other),
    }
    assert!(!CircuitBreaker::is_paused(&breaker, now));
    assert!(CircuitBreaker::is_paused(&breaker, now + PAUSE_TIMELOCK_SECONDS));
}

fn policy_harness() -> (GovernanceContract, PolicyContract, u64) {
    let mut policy = PolicyContract::new(POLICY);
    policy.initialize(ADMIN, RISK_POOL);
    policy.set_role(POLICY, AccessControlRole::Admin);
    policy.set_governance_contract(GOV);
    let gov = setup();
    let id = policy.issue_policy(HOLDER, 1000, 100, 365, PolicyType::Standard, T0);
    (gov, policy, id)
}

#[test]
fn passing_policy_change_proposal_patches_policy() {
    let (mut gov, mut policy, policy_record_id) = policy_harness();
    let patch = PolicyPatch {
        coverage_amount: Some(2500),
        premium_amount: None,
        status: StatusPatch::SetTo(PolicyStatus::Cancelled),
    };
    let proposal_id = gov.create_policy_change_proposal(CREATOR, policy_record_id, patch, 50, T0).unwrap();
    gov.vote(VOTER, proposal_id, 100, true, T0).unwrap();
    gov.finalize_proposal(proposal_id, T0 + VOTING_PERIOD + 1).unwrap();
    match gov.execute_proposal(proposal_id).unwrap() {
        Some(GovernanceCall::ApplyPolicyUpdate { policy_contract, policy_id, patch }) => {
            assert_eq!(policy_contract, POLICY);
            policy.apply_governance_update(policy_id, patch);
        }
        other => panic!("unexpected call {:?}", other),
    }
    let updated = policy.get_policy(policy_record_id);
    assert_eq!(updated.coverage_amount, 2500);
    assert_eq!(updated.status, PolicyStatus::Cancelled);
}

#[test]
fn failing_policy_change_proposal_leaves_policy_unchanged() {
    let (mut gov, policy, policy_record_id) = policy_harness();
    let patch = PolicyPatch { coverage_amount: Some(2500), premium_amount: None, status: StatusPatch::Keep };
    let proposal_id = gov.create_policy_change_proposal(CREATOR, policy_record_id, patch, 50, T0).unwrap();
    gov.vote(VOTER, proposal_id, 100, false, T0).unwrap();
    gov.finalize_proposal(proposal_id, T0 + VOTING_PERIOD + 1).unwrap();
    let result = gov.execute_proposal(proposal_id);
    assert!(matches!(result, Err(GovernanceError::ThresholdNotMet)));
    let unchanged = policy.get_policy(policy_record_id);
    assert_eq!(unchanged.coverage_amount, 1000);
    assert_eq!(unchanged.status, PolicyStatus::Active);
}

#[test]
fn prop_verify_vote_sum_equals_total_weight() {
    let samples: [i128; 6] = [0, 1, 7, 999, 123_456_789, 1_000_000_000];
    for &yes_votes in samples.iter() {
        for &no_votes in samples.iter() {
            let total = yes_votes + no_votes;
            assert!(vote_sum_equals_total_weight(yes_votes, no_votes, total));
            assert!(!vote_sum_equals_total_weight(yes_votes, no_votes, total + 1));
        }
    }
}

#[test]
fn prop_verify_threshold_monotonic() {
    let yes_samples: [i128; 5] = [0, 1, 49, 500, 1_000_000_000];
    let total_samples: [i128; 4] = [1, 100, 1_000, 1_000_000_000];
    for &yes_votes in yes_samples.iter() {
        for &total_votes in total_samples.iter() {
            for threshold_old in 1u32..=100 {
                for threshold_new in (threshold_old + 1)..=100 {
                    let passes_old = (yes_votes * 100 / total_votes) >= threshold_old as i128;
                    let passes_new = (yes_votes * 100 / total_votes) >= threshold_new as i128;
                    if !passes_old {
                        assert!(!passes_new);
                    }
                    assert!(threshold_monotonic(yes_votes, total_votes, threshold_old, threshold_new));
                }
            }
        }
    }
}

#[test]
fn test_governance_vote_invariants() {
    let mut gov = setup();
    let proposal_id = gov
        .create_proposal(ADMIN, "Test".to_string(), "Desc".to_string(), "exec".to_string(), 50, T0)
        .unwrap();
    gov.vote(VOTER, proposal_id, 100, true, T0).unwrap();
    let stats = gov.get_proposal_stats(proposal_id, T0);
    assert_eq!(stats.yes_votes + stats.no_votes, stats.total_votes);
    assert_eq!(stats.total_votes, 100);
    assert_eq!(stats.status, ProposalState::Active);
}

#[test]
fn a_voter_cannot_vote_twice_or_after_expiry() {
    let mut gov = setup();
    let id = gov.create_proposal(ADMIN, "T".to_string(), "D".to_string(), "E".to_string(), 50, T0).unwrap();
    gov.vote(VOTER, id, 30, true, T0).unwrap();
    assert_eq!(gov.vote(VOTER, id, 30, false, T0), Err(GovernanceError::AlreadyVoted));
    assert_eq!(
        gov.vote(CREATOR, id, 30, true, T0 + VOTING_PERIOD + 1),
        Err(GovernanceError::VotingPeriodEnded)
    );
    let record = gov.get_vote_record(id, VOTER).unwrap();
    assert_eq!(record.weight, 30);
    assert!(record.is_yes);
    assert!(gov.get_vote_record(id, CREATOR).is_none());
}

#[test]
fn a_proposal_executes_once_and_only_after_finalisation() {
    let mut gov = setup();
    let id = gov.create_claim_approval_proposal(CREATOR, 42, 50, T0).unwrap();
    gov.vote(VOTER, id, 60, true, T0).unwrap();
    gov.vote(CREATOR, id, 40, false, T0).unwrap();
    assert!(matches!(gov.execute_proposal(id), Err(GovernanceError::MustFinalizeFirst)));
    assert_eq!(gov.finalize_proposal(id, T0 + VOTING_PERIOD), Err(GovernanceError::VotingPeriodNotEnded));
    gov.finalize_proposal(id, T0 + VOTING_PERIOD + 1).unwrap();
    match gov.execute_proposal(id).unwrap() {
        Some(GovernanceCall::ApproveClaim { claims_contract, claim_id }) => {
            assert_eq!(claims_contract, CLAIMS);
            assert_eq!(claim_id, 42);
        }
        other => panic!("unexpected call {:?}", other),
    }
    assert!(matches!(gov.execute_proposal(id), Err(GovernanceError::AlreadyExecuted)));
    assert_eq!(gov.get_proposal_stats(id, T0).status, ProposalState::Executed);
}

#[test]
fn threshold_uses_truncated_percentage() {
    let mut gov = setup();
    let id = gov.create_fund_allocation_proposal(CREATOR, TARGET, 77, 67, T0).unwrap();
    gov.vote(VOTER, id, 2, true, T0).unwrap();
    gov.vote(CREATOR, id, 1, false, T0).unwrap();
    gov.finalize_proposal(id, T0 + VOTING_PERIOD + 1).unwrap();
    // 2 of 3 is 66 percent once truncated, below 67.
    assert!(matches!(gov.execute_proposal(id), Err(GovernanceError::ThresholdNotMet)));

    let id2 = gov.create_fund_allocation_proposal(CREATOR, TARGET, 77, 66, T0).unwrap();
    gov.vote(VOTER, id2, 2, true, T0).unwrap();
    gov.vote(CREATOR, id2, 1, false, T0).unwrap();
    gov.finalize_proposal(id2, T0 + VOTING_PERIOD + 1).unwrap();
    match gov.execute_proposal(id2).unwrap() {
        Some(GovernanceCall::Payout { risk_pool, recipient, amount }) => {
            assert_eq!(risk_pool, RISK_POOL);
            assert_eq!(recipient, TARGET);
            assert_eq!(amount, 77);
        }
        other => panic!("unexpected call {:?}", other),
    }
}

#[test]
fn active_proposals_are_the_open_ones_in_id_order() {
    let mut gov = setup();
    let a = gov.create_proposal(ADMIN, "A".to_string(), "".to_string(), "".to_string(), 50, T0).unwrap();
    let b = gov.create_proposal(ADMIN, "B".to_string(), "".to_string(), "".to_string(), 50, T0 + 500).unwrap();
    let c = gov.create_proposal(ADMIN, "C".to_string(), "".to_string(), "".to_string(), 50, T0).unwrap();
    assert_eq!((a, b, c), (1, 2, 3));
    assert_eq!(gov.get_all_proposals(), vec![1, 2, 3]);
    assert_eq!(gov.get_active_proposals(T0), vec![1, 2, 3]);
    assert_eq!(gov.get_active_proposals(T0 + VOTING_PERIOD + 1), vec![2]);
    gov.finalize_proposal(a, T0 + VOTING_PERIOD + 1).unwrap();
    assert_eq!(gov.get_active_proposals(T0), vec![2, 3]);
}

#[test]
fn governance_state_root_stays_zero() {
    let mut gov = setup();
    gov.create_proposal(ADMIN, "A".to_string(), "".to_string(), "".to_string(), 50, T0).unwrap();
    assert_eq!(gov.get_state_root(), [0u8; 32]);
}
