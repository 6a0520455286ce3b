use meridian_contracts::access_control::AccessControlRole;
use meridian_contracts::errors::RiskPoolError;
use meridian_contracts::invariants::{
    deposit_withdraw_roundtrip, non_negative_available_capital, total_capital_covers_available,
};
use meridian_contracts::risk_pool::{RiskPoolContract, StorageVersion, TokenTransfer};
use meridian_contracts::state_root::compute_root;

const POOL: [u8; 32] = [9u8; 32];
const ADMIN: [u8; 32] = [1u8; 32];
const TOKEN: [u8; 32] = [2u8; 32];
const PROVIDER: [u8; 32] = [3u8; 32];

fn setup() -> RiskPoolContract {
    let mut pool = RiskPoolContract::new(POOL);
    pool.initialize(ADMIN, TOKEN, 100).unwrap();
    pool
}

#[test]
fn test_risk_pool_init_grants_admin_role() {
    let pool = setup();
    assert!(pool.roles.has_role(&ADMIN, AccessControlRole::Admin));
    assert!(!pool.roles.has_role(&ADMIN, AccessControlRole::Governance));
    assert_eq!(pool.get_supported_abis(), (1_000, 1_000));
    assert_eq!(pool.version(), StorageVersion::V2);
    assert_eq!(pool.get_locked_capital(), 0);
}

#[test]
fn test_pool_invariants_after_operations() {
    let mut pool = setup();
    pool.deposit_liquidity(PROVIDER, 1000).unwrap();
    let stats = pool.get_pool_stats();
    assert!(stats.available_capital >= 0, "available_capital must be non-negative");
    assert!(stats.total_capital >= stats.available_capital, "total_capital must cover available_capital");
    assert_eq!(stats.total_capital, 1000);

    pool.withdraw_liquidity(PROVIDER, 400).unwrap();
    let stats = pool.get_pool_stats();
    assert!(stats.available_capital >= 0);
    assert!(stats.total_capital >= stats.available_capital);
    assert_eq!(stats.total_capital, 600);
    assert_eq!(stats.available_capital, 600);
}

#[test]
fn test_migrate_requires_admin_role() {
    let mut pool = setup();
    pool.migrate(ADMIN, StorageVersion::V2).unwrap();
    assert_eq!(pool.version(), StorageVersion::V2);
}

#[test]
fn test_migrate_is_idempotent() {
    let mut pool = setup();
    pool.migrate(ADMIN, StorageVersion::V2).unwrap();
    let result = pool.migrate(ADMIN, StorageVersion::V2);
    assert!(result.is_ok());
}

#[test]
fn deposit_returns_the_transfer_and_credits_the_provider() {
    let mut pool = setup();
    let t = pool.deposit_liquidity(PROVIDER, 250).unwrap();
    assert_eq!(t, TokenTransfer { token: TOKEN, from: PROVIDER, to: POOL, amount: 250 });
    assert_eq!(pool.get_provider_info(PROVIDER), 250);
    assert_eq!(pool.get_provider_info(ADMIN), 0);
    let w = pool.withdraw_liquidity(PROVIDER, 50).unwrap();
    assert_eq!(w, TokenTransfer { token: TOKEN, from: POOL, to: PROVIDER, amount: 50 });
    assert_eq!(pool.get_provider_info(PROVIDER), 200);
}

#[test]
fn deposit_withdraw_round_trip_restores_the_pool() {
    let mut pool = setup();
    pool.deposit_liquidity(PROVIDER, 500).unwrap();
    let before = pool.get_pool_stats();
    pool.deposit_liquidity(ADMIN, 300).unwrap();
    pool.withdraw_liquidity(ADMIN, 300).unwrap();
    assert_eq!(pool.get_pool_stats(), before);
    assert_eq!(pool.get_provider_info(ADMIN), 0);
    assert_eq!(pool.get_provider_info(PROVIDER), 500);
}

#[test]
fn each_error_has_its_input() {
    let mut fresh = RiskPoolContract::new(POOL);
    assert_eq!(fresh.deposit_liquidity(PROVIDER, 100), Err(RiskPoolError::NotInitialized));
    assert_eq!(fresh.withdraw_liquidity(PROVIDER, 0), Err(RiskPoolError::NotInitialized));
    let mut pool = setup();
    assert_eq!(pool.initialize(ADMIN, TOKEN, 1), Err(RiskPoolError::AlreadyInitialized));
    assert_eq!(pool.deposit_liquidity(PROVIDER, 99), Err(RiskPoolError::BelowMinimumStake));
    assert_eq!(pool.withdraw_liquidity(PROVIDER, 1), Err(RiskPoolError::InsufficientStake));
    pool.deposit_liquidity(PROVIDER, 100).unwrap();
    pool.set_role(POOL, AccessControlRole::Admin).unwrap();
    pool.payout_claim(ADMIN, 60).unwrap();
    assert_eq!(pool.withdraw_liquidity(PROVIDER, 50), Err(RiskPoolError::InsufficientPoolFunds));
    assert_eq!(pool.payout(ADMIN, 41), Err(RiskPoolError::InsufficientPoolFunds));
    pool.set_role(POOL, AccessControlRole::Governance).unwrap();
    assert_eq!(pool.absorb_slash(PROVIDER, 0), Err(RiskPoolError::InvalidAmount));
    assert_eq!(pool.absorb_slash(PROVIDER, 101), Err(RiskPoolError::InsufficientStake));
}

#[test]
fn payout_moves_available_capital_to_claims_paid() {
    let mut pool = setup();
    pool.set_role(POOL, AccessControlRole::Admin).unwrap();
    pool.deposit_liquidity(PROVIDER, 1000).unwrap();
    let t = pool.payout_claim(ADMIN, 300).unwrap();
    assert_eq!(t.from, POOL);
    assert_eq!(t.to, ADMIN);
    let stats = pool.get_stats();
    assert_eq!((stats.total_capital, stats.available_capital, stats.total_claims_paid), (1000, 700, 300));
}

#[test]
fn absorbed_slash_moves_stake_into_available_capital() {
    let mut pool = setup();
    pool.set_role(POOL, AccessControlRole::Governance).unwrap();
    pool.deposit_liquidity(PROVIDER, 500).unwrap();
    pool.absorb_slash(PROVIDER, 200).unwrap();
    assert_eq!(pool.get_provider_info(PROVIDER), 300);
    assert_eq!(pool.get_pool_stats().available_capital, 700);
    assert_eq!(pool.get_pool_stats().total_capital, 500);
}

#[test]
fn migration_from_v1_registers_the_new_abi() {
    let mut pool = RiskPoolContract::new(POOL);
    pool.roles.set_role(&ADMIN, AccessControlRole::Admin);
    assert_eq!(pool.version(), StorageVersion::V1);
    pool.migrate(ADMIN, StorageVersion::V2).unwrap();
    assert_eq!(pool.version(), StorageVersion::V2);
    assert_eq!(pool.get_supported_abis(), (1_000, 1_001));
    assert_eq!(pool.get_locked_capital(), 0);
    assert_eq!(pool.migrate(ADMIN, StorageVersion::V1), Err(RiskPoolError::AlreadyInitialized));
    assert_eq!(StorageVersion::current().number(), 2);
}

#[test]
fn lib_test_initialize_sets_admin_role() {
    let pool = setup();
    assert!(pool.roles.has_role(&ADMIN, AccessControlRole::Admin));
}

const SAMPLES: [i128; 7] = [0, 1, 2, 99, 1_000, 123_456_789, 1_000_000_000];

#[test]
fn prop_verify_deposit_withdraw_roundtrip() {
    for &original in SAMPLES.iter() {
        for &deposit in SAMPLES.iter() {
            for &max_withdrawal in SAMPLES.iter() {
                let withdrawal = max_withdrawal.min(original + deposit);
                let final_total = original + deposit - withdrawal;
                assert!(deposit_withdraw_roundtrip(original, deposit, withdrawal, final_total));
                assert!(!deposit_withdraw_roundtrip(original, deposit, withdrawal, final_total + 1));
            }
        }
    }
}

#[test]
fn prop_verify_available_capital_non_negative() {
    for &available in SAMPLES.iter() {
        assert!(non_negative_available_capital(available));
    }
    assert!(!non_negative_available_capital(-1));
}

#[test]
fn prop_verify_total_capital_covers_available() {
    for &total in SAMPLES.iter() {
        for &available in SAMPLES.iter() {
            let available = available.min(total);
            assert!(total_capital_covers_available(total, available));
        }
    }
    assert!(!total_capital_covers_available(5, 6));
}

#[test]
fn state_root_commits_to_the_stats_and_version_encodings() {
    let fresh = RiskPoolContract::new(POOL);
    assert_eq!(fresh.get_state_root(b"stats", b"v"), [0u8; 32]);
    let pool = setup();
    let expected = compute_root(&[b"stats".to_vec(), b"v".to_vec()]);
    assert_eq!(pool.get_state_root(b"stats", b"v"), expected);
    assert_ne!(pool.get_state_root(b"stats2", b"v"), expected);
}
