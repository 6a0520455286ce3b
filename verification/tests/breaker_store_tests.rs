use meridian_contracts::access_control::{AccessControlRole, RoleTable};
use meridian_contracts::breaker_store::{
    emergency_pause, init, is_paused, pause, pause_with_multisig, require_not_paused, resume, state,
    StoredCircuitBreakerState,
};
use meridian_contracts::circuit_breaker::{
    CircuitBreakerState, CircuitBreakerTransition, PAUSE_TIMELOCK_SECONDS, RESUME_TIMELOCK_SECONDS,
};
use meridian_contracts::multisig::AdminConfig;
use meridian_contracts::validation::ValidationError;

const GOV: [u8; 32] = [1u8; 32];
const ADMIN: [u8; 32] = [2u8; 32];
const A1: [u8; 32] = [3u8; 32];
const A2: [u8; 32] = [4u8; 32];
const A3: [u8; 32] = [5u8; 32];

fn roles() -> RoleTable {
    let mut r = RoleTable::new();
    r.set_role(&GOV, AccessControlRole::Governance);
    r.set_role(&ADMIN, AccessControlRole::Admin);
    r
}

#[test]
fn stored_record_round_trips_through_the_state() {
    let mut s: CircuitBreakerState<[u8; 32]> = CircuitBreakerState::default();
    s.pause_until = Some(9);
    s.rescheduled_by = Some(GOV);
    let stored = StoredCircuitBreakerState::from_state(s.clone());
    assert_eq!(stored.into_state(), s);
    assert_eq!(init(), StoredCircuitBreakerState::default());
}

#[test]
fn governance_pause_reports_its_schedule_and_then_activates() {
    let roles = roles();
    let mut stored = init();
    let t = pause(&mut stored, &roles, GOV, 600, 100);
    assert_eq!(
        t,
        CircuitBreakerTransition::PauseScheduled {
            scheduled_by: GOV,
            scheduled_at: 100,
            activates_at: 100 + PAUSE_TIMELOCK_SECONDS,
            pause_until: Some(100 + PAUSE_TIMELOCK_SECONDS + 600),
            rescheduled_by: None,
        }
    );
    assert_eq!(require_not_paused(&mut stored, 101), Ok(None));
    let at = 100 + PAUSE_TIMELOCK_SECONDS;
    let (paused, due) = is_paused(&mut stored, at);
    assert!(paused);
    assert_eq!(due, Some(CircuitBreakerTransition::PauseActivated { activated_at: at, pause_until: Some(at + 600), emergency: false }));
    assert_eq!(require_not_paused(&mut stored, at + 1), Err(ValidationError::ContractPaused));
    let (paused, due) = is_paused(&mut stored, at + 600);
    assert!(!paused);
    assert!(matches!(due, Some(CircuitBreakerTransition::ResumeActivated { automatic: true, .. })));
    assert_eq!(state(&stored), init());
}

#[test]
fn multisig_pause_schedules_like_a_plain_pause() {
    let roles = roles();
    let config = AdminConfig { admins: vec![A1, A2, A3], threshold: 2 };
    let mut a = init();
    let mut b = init();
    let (ta, counted) = pause_with_multisig(&mut a, &roles, GOV, 50, vec![A1, A3, A2], &config, 10);
    let tb = pause(&mut b, &roles, GOV, 50, 10);
    assert_eq!(ta, tb);
    assert_eq!(counted, vec![A1, A3]);
    assert_eq!(a, b);
}

#[test]
fn emergency_pause_holds_until_the_admin_resumes_twice() {
    let roles = roles();
    let mut stored = init();
    let (scheduled, activated) = emergency_pause(&mut stored, &roles, GOV, 5);
    assert!(matches!(scheduled, CircuitBreakerTransition::PauseScheduled { activates_at: 5, pause_until: None, .. }));
    assert_eq!(activated, CircuitBreakerTransition::PauseActivated { activated_at: 5, pause_until: None, emergency: true });
    assert!(is_paused(&mut stored, u64::MAX).0);
    let first = resume(&mut stored, &roles, ADMIN, 10);
    assert!(matches!(first, CircuitBreakerTransition::ResumeScheduled { .. }));
    assert!(is_paused(&mut stored, 10 + RESUME_TIMELOCK_SECONDS - 1).0);
    let second = resume(&mut stored, &roles, ADMIN, 10 + RESUME_TIMELOCK_SECONDS);
    assert!(matches!(second, CircuitBreakerTransition::ResumeActivated { automatic: false, .. }));
    assert!(!is_paused(&mut stored, 10 + RESUME_TIMELOCK_SECONDS).0);
}
