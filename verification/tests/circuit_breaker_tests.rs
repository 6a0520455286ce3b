use meridian_contracts::circuit_breaker::{
    CircuitBreaker, CircuitBreakerError, CircuitBreakerState, CircuitBreakerTransition, InkCircuitBreaker,
    PAUSE_TIMELOCK_SECONDS, RESUME_TIMELOCK_SECONDS,
};

#[test]
fn pause_has_distinct_scheduled_active_and_expired_boundaries() {
    let mut state = CircuitBreakerState::default();
    CircuitBreaker::pause(&mut state, 10, 100, 1u8).unwrap();
    assert!(!CircuitBreaker::is_paused(&state, 10 + PAUSE_TIMELOCK_SECONDS - 1));
    assert!(CircuitBreaker::is_paused(&state, 10 + PAUSE_TIMELOCK_SECONDS));
    assert!(!CircuitBreaker::is_paused(&state, 10 + PAUSE_TIMELOCK_SECONDS + 100));
}

#[test]
fn resume_requires_two_calls_separated_by_timelock() {
    let mut state = CircuitBreakerState::default();
    CircuitBreaker::emergency_pause(&mut state, 10, 1u8);
    assert!(matches!(
        CircuitBreaker::resume(&mut state, 20, 2u8),
        Ok(CircuitBreakerTransition::ResumeScheduled { .. })
    ));
    assert_eq!(
        CircuitBreaker::resume(&mut state, 20 + RESUME_TIMELOCK_SECONDS - 1, 2u8),
        Err(CircuitBreakerError::ResumeTimelockActive)
    );
    assert!(matches!(
        CircuitBreaker::resume(&mut state, 20 + RESUME_TIMELOCK_SECONDS, 2u8),
        Ok(CircuitBreakerTransition::ResumeActivated { .. })
    ));
    assert!(!CircuitBreaker::is_paused(&state, u64::MAX));
}

#[test]
fn rescheduling_before_activation_moves_the_window() {
    let mut state = CircuitBreakerState::default();
    CircuitBreaker::pause(&mut state, 100, 600, 1u8).unwrap();
    let reschedule_at = 100 + PAUSE_TIMELOCK_SECONDS - 1;
    CircuitBreaker::pause(&mut state, reschedule_at, 900, 2u8).unwrap();

    assert_eq!(state.rescheduled_by, Some(2));
    assert!(!CircuitBreaker::is_paused(&state, 100 + PAUSE_TIMELOCK_SECONDS));
    assert!(CircuitBreaker::is_paused(&state, reschedule_at + PAUSE_TIMELOCK_SECONDS));
}

#[test]
fn resume_request_cannot_bypass_either_timelock() {
    let mut state = CircuitBreakerState::default();
    CircuitBreaker::pause(&mut state, 0, 10_000, 1u8).unwrap();
    let resume_requested_at = PAUSE_TIMELOCK_SECONDS - 1;
    CircuitBreaker::resume(&mut state, resume_requested_at, 9u8).unwrap();

    assert!(CircuitBreaker::is_paused(&state, PAUSE_TIMELOCK_SECONDS));
    assert_eq!(
        CircuitBreaker::resume(&mut state, resume_requested_at + RESUME_TIMELOCK_SECONDS - 1, 9u8),
        Err(CircuitBreakerError::ResumeTimelockActive)
    );
}

#[test]
fn governance_cannot_shorten_or_replace_an_emergency_pause() {
    let mut timed = CircuitBreakerState::default();
    CircuitBreaker::pause(&mut timed, 0, 10_000, 1u8).unwrap();
    let activation = PAUSE_TIMELOCK_SECONDS;
    let original_until = timed.pause_until;
    CircuitBreaker::pause(&mut timed, activation, 1, 2u8).unwrap();
    assert_eq!(timed.pause_until, original_until);

    let mut emergency = CircuitBreakerState::default();
    CircuitBreaker::emergency_pause(&mut emergency, 10, 1u8);
    assert_eq!(
        CircuitBreaker::pause(&mut emergency, 11, 1, 2u8),
        Err(CircuitBreakerError::EmergencyPauseActive)
    );
}

#[test]
fn zero_duration_pause_is_refused() {
    let mut state = CircuitBreakerState::default();
    assert_eq!(CircuitBreaker::pause(&mut state, 5, 0, 1u8), Err(CircuitBreakerError::InvalidDuration));
    assert_eq!(state, CircuitBreakerState::default());
}

#[test]
fn resume_without_pause_is_refused() {
    let mut state: CircuitBreakerState<u8> = CircuitBreakerState::default();
    assert_eq!(CircuitBreaker::resume(&mut state, 5, 1u8), Err(CircuitBreakerError::NotPaused));
}

#[test]
fn pause_past_the_clock_overflows() {
    let mut state = CircuitBreakerState::default();
    assert_eq!(
        CircuitBreaker::pause(&mut state, u64::MAX - 10, 100, 1u8),
        Err(CircuitBreakerError::TimestampOverflow)
    );
}

#[test]
fn sync_announces_activation_once_and_expiry() {
    let mut state = CircuitBreakerState::default();
    CircuitBreaker::pause(&mut state, 0, 100, 1u8).unwrap();
    assert_eq!(CircuitBreaker::sync(&mut state, 10), None);
    let activated = CircuitBreaker::sync(&mut state, PAUSE_TIMELOCK_SECONDS);
    assert!(matches!(activated, Some(CircuitBreakerTransition::PauseActivated { emergency: false, .. })));
    assert_eq!(CircuitBreaker::sync(&mut state, PAUSE_TIMELOCK_SECONDS + 1), None);
    let expired = CircuitBreaker::sync(&mut state, PAUSE_TIMELOCK_SECONDS + 100);
    assert!(matches!(expired, Some(CircuitBreakerTransition::ResumeActivated { automatic: true, .. })));
    assert_eq!(state, CircuitBreakerState::default());
}

#[test]
fn ink_breaker_follows_the_same_protocol() {
    let mut breaker = InkCircuitBreaker::new();
    let governance = [7u8; 32];
    assert!(breaker.pause(0, 0, governance).is_err());
    breaker.pause(0, 50, governance).unwrap();
    assert!(!breaker.is_paused(PAUSE_TIMELOCK_SECONDS - 1));
    assert!(breaker.is_paused(PAUSE_TIMELOCK_SECONDS));
    let (_, activated) = breaker.emergency_pause(1, governance);
    assert!(matches!(activated, CircuitBreakerTransition::PauseActivated { emergency: true, .. }));
    assert!(breaker.is_paused(u64::MAX));
    assert!(matches!(breaker.resume(2, governance), Ok(CircuitBreakerTransition::ResumeScheduled { .. })));
    assert!(matches!(
        breaker.resume(2 + RESUME_TIMELOCK_SECONDS, governance),
        Ok(CircuitBreakerTransition::ResumeActivated { .. })
    ));
    assert!(!breaker.is_paused(u64::MAX));
    assert_eq!(breaker.sync(10), None);
}
