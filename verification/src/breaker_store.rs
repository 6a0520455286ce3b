//! The circuit breaker as a Soroban contract keeps it: one stored record
//! and role-gated entry points over it.
//!
//! Each entry point reports the transitions it caused; the host publishes
//! them as `CBREAK` events. Callers without the required role, and requests
//! the state machine refuses, abort the contract call, so they are left out
//! by `requires`; the pause guard reports a paused contract as an error.
use vstd::prelude::*;
use crate::access_control::{AccessControlRole, RoleTable};
use crate::circuit_breaker::{
    CircuitBreaker, CircuitBreakerState, CircuitBreakerTransition, cleared_state,
    emergency_pause_step, pause_step, paused_at, resume_step, sync_step,
};
use crate::multisig::{AdminConfig, counted_signers, multisig_approved, verify_multisig};
use crate::validation::{AccountId, ValidationError};

verus! {

/// The breaker record as stored by a contract.
#[derive(Clone, Copy, Debug, PartialEq, Eq)]
pub struct StoredCircuitBreakerState {
    pub pause_scheduled_at: Option<u64>,
    pub pause_activates_at: Option<u64>,
    pub pause_until: Option<u64>,
    pub rescheduled_by: Option<AccountId>,
    pub resume_scheduled_at: Option<u64>,
    pub emergency_paused: bool,
    pub activation_announced: bool,
}

impl StoredCircuitBreakerState {
    /// The state machine's view of the record.
    pub open spec fn state(self) -> CircuitBreakerState<AccountId> {
        CircuitBreakerState {
            pause_scheduled_at: self.pause_scheduled_at,
            pause_activates_at: self.pause_activates_at,
            pause_until: self.pause_until,
            rescheduled_by: self.rescheduled_by,
            resume_scheduled_at: self.resume_scheduled_at,
            emergency_paused: self.emergency_paused,
            activation_announced: self.activation_announced,
        }
    }

    /// The record of a state.
    pub fn from_state(state: CircuitBreakerState<AccountId>) -> (s: Self)
        ensures
            s.state() == state,
    {
        StoredCircuitBreakerState {
            pause_scheduled_at: state.pause_scheduled_at,
            pause_activates_at: state.pause_activates_at,
            pause_until: state.pause_until,
            rescheduled_by: state.rescheduled_by,
            resume_scheduled_at: state.resume_scheduled_at,
            emergency_paused: state.emergency_paused,
            activation_announced: state.activation_announced,
        }
    }

    /// The state of the record.
    pub fn into_state(self) -> (s: CircuitBreakerState<AccountId>)
        ensures
            s == self.state(),
    {
        CircuitBreakerState {
            pause_scheduled_at: self.pause_scheduled_at,
            pause_activates_at: self.pause_activates_at,
            pause_until: self.pause_until,
            rescheduled_by: self.rescheduled_by,
            resume_scheduled_at: self.resume_scheduled_at,
            emergency_paused: self.emergency_paused,
            activation_announced: self.activation_announced,
        }
    }
}

impl Default for StoredCircuitBreakerState {
    /// The record with nothing scheduled.
    fn default() -> (s: Self)
        ensures
            s.state() == cleared_state::<AccountId>(),
    {
        StoredCircuitBreakerState {
            pause_scheduled_at: None,
            pause_activates_at: None,
            pause_until: None,
            rescheduled_by: None,
            resume_scheduled_at: None,
            emergency_paused: false,
            activation_announced: false,
        }
    }
}

/// The record a contract stores when it is set up: nothing scheduled.
pub fn init() -> (s: StoredCircuitBreakerState)
    ensures
        s.state() == cleared_state::<AccountId>(),
{
    StoredCircuitBreakerState::default()
}

/// Apply a pause request to the record and report its transition.
fn schedule_pause(
    stored: &mut StoredCircuitBreakerState,
    scheduled_by: AccountId,
    duration_seconds: u64,
    now: u64,
) -> (t: CircuitBreakerTransition<AccountId>)
    requires
        pause_step(old(stored).state(), now, duration_seconds, scheduled_by).1 is Ok,
    ensures
        final(stored).state() == pause_step(old(stored).state(), now, duration_seconds, scheduled_by).0,
        t == pause_step(old(stored).state(), now, duration_seconds, scheduled_by).1->Ok_0,
{
    let mut state = stored.into_state();
    let r = CircuitBreaker::pause(&mut state, now, duration_seconds, scheduled_by);
    *stored = StoredCircuitBreakerState::from_state(state);
    match r {
        Ok(t) => t,
        Err(_) => CircuitBreakerTransition::PauseActivated {
            activated_at: now,
            pause_until: None,
            emergency: false,
        },
    }
}

/// Governance schedules a timed pause of `duration_seconds`.
pub fn pause(
    stored: &mut StoredCircuitBreakerState,
    roles: &RoleTable,
    governance: AccountId,
    duration_seconds: u64,
    now: u64,
) -> (t: CircuitBreakerTransition<AccountId>)
    requires
        roles.holds(governance, AccessControlRole::Governance),
        pause_step(old(stored).state(), now, duration_seconds, governance).1 is Ok,
    ensures
        final(stored).state() == pause_step(old(stored).state(), now, duration_seconds, governance).0,
        t == pause_step(old(stored).state(), now, duration_seconds, governance).1->Ok_0,
{
    schedule_pause(stored, governance, duration_seconds, now)
}

/// Governance schedules a timed pause that a threshold of the configured
/// admins signed; reports the transition and the counted signers, whose
/// authorization the host requires.
pub fn pause_with_multisig(
    stored: &mut StoredCircuitBreakerState,
    roles: &RoleTable,
    governance: AccountId,
    duration_seconds: u64,
    signers: Vec<AccountId>,
    config: &AdminConfig,
    now: u64,
) -> (r: (CircuitBreakerTransition<AccountId>, Vec<AccountId>))
    requires
        roles.holds(governance, AccessControlRole::Governance),
        multisig_approved(signers@, config.admins@, config.threshold),
        pause_step(old(stored).state(), now, duration_seconds, governance).1 is Ok,
    ensures
        final(stored).state() == pause_step(old(stored).state(), now, duration_seconds, governance).0,
        r.0 == pause_step(old(stored).state(), now, duration_seconds, governance).1->Ok_0,
        r.1@ == counted_signers(signers@, config.admins@, config.threshold),
{
    let (approved, counted) = verify_multisig(signers, config);
    assert(approved);
    let t = schedule_pause(stored, governance, duration_seconds, now);
    (t, counted)
}

/// Governance pauses at once, with no expiry; reports the scheduling and
/// the activation.
pub fn emergency_pause(
    stored: &mut StoredCircuitBreakerState,
    roles: &RoleTable,
    governance: AccountId,
    now: u64,
) -> (r: (CircuitBreakerTransition<AccountId>, CircuitBreakerTransition<AccountId>))
    requires
        roles.holds(governance, AccessControlRole::Governance),
    ensures
        (final(stored).state(), r) == emergency_pause_step(old(stored).state(), now, governance),
{
    let mut state = stored.into_state();
    let transitions = CircuitBreaker::emergency_pause(&mut state, now, governance);
    *stored = StoredCircuitBreakerState::from_state(state);
    transitions
}

/// The admin's resume protocol: the first call schedules the resume, a call
/// after the resume timelock clears the pause.
pub fn resume(
    stored: &mut StoredCircuitBreakerState,
    roles: &RoleTable,
    admin: AccountId,
    now: u64,
) -> (t: CircuitBreakerTransition<AccountId>)
    requires
        roles.holds(admin, AccessControlRole::Admin),
        resume_step(old(stored).state(), now, admin).1 is Ok,
    ensures
        final(stored).state() == resume_step(old(stored).state(), now, admin).0,
        t == resume_step(old(stored).state(), now, admin).1->Ok_0,
{
    let mut state = stored.into_state();
    let r = CircuitBreaker::resume(&mut state, now, admin);
    *stored = StoredCircuitBreakerState::from_state(state);
    match r {
        Ok(t) => t,
        Err(_) => CircuitBreakerTransition::PauseActivated {
            activated_at: now,
            pause_until: None,
            emergency: false,
        },
    }
}

/// Bring the record up to date at `now` and report whether the contract is
/// paused, with the transition that became due, if any.
pub fn is_paused(stored: &mut StoredCircuitBreakerState, now: u64) -> (r: (
    bool,
    Option<CircuitBreakerTransition<AccountId>>,
))
    ensures
        final(stored).state() == sync_step(old(stored).state(), now).0,
        r.1 == sync_step(old(stored).state(), now).1,
        r.0 == paused_at(sync_step(old(stored).state(), now).0, now),
{
    let mut state = stored.into_state();
    let transition = CircuitBreaker::sync(&mut state, now);
    let paused = CircuitBreaker::is_paused(&state, now);
    *stored = StoredCircuitBreakerState::from_state(state);
    (paused, transition)
}

/// Guard of the pausable entry points: brings the record up to date at
/// `now` and reports the transition that became due; fails with
/// `ContractPaused`, which aborts the contract call, when it is paused.
pub fn require_not_paused(stored: &mut StoredCircuitBreakerState, now: u64) -> (r: Result<
    Option<CircuitBreakerTransition<AccountId>>,
    ValidationError,
>)
    ensures
        final(stored).state() == sync_step(old(stored).state(), now).0,
        r == if paused_at(sync_step(old(stored).state(), now).0, now) {
            Err::<Option<CircuitBreakerTransition<AccountId>>, ValidationError>(ValidationError::ContractPaused)
        } else {
            Ok(sync_step(old(stored).state(), now).1)
        },
{
    let (paused, t) = is_paused(stored, now);
    if paused {
        return Err(ValidationError::ContractPaused);
    }
    Ok(t)
}

/// The stored record.
pub fn state(stored: &StoredCircuitBreakerState) -> (s: StoredCircuitBreakerState)
    ensures
        s == *stored,
{
    *stored
}

} // verus!
