//! Shared, auditable pause protocol used by every contract.
//!
//! A pure state machine: the host contract performs role checks and emits
//! the returned transitions as events.
use vstd::prelude::*;

verus! {

/// Delay between a governance pause request and activation.
pub const PAUSE_TIMELOCK_SECONDS: u64 = 3_600;
/// Delay between an admin resume request and activation.
pub const RESUME_TIMELOCK_SECONDS: u64 = 3_600;

#[derive(Clone, Debug, Eq, PartialEq)]
pub enum CircuitBreakerError {
    InvalidDuration,
    EmergencyPauseActive,
    NotPaused,
    ResumeTimelockActive,
    TimestampOverflow,
}

#[derive(Clone, Debug, Eq, PartialEq)]
pub enum CircuitBreakerTransition<AccountId> {
    PauseScheduled {
        scheduled_by: AccountId,
        scheduled_at: u64,
        activates_at: u64,
        pause_until: Option<u64>,
        rescheduled_by: Option<AccountId>,
    },
    PauseActivated { activated_at: u64, pause_until: Option<u64>, emergency: bool },
    ResumeScheduled { scheduled_by: AccountId, scheduled_at: u64, activates_at: u64 },
    ResumeActivated { activated_by: Option<AccountId>, activated_at: u64, automatic: bool },
}

#[derive(Clone, Debug, Eq, PartialEq)]
pub struct CircuitBreakerState<AccountId> {
    pub pause_scheduled_at: Option<u64>,
    pub pause_activates_at: Option<u64>,
    pub pause_until: Option<u64>,
    pub rescheduled_by: Option<AccountId>,
    pub resume_scheduled_at: Option<u64>,
    pub emergency_paused: bool,
    pub activation_announced: bool,
}

/// The state with no pause scheduled, active or being resumed.
pub open spec fn cleared_state<AccountId>() -> CircuitBreakerState<AccountId> {
    CircuitBreakerState {
        pause_scheduled_at: None,
        pause_activates_at: None,
        pause_until: None,
        rescheduled_by: None,
        resume_scheduled_at: None,
        emergency_paused: false,
        activation_announced: false,
    }
}

impl<AccountId> Default for CircuitBreakerState<AccountId> {
    fn default() -> (s: Self)
        ensures
            s == cleared_state::<AccountId>(),
    {
        CircuitBreakerState {
            pause_scheduled_at: None,
            pause_activates_at: None,
            pause_until: None,
            rescheduled_by: None,
            resume_scheduled_at: None,
            emergency_paused: false,
            activation_announced: false,
        }
    }
}

/// The effective pause state at time `now`: an emergency pause, or a timed
/// window `[activates_at, until)` that contains `now`.
pub open spec fn paused_at<AccountId>(state: CircuitBreakerState<AccountId>, now: u64) -> bool {
    state.emergency_paused || match (state.pause_activates_at, state.pause_until) {
        (Some(activates_at), Some(until)) => activates_at <= now && now < until,
        _ => false,
    }
}

/// Structural invariant kept by every operation: a schedule has an
/// activation time; an emergency pause is activated and has no end; a timed
/// pause ends strictly after it activates; a resume is only pending while a
/// pause is scheduled.
pub open spec fn well_formed<AccountId>(state: CircuitBreakerState<AccountId>) -> bool {
    &&& state.pause_scheduled_at.is_some() == state.pause_activates_at.is_some()
    &&& state.emergency_paused ==> state.pause_scheduled_at.is_some() && state.pause_until.is_none()
    &&& (!state.emergency_paused && state.pause_activates_at.is_some()) ==> (
    match (state.pause_activates_at, state.pause_until) {
        (Some(a), Some(u)) => a < u,
        _ => false,
    })
    &&& state.resume_scheduled_at.is_some() ==> state.pause_scheduled_at.is_some()
    &&& state.pause_scheduled_at.is_none() ==> state == cleared_state::<AccountId>()
}

/// What `pause` does: the new state and the returned transition or error.
pub open spec fn pause_step<AccountId>(
    old: CircuitBreakerState<AccountId>,
    now: u64,
    duration_seconds: u64,
    scheduled_by: AccountId,
) -> (CircuitBreakerState<AccountId>, Result<CircuitBreakerTransition<AccountId>, CircuitBreakerError>) {
    if duration_seconds == 0 {
        (old, Err(CircuitBreakerError::InvalidDuration))
    } else if old.emergency_paused {
        (old, Err(CircuitBreakerError::EmergencyPauseActive))
    } else {
        let currently_paused = paused_at(old, now);
        let activates_at: int = if currently_paused { now as int } else { now + PAUSE_TIMELOCK_SECONDS };
        let requested_until: int = activates_at + duration_seconds;
        if requested_until > u64::MAX {
            (old, Err(CircuitBreakerError::TimestampOverflow))
        } else {
            let pause_until: int = if currently_paused {
                match old.pause_until {
                    Some(u) => if u > requested_until { u as int } else { requested_until },
                    None => requested_until,
                }
            } else {
                requested_until
            };
            let rescheduled_by = if old.pause_scheduled_at.is_some() {
                Some(scheduled_by)
            } else {
                None
            };
            let new_state = CircuitBreakerState {
                pause_scheduled_at: Some(now),
                pause_activates_at: Some(activates_at as u64),
                pause_until: Some(pause_until as u64),
                rescheduled_by,
                resume_scheduled_at: None,
                emergency_paused: false,
                activation_announced: if currently_paused { old.activation_announced } else { false },
            };
            (
                new_state,
                Ok(
                    CircuitBreakerTransition::PauseScheduled {
                        scheduled_by,
                        scheduled_at: now,
                        activates_at: activates_at as u64,
                        pause_until: Some(pause_until as u64),
                        rescheduled_by,
                    },
                ),
            )
        }
    }
}

/// What `resume` does: the new state and the returned transition or error.
pub open spec fn resume_step<AccountId>(
    old: CircuitBreakerState<AccountId>,
    now: u64,
    admin: AccountId,
) -> (CircuitBreakerState<AccountId>, Result<CircuitBreakerTransition<AccountId>, CircuitBreakerError>) {
    if old.pause_scheduled_at.is_none() && !old.emergency_paused {
        (old, Err(CircuitBreakerError::NotPaused))
    } else {
        match old.resume_scheduled_at {
            None => if now + RESUME_TIMELOCK_SECONDS > u64::MAX {
                (old, Err(CircuitBreakerError::TimestampOverflow))
            } else {
                (
                    CircuitBreakerState { resume_scheduled_at: Some(now), ..old },
                    Ok(
                        CircuitBreakerTransition::ResumeScheduled {
                            scheduled_by: admin,
                            scheduled_at: now,
                            activates_at: (now + RESUME_TIMELOCK_SECONDS) as u64,
                        },
                    ),
                )
            },
            Some(scheduled_at) => if scheduled_at + RESUME_TIMELOCK_SECONDS > u64::MAX {
                (old, Err(CircuitBreakerError::TimestampOverflow))
            } else if now < scheduled_at + RESUME_TIMELOCK_SECONDS {
                (old, Err(CircuitBreakerError::ResumeTimelockActive))
            } else {
                (
                    cleared_state::<AccountId>(),
                    Ok(
                        CircuitBreakerTransition::ResumeActivated {
                            activated_by: Some(admin),
                            activated_at: now,
                            automatic: false,
                        },
                    ),
                )
            },
        }
    }
}

/// What `emergency_pause` does: the new state and the two transitions.
pub open spec fn emergency_pause_step<AccountId>(
    old: CircuitBreakerState<AccountId>,
    now: u64,
    scheduled_by: AccountId,
) -> (CircuitBreakerState<AccountId>, (CircuitBreakerTransition<AccountId>, CircuitBreakerTransition<AccountId>)) {
    let rescheduled_by = if old.pause_scheduled_at.is_some() || old.emergency_paused {
        Some(scheduled_by)
    } else {
        None
    };
    (
        CircuitBreakerState {
            pause_scheduled_at: Some(now),
            pause_activates_at: Some(now),
            pause_until: None,
            rescheduled_by,
            resume_scheduled_at: None,
            emergency_paused: true,
            activation_announced: true,
        },
        (
            CircuitBreakerTransition::PauseScheduled {
                scheduled_by,
                scheduled_at: now,
                activates_at: now,
                pause_until: None,
                rescheduled_by,
            },
            CircuitBreakerTransition::PauseActivated { activated_at: now, pause_until: None, emergency: true },
        ),
    )
}

/// What `sync` does: an automatic expiry clears a due timed window; a newly
/// effective pause is announced once; otherwise nothing changes.
pub open spec fn sync_step<AccountId>(old: CircuitBreakerState<AccountId>, now: u64) -> (
    CircuitBreakerState<AccountId>,
    Option<CircuitBreakerTransition<AccountId>>,
) {
    if !old.emergency_paused && old.pause_until.is_some() && now >= old.pause_until->0 {
        (
            cleared_state::<AccountId>(),
            Some(
                CircuitBreakerTransition::ResumeActivated {
                    activated_by: None,
                    activated_at: now,
                    automatic: true,
                },
            ),
        )
    } else if paused_at(old, now) && !old.activation_announced {
        (
            CircuitBreakerState { activation_announced: true, ..old },
            Some(
                CircuitBreakerTransition::PauseActivated {
                    activated_at: now,
                    pause_until: old.pause_until,
                    emergency: old.emergency_paused,
                },
            ),
        )
    } else {
        (old, None)
    }
}

/// The cleared (default) state is well formed.
pub proof fn law_cleared_state_well_formed<AccountId>()
    ensures
        well_formed(cleared_state::<AccountId>()),
{
}

/// Every operation keeps the structural invariant `well_formed`.
pub proof fn law_operations_preserve_well_formed<AccountId>(
    old: CircuitBreakerState<AccountId>,
    now: u64,
    duration_seconds: u64,
    caller: AccountId,
)
    requires
        well_formed(old),
    ensures
        well_formed(pause_step(old, now, duration_seconds, caller).0),
        well_formed(resume_step(old, now, caller).0),
        well_formed(emergency_pause_step(old, now, caller).0),
        well_formed(sync_step(old, now).0),
{
}

/// A pause scheduled while the contract is not paused takes effect exactly
/// at the end of the pause timelock and lasts exactly `duration_seconds`.
pub proof fn law_pause_waits_for_timelock<AccountId>(
    old: CircuitBreakerState<AccountId>,
    now: u64,
    duration_seconds: u64,
    caller: AccountId,
)
    requires
        !paused_at(old, now),
        pause_step(old, now, duration_seconds, caller).1 is Ok,
    ensures
        forall|t: u64|
            paused_at(#[trigger] pause_step(old, now, duration_seconds, caller).0, t) <==> (now
                + PAUSE_TIMELOCK_SECONDS <= t && t < now + PAUSE_TIMELOCK_SECONDS + duration_seconds),
{
}

/// Rescheduling an active timed pause can only extend it: every instant
/// from `now` on that was paused stays paused.
pub proof fn law_reschedule_never_shortens_active_pause<AccountId>(
    old: CircuitBreakerState<AccountId>,
    now: u64,
    duration_seconds: u64,
    caller: AccountId,
)
    requires
        paused_at(old, now),
        pause_step(old, now, duration_seconds, caller).1 is Ok,
    ensures
        forall|t: u64|
            now <= t && paused_at(old, t) ==> paused_at(
                #[trigger] pause_step(old, now, duration_seconds, caller).0,
                t,
            ),
{
}

/// A normal pause can never replace an emergency pause: it is refused and
/// the state is left unchanged.
pub proof fn law_emergency_pause_cannot_be_rescheduled<AccountId>(
    old: CircuitBreakerState<AccountId>,
    now: u64,
    duration_seconds: u64,
    caller: AccountId,
)
    requires
        old.emergency_paused,
        duration_seconds > 0,
    ensures
        pause_step(old, now, duration_seconds, caller) == (
            old,
            Err::<CircuitBreakerTransition<AccountId>, CircuitBreakerError>(
                CircuitBreakerError::EmergencyPauseActive,
            ),
        ),
{
}

/// An emergency pause is effective at once and at every later instant, and
/// the automatic expiry in `sync` never ends it.
pub proof fn law_emergency_pause_has_no_expiry<AccountId>(
    old: CircuitBreakerState<AccountId>,
    now: u64,
    caller: AccountId,
)
    ensures
        forall|t: u64| paused_at(#[trigger] emergency_pause_step(old, now, caller).0, t),
        forall|t: u64| (#[trigger] sync_step(emergency_pause_step(old, now, caller).0, t)).0.emergency_paused,
{
}

/// The first resume call only records the request: the pause in force is
/// the same at every instant as before.
pub proof fn law_first_resume_only_schedules<AccountId>(
    old: CircuitBreakerState<AccountId>,
    now: u64,
    admin: AccountId,
)
    requires
        old.resume_scheduled_at.is_none(),
    ensures
        forall|t: u64| paused_at(#[trigger] resume_step(old, now, admin).0, t) == paused_at(old, t),
        resume_step(old, now, admin).1 is Ok ==> resume_step(old, now, admin).0 == (
        CircuitBreakerState { resume_scheduled_at: Some(now), ..old }),
{
}

/// A second resume call before the resume timelock expires is refused and
/// changes nothing; at or after the deadline it clears every pause.
pub proof fn law_resume_timelock<AccountId>(
    old: CircuitBreakerState<AccountId>,
    now: u64,
    admin: AccountId,
    requested_at: u64,
)
    requires
        well_formed(old),
        old.resume_scheduled_at == Some(requested_at),
        requested_at + RESUME_TIMELOCK_SECONDS <= u64::MAX,
    ensures
        now < requested_at + RESUME_TIMELOCK_SECONDS ==> resume_step(old, now, admin) == (
            old,
            Err::<CircuitBreakerTransition<AccountId>, CircuitBreakerError>(
                CircuitBreakerError::ResumeTimelockActive,
            ),
        ),
        now >= requested_at + RESUME_TIMELOCK_SECONDS ==> resume_step(old, now, admin).0 == cleared_state::<
            AccountId,
        >() && forall|t: u64| !paused_at(#[trigger] resume_step(old, now, admin).0, t),
{
}

/// Synchronizing never changes whether the contract is paused at `now`.
pub proof fn law_sync_preserves_effective_state<AccountId>(
    old: CircuitBreakerState<AccountId>,
    now: u64,
)
    ensures
        paused_at(sync_step(old, now).0, now) == paused_at(old, now),
{
}

/// Each due transition is materialized once: a second `sync` at the same
/// time reports nothing and changes nothing.
pub proof fn law_sync_reports_each_transition_once<AccountId>(
    old: CircuitBreakerState<AccountId>,
    now: u64,
)
    ensures
        sync_step(sync_step(old, now).0, now) == (
            sync_step(old, now).0,
            None::<CircuitBreakerTransition<AccountId>>,
        ),
{
}

/// Pure state machine. Host contracts provide role checks and event emission.
pub struct CircuitBreaker;

impl CircuitBreaker {
    /// Governance schedules (or atomically reschedules) a timed pause of
    /// `duration_seconds`, starting after the pause timelock.
    pub fn pause<AccountId: Copy>(
        state: &mut CircuitBreakerState<AccountId>,
        now: u64,
        duration_seconds: u64,
        scheduled_by: AccountId,
    ) -> (r: Result<CircuitBreakerTransition<AccountId>, CircuitBreakerError>)
        ensures
            (*final(state), r) == pause_step(*old(state), now, duration_seconds, scheduled_by),
    {
        if duration_seconds == 0 {
            return Err(CircuitBreakerError::InvalidDuration);
        }
        if state.emergency_paused {
            return Err(CircuitBreakerError::EmergencyPauseActive);
        }
        let was_scheduled = state.pause_scheduled_at.is_some() || state.emergency_paused;
        let currently_paused = Self::is_paused(state, now);
        let activates_at = if currently_paused {
            now
        } else {
            match now.checked_add(PAUSE_TIMELOCK_SECONDS) {
                Some(t) => t,
                None => {
                    return Err(CircuitBreakerError::TimestampOverflow);
                },
            }
        };
        let requested_until = match activates_at.checked_add(duration_seconds) {
            Some(t) => t,
            None => {
                return Err(CircuitBreakerError::TimestampOverflow);
            },
        };
        let pause_until = if currently_paused {
            let previous = match state.pause_until {
                Some(u) => u,
                None => requested_until,
            };
            if previous > requested_until {
                previous
            } else {
                requested_until
            }
        } else {
            requested_until
        };
        let rescheduled_by = if was_scheduled {
            Some(scheduled_by)
        } else {
            None
        };
        state.pause_scheduled_at = Some(now);
        state.pause_activates_at = Some(activates_at);
        state.pause_until = Some(pause_until);
        state.rescheduled_by = rescheduled_by;
        state.resume_scheduled_at = None;
        state.emergency_paused = false;
        if !currently_paused {
            state.activation_announced = false;
        }
        Ok(
            CircuitBreakerTransition::PauseScheduled {
                scheduled_by,
                scheduled_at: now,
                activates_at,
                pause_until: Some(pause_until),
                rescheduled_by,
            },
        )
    }

    /// Admin resume protocol: the first call schedules the resume, a call at
    /// or after the resume timelock clears the pause.
    pub fn resume<AccountId: Copy>(
        state: &mut CircuitBreakerState<AccountId>,
        now: u64,
        admin: AccountId,
    ) -> (r: Result<CircuitBreakerTransition<AccountId>, CircuitBreakerError>)
        ensures
            (*final(state), r) == resume_step(*old(state), now, admin),
    {
        if state.pause_scheduled_at.is_none() && !state.emergency_paused {
            return Err(CircuitBreakerError::NotPaused);
        }
        match state.resume_scheduled_at {
            None => {
                let activates_at = match now.checked_add(RESUME_TIMELOCK_SECONDS) {
                    Some(t) => t,
                    None => {
                        return Err(CircuitBreakerError::TimestampOverflow);
                    },
                };
                state.resume_scheduled_at = Some(now);
                Ok(CircuitBreakerTransition::ResumeScheduled { scheduled_by: admin, scheduled_at: now, activates_at })
            },
            Some(scheduled_at) => {
                let activates_at = match scheduled_at.checked_add(RESUME_TIMELOCK_SECONDS) {
                    Some(t) => t,
                    None => {
                        return Err(CircuitBreakerError::TimestampOverflow);
                    },
                };
                if now < activates_at {
                    return Err(CircuitBreakerError::ResumeTimelockActive);
                }
                Self::clear(state);
                Ok(
                    CircuitBreakerTransition::ResumeActivated {
                        activated_by: Some(admin),
                        activated_at: now,
                        automatic: false,
                    },
                )
            },
        }
    }

    /// The effective pause state at `now`.
    pub fn is_paused<AccountId>(state: &CircuitBreakerState<AccountId>, now: u64) -> (r: bool)
        ensures
            r == paused_at(*state, now),
    {
        if state.emergency_paused {
            return true;
        }
        match (state.pause_activates_at, state.pause_until) {
            (Some(activates_at), Some(until)) => now >= activates_at && now < until,
            _ => false,
        }
    }

    /// Governance activates an emergency pause at once; it has no expiry.
    pub fn emergency_pause<AccountId: Copy>(
        state: &mut CircuitBreakerState<AccountId>,
        now: u64,
        scheduled_by: AccountId,
    ) -> (r: (CircuitBreakerTransition<AccountId>, CircuitBreakerTransition<AccountId>))
        ensures
            (*final(state), r) == emergency_pause_step(*old(state), now, scheduled_by),
    {
        let rescheduled_by = if state.pause_scheduled_at.is_some() || state.emergency_paused {
            Some(scheduled_by)
        } else {
            None
        };
        state.pause_scheduled_at = Some(now);
        state.pause_activates_at = Some(now);
        state.pause_until = None;
        state.rescheduled_by = rescheduled_by;
        state.resume_scheduled_at = None;
        state.emergency_paused = true;
        state.activation_announced = true;
        (
            CircuitBreakerTransition::PauseScheduled {
                scheduled_by,
                scheduled_at: now,
                activates_at: now,
                pause_until: None,
                rescheduled_by,
            },
            CircuitBreakerTransition::PauseActivated { activated_at: now, pause_until: None, emergency: true },
        )
    }

    /// Materialize a due activation or automatic timed expiry for audit emission.
    pub fn sync<AccountId: Copy>(state: &mut CircuitBreakerState<AccountId>, now: u64) -> (r: Option<
        CircuitBreakerTransition<AccountId>,
    >)
        ensures
            (*final(state), r) == sync_step(*old(state), now),
    {
        if !state.emergency_paused {
            if let Some(until) = state.pause_until {
                if now >= until {
                    Self::clear(state);
                    return Some(
                        CircuitBreakerTransition::ResumeActivated {
                            activated_by: None,
                            activated_at: now,
                            automatic: true,
                        },
                    );
                }
            }
        }
        if Self::is_paused(state, now) && !state.activation_announced {
            state.activation_announced = true;
            return Some(
                CircuitBreakerTransition::PauseActivated {
                    activated_at: now,
                    pause_until: state.pause_until,
                    emergency: state.emergency_paused,
                },
            );
        }
        None
    }

    fn clear<AccountId>(state: &mut CircuitBreakerState<AccountId>)
        ensures
            *final(state) == cleared_state::<AccountId>(),
    {
        state.pause_scheduled_at = None;
        state.pause_activates_at = None;
        state.pause_until = None;
        state.rescheduled_by = None;
        state.resume_scheduled_at = None;
        state.emergency_paused = false;
        state.activation_announced = false;
    }
}

/// The breaker as a storage item of an ink! contract, with account ids as
/// `AccountId`.
#[derive(Debug)]
pub struct InkCircuitBreaker {
    pub pause_scheduled_at: Option<u64>,
    pub pause_activates_at: Option<u64>,
    pub pause_until: Option<u64>,
    pub rescheduled_by: Option<crate::validation::AccountId>,
    pub resume_scheduled_at: Option<u64>,
    pub emergency_paused: bool,
    pub activation_announced: bool,
}

impl InkCircuitBreaker {
    /// The stored fields as a breaker state.
    pub open spec fn as_state(&self) -> CircuitBreakerState<crate::validation::AccountId> {
        CircuitBreakerState {
            pause_scheduled_at: self.pause_scheduled_at,
            pause_activates_at: self.pause_activates_at,
            pause_until: self.pause_until,
            rescheduled_by: self.rescheduled_by,
            resume_scheduled_at: self.resume_scheduled_at,
            emergency_paused: self.emergency_paused,
            activation_announced: self.activation_announced,
        }
    }

    /// A cleared breaker.
    pub fn new() -> (b: Self)
        ensures
            b.as_state() == cleared_state::<crate::validation::AccountId>(),
    {
        InkCircuitBreaker {
            pause_scheduled_at: None,
            pause_activates_at: None,
            pause_until: None,
            rescheduled_by: None,
            resume_scheduled_at: None,
            emergency_paused: false,
            activation_announced: false,
        }
    }

    fn state(&self) -> (s: CircuitBreakerState<crate::validation::AccountId>)
        ensures
            s == self.as_state(),
    {
        CircuitBreakerState {
            pause_scheduled_at: self.pause_scheduled_at,
            pause_activates_at: self.pause_activates_at,
            pause_until: self.pause_until,
            rescheduled_by: self.rescheduled_by,
            resume_scheduled_at: self.resume_scheduled_at,
            emergency_paused: self.emergency_paused,
            activation_announced: self.activation_announced,
        }
    }

    fn store(&mut self, state: CircuitBreakerState<crate::validation::AccountId>)
        ensures
            final(self).as_state() == state,
    {
        self.pause_scheduled_at = state.pause_scheduled_at;
        self.pause_activates_at = state.pause_activates_at;
        self.pause_until = state.pause_until;
        self.rescheduled_by = state.rescheduled_by;
        self.resume_scheduled_at = state.resume_scheduled_at;
        self.emergency_paused = state.emergency_paused;
        self.activation_announced = state.activation_announced;
    }

    /// Schedule a timed pause; a refused request leaves the breaker as it was.
    pub fn pause(&mut self, now: u64, duration_seconds: u64, scheduled_by: crate::validation::AccountId) -> (r: Result<
        CircuitBreakerTransition<crate::validation::AccountId>,
        CircuitBreakerError,
    >)
        ensures
            r == pause_step(old(self).as_state(), now, duration_seconds, scheduled_by).1,
            r is Ok ==> final(self).as_state() == pause_step(old(self).as_state(), now, duration_seconds, scheduled_by).0,
            r is Err ==> final(self).as_state() == old(self).as_state(),
    {
        let mut state = self.state();
        let transition = CircuitBreaker::pause(&mut state, now, duration_seconds, scheduled_by);
        if transition.is_ok() {
            self.store(state);
        }
        transition
    }

    /// The admin's resume protocol; a refused request leaves the breaker as
    /// it was.
    pub fn resume(&mut self, now: u64, admin: crate::validation::AccountId) -> (r: Result<
        CircuitBreakerTransition<crate::validation::AccountId>,
        CircuitBreakerError,
    >)
        ensures
            r == resume_step(old(self).as_state(), now, admin).1,
            r is Ok ==> final(self).as_state() == resume_step(old(self).as_state(), now, admin).0,
            r is Err ==> final(self).as_state() == old(self).as_state(),
    {
        let mut state = self.state();
        let transition = CircuitBreaker::resume(&mut state, now, admin);
        if transition.is_ok() {
            self.store(state);
        }
        transition
    }

    /// Whether the contract is paused at `now`.
    pub fn is_paused(&self, now: u64) -> (r: bool)
        ensures
            r == paused_at(self.as_state(), now),
    {
        CircuitBreaker::is_paused(&self.state(), now)
    }

    /// Pause at once, with no expiry.
    pub fn emergency_pause(&mut self, now: u64, scheduled_by: crate::validation::AccountId) -> (r: (
        CircuitBreakerTransition<crate::validation::AccountId>,
        CircuitBreakerTransition<crate::validation::AccountId>,
    ))
        ensures
            (final(self).as_state(), r) == emergency_pause_step(old(self).as_state(), now, scheduled_by),
    {
        let mut state = self.state();
        let transitions = CircuitBreaker::emergency_pause(&mut state, now, scheduled_by);
        self.store(state);
        transitions
    }

    /// Record a due activation or expiry.
    pub fn sync(&mut self, now: u64) -> (r: Option<CircuitBreakerTransition<crate::validation::AccountId>>)
        ensures
            (final(self).as_state(), r) == sync_step(old(self).as_state(), now),
    {
        let mut state = self.state();
        let transition = CircuitBreaker::sync(&mut state, now);
        self.store(state);
        transition
    }
}

/// Extending an active timed pause honours both windows: from `now` on, the
/// contract is paused exactly while the old pause was, or until `now` plus
/// the requested duration, whichever is later.
pub proof fn law_active_pause_is_extended<AccountId>(
    old: CircuitBreakerState<AccountId>,
    now: u64,
    duration_seconds: u64,
    caller: AccountId,
)
    requires
        paused_at(old, now),
        pause_step(old, now, duration_seconds, caller).1 is Ok,
    ensures
        forall|t: u64|
            now <= t ==> (paused_at(#[trigger] pause_step(old, now, duration_seconds, caller).0, t)
                <==> (paused_at(old, t) || t < now + duration_seconds)),
        forall|t: u64|
            now <= t < now + duration_seconds ==> paused_at(
                #[trigger] pause_step(old, now, duration_seconds, caller).0,
                t,
            ),
{
}

} // verus!
