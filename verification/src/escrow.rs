//! Multi-signature property escrow.
//!
//! Buyers open escrows with a replay-protected nonce, deposit towards the
//! agreed amount, and the funds are released once the escrow is fully funded,
//! its time lock has passed and enough participants have signed. Every
//! mutating entry point is gated on the shared circuit breaker.
use vstd::prelude::*;
use crate::abi::{ESCROW_V1, ESCROW_V2};
use crate::access_control::{AccessControlRole, RoleTable};
use crate::circuit_breaker::{
    CircuitBreaker, CircuitBreakerState, CircuitBreakerTransition, cleared_state, emergency_pause_step,
    pause_step, paused_at, resume_step, sync_step,
};
use crate::errors::EscrowError;
use crate::keyed_map::{AccountMap, IdMap};
use crate::risk_pool::StorageVersion;
use crate::validation::{
    AccountId, ValidationError, any_zero_account, contains_account, copy_accounts,
    is_zero_account, validate_address, validate_amount, validate_timestamp,
};

verus! {

/// Maximum number of participants of one escrow.
pub const MAX_PARTICIPANTS: u32 = 10;

/// Lifecycle of an escrow.
#[derive(Clone, Copy, Debug, PartialEq, Eq, Structural)]
pub enum EscrowStatus {
    Created,
    Funded,
    Active,
    Released,
}

/// The kinds of approval participants sign.
#[derive(Clone, Copy, Debug, PartialEq, Eq, Structural)]
pub enum ApprovalType {
    Release,
}

/// One escrow.
#[derive(Debug)]
pub struct EscrowData {
    pub id: u64,
    pub property_id: u64,
    pub buyer: AccountId,
    pub seller: AccountId,
    pub amount: i128,
    pub deposited_amount: i128,
    pub status: EscrowStatus,
    pub created_at: u64,
    pub release_time_lock: Option<u64>,
    pub participants: Vec<AccountId>,
}

/// The signers of an escrow and how many of them must approve.
#[derive(Debug)]
pub struct MultiSigConfig {
    pub required_signatures: u32,
    pub signers: Vec<AccountId>,
}

/// The value of an escrow, with its participants as a sequence.
pub struct EscrowView {
    pub id: u64,
    pub property_id: u64,
    pub buyer: AccountId,
    pub seller: AccountId,
    pub amount: i128,
    pub deposited_amount: i128,
    pub status: EscrowStatus,
    pub created_at: u64,
    pub release_time_lock: Option<u64>,
    pub participants: Seq<AccountId>,
}

/// The value of a multisig configuration.
pub struct MultiSigView {
    pub required_signatures: u32,
    pub signers: Seq<AccountId>,
}

impl View for EscrowData {
    type V = EscrowView;

    open spec fn view(&self) -> EscrowView {
        EscrowView {
            id: self.id,
            property_id: self.property_id,
            buyer: self.buyer,
            seller: self.seller,
            amount: self.amount,
            deposited_amount: self.deposited_amount,
            status: self.status,
            created_at: self.created_at,
            release_time_lock: self.release_time_lock,
            participants: self.participants@,
        }
    }
}

impl View for MultiSigConfig {
    type V = MultiSigView;

    open spec fn view(&self) -> MultiSigView {
        MultiSigView { required_signatures: self.required_signatures, signers: self.signers@ }
    }
}

impl EscrowData {
    /// A copy of the escrow.
    pub fn copy(&self) -> (r: Self)
        ensures
            r@ == self@,
    {
        EscrowData {
            id: self.id,
            property_id: self.property_id,
            buyer: self.buyer,
            seller: self.seller,
            amount: self.amount,
            deposited_amount: self.deposited_amount,
            status: self.status,
            created_at: self.created_at,
            release_time_lock: self.release_time_lock,
            participants: copy_accounts(&self.participants),
        }
    }
}

impl MultiSigConfig {
    /// A copy of the configuration.
    pub fn copy(&self) -> (r: Self)
        ensures
            r@ == self@,
    {
        MultiSigConfig {
            required_signatures: self.required_signatures,
            signers: copy_accounts(&self.signers),
        }
    }
}

/// Rejects any call while the circuit breaker holds the contract paused.
pub fn require_not_paused(breaker: &CircuitBreakerState<AccountId>, now: u64) -> (r: Result<
    (),
    ValidationError,
>)
    ensures
        r == (if paused_at(*breaker, now) {
            Err::<(), ValidationError>(ValidationError::ContractPaused)
        } else {
            Ok(())
        }),
{
    if CircuitBreaker::is_paused(breaker, now) {
        return Err(ValidationError::ContractPaused);
    }
    Ok(())
}

/// Rejects the null account.
pub fn require_non_zero_address(address: &AccountId) -> (r: Result<(), ValidationError>)
    ensures
        r == (if is_zero_account(*address) {
            Err::<(), ValidationError>(ValidationError::ZeroAddress)
        } else {
            Ok(())
        }),
{
    validate_address(address)
}

/// Rejects a zero identifier.
pub fn require_non_zero_u64(value: u64) -> (r: Result<(), ValidationError>)
    ensures
        r == (if value == 0 {
            Err::<(), ValidationError>(ValidationError::NonPositiveAmount)
        } else {
            Ok(())
        }),
{
    if value == 0 {
        return Err(ValidationError::NonPositiveAmount);
    }
    Ok(())
}

/// Rejects a zero or negative amount.
pub fn require_positive_amount(amount: i128) -> (r: Result<(), ValidationError>)
    ensures
        r == (if amount <= 0 {
            Err::<(), ValidationError>(ValidationError::NonPositiveAmount)
        } else {
            Ok(())
        }),
{
    validate_amount(amount)
}

/// Rejects a timestamp at or before `now`.
pub fn require_future_timestamp(timestamp: u64, now: u64) -> (r: Result<(), ValidationError>)
    ensures
        r == (if timestamp <= now {
            Err::<(), ValidationError>(ValidationError::InvalidTimestamp)
        } else {
            Ok(())
        }),
{
    validate_timestamp(timestamp, now)
}

/// A multisig threshold is valid when it is positive, there is at least one
/// participant, and it does not exceed the number of participants.
pub open spec fn valid_multisig(required_signatures: u32, participant_count: u32) -> bool {
    required_signatures != 0 && participant_count != 0 && required_signatures <= participant_count
}

/// Rejects an unreachable or empty multisig threshold.
pub fn require_valid_multisig(required_signatures: u32, participant_count: u32) -> (r: Result<
    (),
    ValidationError,
>)
    ensures
        r == (if valid_multisig(required_signatures, participant_count) {
            Ok::<(), ValidationError>(())
        } else {
            Err(ValidationError::InvalidMultisigConfig)
        }),
{
    if required_signatures == 0 || participant_count == 0 || required_signatures > participant_count {
        return Err(ValidationError::InvalidMultisigConfig);
    }
    Ok(())
}

/// The storage of one escrow contract.
#[derive(Debug)]
pub struct AdvancedEscrow {
    /// The escrow contract's own address.
    pub contract: AccountId,
    pub admin: Option<AccountId>,
    pub version: StorageVersion,
    pub escrow_count: u64,
    pub fee_bps: Option<u32>,
    pub roles: RoleTable,
    pub breaker: CircuitBreakerState<AccountId>,
    pub abi_min: u32,
    pub abi_current: u32,
    pub nonces: AccountMap<u64>,
    pub escrows: IdMap<EscrowData>,
    pub multisig: IdMap<MultiSigConfig>,
    /// Release signatures collected per escrow.
    pub sig_counts: IdMap<u32>,
    /// Recorded `(escrow, approval, signer)` signatures.
    pub signatures: Vec<(u64, ApprovalType, AccountId)>,
}

/// The last nonce used by `buyer` (0 when none).
pub open spec fn nonce_in(nonces: AccountMap<u64>, buyer: AccountId) -> u64 {
    match nonces.value_of(buyer) {
        Some(n) => n,
        None => 0,
    }
}

/// The escrow stored under `id`, as a value.
pub open spec fn escrow_in(escrows: IdMap<EscrowData>, id: u64) -> Option<EscrowView> {
    match escrows.value_of(id) {
        Some(e) => Some(e@),
        None => None,
    }
}

/// The multisig configuration stored under `id`, as a value.
pub open spec fn config_in(configs: IdMap<MultiSigConfig>, id: u64) -> Option<MultiSigView> {
    match configs.value_of(id) {
        Some(c) => Some(c@),
        None => None,
    }
}

/// The release signatures counted for `id` (0 when none).
pub open spec fn count_in(counts: IdMap<u32>, id: u64) -> u32 {
    match counts.value_of(id) {
        Some(c) => c,
        None => 0,
    }
}

/// Why `create_escrow_advanced` refuses the request, in the order the
/// checks are made; `None` when it succeeds.
pub open spec fn create_error(
    s: AdvancedEscrow,
    property_id: u64,
    amount: i128,
    buyer: AccountId,
    seller: AccountId,
    participants: Seq<AccountId>,
    required_signatures: u32,
    release_time_lock: Option<u64>,
    nonce: u64,
    now: u64,
) -> Option<EscrowError> {
    if paused_at(s.breaker, now) {
        Some(EscrowError::Unauthorized)
    } else if property_id == 0 {
        Some(EscrowError::InvalidNonce)
    } else if amount <= 0 {
        Some(EscrowError::DepositExceedsAmount)
    } else if nonce != nonce_in(s.nonces, buyer) + 1 {
        Some(EscrowError::InvalidNonce)
    } else if participants.len() > MAX_PARTICIPANTS {
        Some(EscrowError::TooManyParticipants)
    } else if !valid_multisig(required_signatures, participants.len() as u32) {
        Some(EscrowError::InvalidStatus)
    } else if is_zero_account(buyer) || is_zero_account(seller) || exists|k: int|
        0 <= k < participants.len() && is_zero_account(#[trigger] participants[k]) {
        Some(EscrowError::Unauthorized)
    } else if release_time_lock matches Some(t) && t <= now {
        Some(EscrowError::TimeLockActive)
    } else {
        None
    }
}

/// Why `deposit_funds` refuses the request; `None` when it succeeds.
pub open spec fn deposit_error(s: AdvancedEscrow, escrow_id: u64, amount: i128, now: u64) -> Option<
    EscrowError,
> {
    if paused_at(s.breaker, now) {
        Some(EscrowError::Unauthorized)
    } else if escrow_id == 0 {
        Some(EscrowError::EscrowNotFound)
    } else if amount <= 0 {
        Some(EscrowError::DepositExceedsAmount)
    } else {
        match escrow_in(s.escrows, escrow_id) {
            None => Some(EscrowError::EscrowNotFound),
            Some(e) => if e.status != EscrowStatus::Created && e.status != EscrowStatus::Funded {
                Some(EscrowError::InvalidStatus)
            } else if e.deposited_amount + amount > e.amount {
                Some(EscrowError::DepositExceedsAmount)
            } else {
                None
            },
        }
    }
}

/// Why `release_funds` refuses the request; `None` when it succeeds.
pub open spec fn release_error(s: AdvancedEscrow, escrow_id: u64, now: u64) -> Option<EscrowError> {
    if paused_at(s.breaker, now) {
        Some(EscrowError::Unauthorized)
    } else if escrow_id == 0 {
        Some(EscrowError::EscrowNotFound)
    } else {
        match escrow_in(s.escrows, escrow_id) {
            None => Some(EscrowError::EscrowNotFound),
            Some(e) => if e.status != EscrowStatus::Active {
                Some(EscrowError::InvalidStatus)
            } else if e.release_time_lock matches Some(t) && now < t {
                Some(EscrowError::TimeLockActive)
            } else {
                match config_in(s.multisig, escrow_id) {
                    None => Some(EscrowError::EscrowNotFound),
                    Some(c) => if count_in(s.sig_counts, escrow_id) < c.required_signatures {
                        Some(EscrowError::SignatureThresholdNotMet)
                    } else {
                        None
                    },
                }
            },
        }
    }
}

/// Why `sign_approval` refuses the request; `None` when it succeeds.
pub open spec fn sign_error(
    s: AdvancedEscrow,
    escrow_id: u64,
    approval_type: ApprovalType,
    signer: AccountId,
    now: u64,
) -> Option<EscrowError> {
    if paused_at(s.breaker, now) {
        Some(EscrowError::Unauthorized)
    } else if escrow_id == 0 {
        Some(EscrowError::EscrowNotFound)
    } else if is_zero_account(signer) {
        Some(EscrowError::Unauthorized)
    } else {
        match config_in(s.multisig, escrow_id) {
            None => Some(EscrowError::EscrowNotFound),
            Some(c) => if !c.signers.contains(signer) {
                Some(EscrowError::Unauthorized)
            } else if s.signatures@.contains((escrow_id, approval_type, signer)) {
                Some(EscrowError::AlreadySigned)
            } else {
                None
            },
        }
    }
}

/// `s1` is `s0` after a successful `create_escrow_advanced`: the counter
/// advanced to the new id, the buyer's nonce recorded, and the escrow and
/// its multisig configuration stored under the new id.
pub open spec fn create_applied(
    s0: AdvancedEscrow,
    s1: AdvancedEscrow,
    property_id: u64,
    amount: i128,
    buyer: AccountId,
    seller: AccountId,
    participants: Seq<AccountId>,
    required_signatures: u32,
    release_time_lock: Option<u64>,
    nonce: u64,
    now: u64,
) -> bool {
    let id = (s0.escrow_count + 1) as u64;
    &&& s1.escrow_count == id
    &&& s1.same_config(&s0)
    &&& s1.breaker == sync_step(s0.breaker, now).0
    &&& forall|a: AccountId| #[trigger]
        s1.nonce_of(a) == if a == buyer {
            nonce
        } else {
            s0.nonce_of(a)
        }
    &&& forall|i: u64| #[trigger]
        s1.escrow_of(i) == if i == id {
            Some(
                EscrowView {
                    id,
                    property_id,
                    buyer,
                    seller,
                    amount,
                    deposited_amount: 0,
                    status: EscrowStatus::Created,
                    created_at: now,
                    release_time_lock,
                    participants,
                },
            )
        } else {
            s0.escrow_of(i)
        }
    &&& forall|i: u64| #[trigger]
        s1.config_of(i) == if i == id {
            Some(MultiSigView { required_signatures, signers: participants })
        } else {
            s0.config_of(i)
        }
    &&& s1.sig_counts == s0.sig_counts
    &&& s1.signatures == s0.signatures
}

/// `s1` is `s0` after a successful deposit of `amount` into `escrow_id`.
pub open spec fn deposit_applied(s0: AdvancedEscrow, s1: AdvancedEscrow, escrow_id: u64, amount: i128, now: u64) -> bool {
    let e = s0.escrow_of(escrow_id).unwrap();
    let total = (e.deposited_amount + amount) as i128;
    &&& s1.same_config(&s0)
    &&& s1.breaker == sync_step(s0.breaker, now).0
    &&& s1.escrow_count == s0.escrow_count
    &&& s1.nonces == s0.nonces
    &&& s1.multisig == s0.multisig
    &&& s1.sig_counts == s0.sig_counts
    &&& s1.signatures == s0.signatures
    &&& forall|i: u64| #[trigger]
        s1.escrow_of(i) == if i == escrow_id {
            Some(
                EscrowView {
                    deposited_amount: total,
                    status: if total >= e.amount {
                        EscrowStatus::Active
                    } else {
                        EscrowStatus::Funded
                    },
                    ..e
                },
            )
        } else {
            s0.escrow_of(i)
        }
}

/// `s1` is `s0` after `escrow_id`'s funds were released.
pub open spec fn release_applied(s0: AdvancedEscrow, s1: AdvancedEscrow, escrow_id: u64, now: u64) -> bool {
    let e = s0.escrow_of(escrow_id).unwrap();
    &&& s1.same_config(&s0)
    &&& s1.breaker == sync_step(s0.breaker, now).0
    &&& s1.escrow_count == s0.escrow_count
    &&& s1.nonces == s0.nonces
    &&& s1.multisig == s0.multisig
    &&& s1.sig_counts == s0.sig_counts
    &&& s1.signatures == s0.signatures
    &&& forall|i: u64| #[trigger]
        s1.escrow_of(i) == if i == escrow_id {
            Some(
                EscrowView {
                    deposited_amount: 0,
                    status: EscrowStatus::Released,
                    ..e
                },
            )
        } else {
            s0.escrow_of(i)
        }
}

/// `s1` is `s0` after `signer`'s approval of `escrow_id` was recorded.
pub open spec fn sign_applied(
    s0: AdvancedEscrow,
    s1: AdvancedEscrow,
    escrow_id: u64,
    approval_type: ApprovalType,
    signer: AccountId,
    now: u64,
) -> bool {
    &&& s1.same_config(&s0)
    &&& s1.breaker == sync_step(s0.breaker, now).0
    &&& s1.escrow_count == s0.escrow_count
    &&& s1.nonces == s0.nonces
    &&& s1.escrows == s0.escrows
    &&& s1.multisig == s0.multisig
    &&& s1.signatures@ == s0.signatures@.push(
        (escrow_id, approval_type, signer),
    )
    &&& forall|i: u64| #[trigger]
        s1.sig_count_of(i) == if i == escrow_id {
            (s0.sig_count_of(escrow_id) + 1) as u32
        } else {
            s0.sig_count_of(i)
        }
}

impl AdvancedEscrow {
    /// The last nonce used by `buyer`.
    pub open spec fn nonce_of(&self, buyer: AccountId) -> u64 {
        nonce_in(self.nonces, buyer)
    }

    /// The release signatures counted for `id`.
    pub open spec fn sig_count_of(&self, id: u64) -> u32 {
        count_in(self.sig_counts, id)
    }

    /// The escrow stored under `id`.
    pub open spec fn escrow_of(&self, id: u64) -> Option<EscrowView> {
        escrow_in(self.escrows, id)
    }

    /// The multisig configuration stored under `id`.
    pub open spec fn config_of(&self, id: u64) -> Option<MultiSigView> {
        config_in(self.multisig, id)
    }

    /// The escrow's configuration outside the per-escrow records and the
    /// breaker is unchanged.
    pub open spec fn same_config(&self, other: &AdvancedEscrow) -> bool {
        &&& self.contract == other.contract
        &&& self.admin == other.admin
        &&& self.version == other.version
        &&& self.fee_bps == other.fee_bps
        &&& self.roles == other.roles
        &&& self.abi_min == other.abi_min
        &&& self.abi_current == other.abi_current
    }

    /// The storage of an escrow contract at `contract` before `init`.
    pub fn new(contract: AccountId) -> (e: Self)
        ensures
            e.contract == contract,
            e.admin.is_none(),
            e.version == StorageVersion::V1,
            e.escrow_count == 0,
            e.fee_bps.is_none(),
            forall|a: AccountId, r: AccessControlRole| !e.roles.holds(a, r),
            e.breaker == cleared_state::<AccountId>(),
            e.abi_min == 0,
            e.abi_current == 0,
            forall|a: AccountId| e.nonce_of(a) == 0,
            forall|id: u64| e.escrow_of(id).is_none(),
            forall|id: u64| e.config_of(id).is_none(),
            forall|id: u64| e.sig_count_of(id) == 0,
            e.signatures@.len() == 0,
    {
        AdvancedEscrow {
            contract,
            admin: None,
            version: StorageVersion::V1,
            escrow_count: 0,
            fee_bps: None,
            roles: RoleTable::new(),
            breaker: CircuitBreakerState {
                pause_scheduled_at: None,
                pause_activates_at: None,
                pause_until: None,
                rescheduled_by: None,
                resume_scheduled_at: None,
                emergency_paused: false,
                activation_announced: false,
            },
            abi_min: 0,
            abi_current: 0,
            nonces: AccountMap::new(),
            escrows: IdMap::new(),
            multisig: IdMap::new(),
            sig_counts: IdMap::new(),
            signatures: Vec::new(),
        }
    }

    /// Set up the contract once with `admin`.
    ///
    /// Fails with `ZeroAddress` for the null admin and when the contract is
    /// already initialised. On success the escrow counter and fee are reset,
    /// the circuit breaker is cleared, and ABI `1.0` is advertised.
    pub fn init(&mut self, admin: AccountId) -> (r: Result<(), ValidationError>)
        ensures
            (is_zero_account(admin) || old(self).admin.is_some()) ==> r == Err::<
                (),
                ValidationError,
            >(ValidationError::ZeroAddress) && *final(self) == *old(self),
            !(is_zero_account(admin) || old(self).admin.is_some()) ==> {
                &&& r is Ok
                &&& final(self).admin == Some(admin)
                &&& final(self).version == StorageVersion::V2
                &&& final(self).escrow_count == 0
                &&& final(self).fee_bps == Some(0u32)
                &&& final(self).breaker == cleared_state::<AccountId>()
                &&& final(self).abi_min == ESCROW_V1
                &&& final(self).abi_current == ESCROW_V1
                &&& forall|a: AccountId, role: AccessControlRole|
                    final(self).roles.holds(a, role) <==> (old(self).roles.holds(a, role) || (a
                        == admin && role == AccessControlRole::Admin))
                &&& final(self).contract == old(self).contract
                &&& final(self).nonces == old(self).nonces
                &&& final(self).escrows == old(self).escrows
                &&& final(self).multisig == old(self).multisig
                &&& final(self).sig_counts == old(self).sig_counts
                &&& final(self).signatures == old(self).signatures
            },
    {
        validate_address(&admin)?;
        if self.admin.is_some() {
            return Err(ValidationError::ZeroAddress);
        }
        self.admin = Some(admin);
        self.version = StorageVersion::current();
        self.escrow_count = 0;
        self.fee_bps = Some(0);
        self.roles.init_access_control(&admin);
        self.breaker = CircuitBreakerState {
            pause_scheduled_at: None,
            pause_activates_at: None,
            pause_until: None,
            rescheduled_by: None,
            resume_scheduled_at: None,
            emergency_paused: false,
            activation_announced: false,
        };
        self.abi_min = ESCROW_V1;
        self.abi_current = ESCROW_V1;
        Ok(())
    }

    /// Governance schedules a timed pause of `duration_seconds`.
    pub fn pause(&mut self, governance: AccountId, duration_seconds: u64, now: u64) -> (r: Result<
        CircuitBreakerTransition<AccountId>,
        EscrowError,
    >)
        requires
            old(self).roles.holds(governance, AccessControlRole::Governance),
            pause_step(old(self).breaker, now, duration_seconds, governance).1 is Ok,
        ensures
            r == Ok::<CircuitBreakerTransition<AccountId>, EscrowError>(
                pause_step(old(self).breaker, now, duration_seconds, governance).1->Ok_0,
            ),
            final(self).breaker == pause_step(old(self).breaker, now, duration_seconds, governance).0,
            final(self).same_config(old(self)),
    {
        match CircuitBreaker::pause(&mut self.breaker, now, duration_seconds, governance) {
            Ok(t) => Ok(t),
            Err(_) => Err(EscrowError::InvalidStatus),
        }
    }

    /// The admin's resume protocol (schedule, then activate after the
    /// resume timelock).
    pub fn resume(&mut self, admin: AccountId, now: u64) -> (r: Result<
        CircuitBreakerTransition<AccountId>,
        EscrowError,
    >)
        requires
            old(self).roles.holds(admin, AccessControlRole::Admin),
            resume_step(old(self).breaker, now, admin).1 is Ok,
        ensures
            r == Ok::<CircuitBreakerTransition<AccountId>, EscrowError>(
                resume_step(old(self).breaker, now, admin).1->Ok_0,
            ),
            final(self).breaker == resume_step(old(self).breaker, now, admin).0,
            final(self).same_config(old(self)),
    {
        match CircuitBreaker::resume(&mut self.breaker, now, admin) {
            Ok(t) => Ok(t),
            Err(_) => Err(EscrowError::InvalidStatus),
        }
    }

    /// Governance pauses the contract at once, with no expiry.
    pub fn emergency_pause(&mut self, governance: AccountId, now: u64) -> (r: (
        CircuitBreakerTransition<AccountId>,
        CircuitBreakerTransition<AccountId>,
    ))
        requires
            old(self).roles.holds(governance, AccessControlRole::Governance),
        ensures
            (final(self).breaker, r) == emergency_pause_step(old(self).breaker, now, governance),
            final(self).same_config(old(self)),
    {
        CircuitBreaker::emergency_pause(&mut self.breaker, now, governance)
    }

    /// Whether the contract is paused at `now`; brings the breaker's record
    /// up to date first.
    pub fn is_paused(&mut self, now: u64) -> (r: bool)
        ensures
            r == paused_at(old(self).breaker, now),
            final(self).breaker == sync_step(old(self).breaker, now).0,
            final(self).same_config(old(self)),
    {
        let paused = CircuitBreaker::is_paused(&self.breaker, now);
        let _ = CircuitBreaker::sync(&mut self.breaker, now);
        paused
    }

    /// Position of an escrow's nonce: the last nonce used by `buyer`.
    fn current_nonce(&self, buyer: &AccountId) -> (n: u64)
        ensures
            n == self.nonce_of(*buyer),
    {
        match self.nonces.get(buyer) {
            Some(n) => n,
            None => 0,
        }
    }

    /// Open an escrow of `amount` for `property_id` between `buyer` and
    /// `seller`, released by `required_signatures` of `participants`.
    ///
    /// `nonce` must be one more than the buyer's last nonce. Returns the new
    /// escrow's id, one more than the previous count.
    pub fn create_escrow_advanced(
        &mut self,
        property_id: u64,
        amount: i128,
        buyer: AccountId,
        seller: AccountId,
        participants: Vec<AccountId>,
        required_signatures: u32,
        release_time_lock: Option<u64>,
        nonce: u64,
        now: u64,
    ) -> (r: Result<u64, EscrowError>)
        requires
            old(self).nonce_of(buyer) < u64::MAX,
            old(self).escrow_count < u64::MAX,
        ensures
            match create_error(
                *old(self),
                property_id,
                amount,
                buyer,
                seller,
                participants@,
                required_signatures,
                release_time_lock,
                nonce,
                now,
            ) {
                Some(e) => r == Err::<u64, EscrowError>(e) && *final(self) == *old(self),
                None => r == Ok::<u64, EscrowError>((old(self).escrow_count + 1) as u64)
                    && create_applied(
                    *old(self),
                    *final(self),
                    property_id,
                    amount,
                    buyer,
                    seller,
                    participants@,
                    required_signatures,
                    release_time_lock,
                    nonce,
                    now,
                ),
            },
    {
        if require_not_paused(&self.breaker, now).is_err() {
            return Err(EscrowError::Unauthorized);
        }
        if require_non_zero_u64(property_id).is_err() {
            return Err(EscrowError::InvalidNonce);
        }
        if require_positive_amount(amount).is_err() {
            return Err(EscrowError::DepositExceedsAmount);
        }
        let current_nonce = self.current_nonce(&buyer);
        if nonce != current_nonce + 1 {
            return Err(EscrowError::InvalidNonce);
        }
        if participants.len() > MAX_PARTICIPANTS as usize {
            return Err(EscrowError::TooManyParticipants);
        }
        if require_valid_multisig(required_signatures, participants.len() as u32).is_err() {
            return Err(EscrowError::InvalidStatus);
        }
        if require_non_zero_address(&buyer).is_err() {
            return Err(EscrowError::Unauthorized);
        }
        if require_non_zero_address(&seller).is_err() {
            return Err(EscrowError::Unauthorized);
        }
        if any_zero_account(&participants) {
            return Err(EscrowError::Unauthorized);
        }
        if let Some(time_lock) = release_time_lock {
            if require_future_timestamp(time_lock, now).is_err() {
                return Err(EscrowError::TimeLockActive);
            }
        }
        let _ = CircuitBreaker::sync(&mut self.breaker, now);
        self.nonces.insert(&buyer, nonce);
        let count = self.escrow_count + 1;
        self.escrow_count = count;
        let signers = copy_accounts(&participants);
        let escrow_data = EscrowData {
            id: count,
            property_id,
            buyer,
            seller,
            amount,
            deposited_amount: 0,
            status: EscrowStatus::Created,
            created_at: now,
            release_time_lock,
            participants,
        };
        self.escrows.insert(count, escrow_data);
        self.multisig.insert(count, MultiSigConfig { required_signatures, signers });
        Ok(count)
    }

    /// Deposit `amount` towards escrow `escrow_id`.
    ///
    /// The escrow becomes `Active` once fully funded and `Funded` before;
    /// deposits past the agreed amount are refused.
    pub fn deposit_funds(&mut self, escrow_id: u64, amount: i128, now: u64) -> (r: Result<
        (),
        EscrowError,
    >)
        ensures
            match deposit_error(*old(self), escrow_id, amount, now) {
                Some(e) => r == Err::<(), EscrowError>(e) && *final(self) == *old(self),
                None => r is Ok && deposit_applied(*old(self), *final(self), escrow_id, amount, now),
            },
    {
        if require_not_paused(&self.breaker, now).is_err() {
            return Err(EscrowError::Unauthorized);
        }
        if require_non_zero_u64(escrow_id).is_err() {
            return Err(EscrowError::EscrowNotFound);
        }
        if require_positive_amount(amount).is_err() {
            return Err(EscrowError::DepositExceedsAmount);
        }
        let mut escrow = match self.escrows.get(escrow_id) {
            Some(e) => e.copy(),
            None => return Err(EscrowError::EscrowNotFound),
        };
        if escrow.status != EscrowStatus::Created && escrow.status != EscrowStatus::Funded {
            return Err(EscrowError::InvalidStatus);
        }
        let new_deposit_total = match escrow.deposited_amount.checked_add(amount) {
            Some(t) => t,
            None => return Err(EscrowError::DepositExceedsAmount),
        };
        if new_deposit_total > escrow.amount {
            return Err(EscrowError::DepositExceedsAmount);
        }
        escrow.deposited_amount = new_deposit_total;
        escrow.status = if escrow.deposited_amount >= escrow.amount {
            EscrowStatus::Active
        } else {
            EscrowStatus::Funded
        };
        let _ = CircuitBreaker::sync(&mut self.breaker, now);
        self.escrows.insert(escrow_id, escrow);
        Ok(())
    }

    /// The release signatures counted for `escrow_id`.
    fn release_signatures(&self, escrow_id: u64) -> (c: u32)
        ensures
            c == self.sig_count_of(escrow_id),
    {
        match self.sig_counts.get(escrow_id) {
            Some(c) => *c,
            None => 0,
        }
    }

    /// Release the funds of a fully funded escrow whose time lock has passed
    /// and whose release has been signed by enough participants.
    pub fn release_funds(&mut self, escrow_id: u64, now: u64) -> (r: Result<(), EscrowError>)
        ensures
            match release_error(*old(self), escrow_id, now) {
                Some(e) => r == Err::<(), EscrowError>(e) && *final(self) == *old(self),
                None => r is Ok && release_applied(*old(self), *final(self), escrow_id, now),
            },
    {
        if require_not_paused(&self.breaker, now).is_err() {
            return Err(EscrowError::Unauthorized);
        }
        if require_non_zero_u64(escrow_id).is_err() {
            return Err(EscrowError::EscrowNotFound);
        }
        let mut escrow = match self.escrows.get(escrow_id) {
            Some(e) => e.copy(),
            None => return Err(EscrowError::EscrowNotFound),
        };
        if escrow.status != EscrowStatus::Active {
            return Err(EscrowError::InvalidStatus);
        }
        if let Some(time_lock) = escrow.release_time_lock {
            if now < time_lock {
                return Err(EscrowError::TimeLockActive);
            }
        }
        let sig_count = self.release_signatures(escrow_id);
        let required = match self.multisig.get(escrow_id) {
            Some(c) => c.required_signatures,
            None => return Err(EscrowError::EscrowNotFound),
        };
        if sig_count < required {
            return Err(EscrowError::SignatureThresholdNotMet);
        }
        escrow.status = EscrowStatus::Released;
        escrow.deposited_amount = 0;
        let _ = CircuitBreaker::sync(&mut self.breaker, now);
        self.escrows.insert(escrow_id, escrow);
        Ok(())
    }

    /// Whether `signer` already signed `approval_type` for `escrow_id`.
    fn has_signed(&self, escrow_id: u64, approval_type: ApprovalType, signer: &AccountId) -> (r: bool)
        ensures
            r == self.signatures@.contains((escrow_id, approval_type, *signer)),
    {
        let mut i: usize = 0;
        while i < self.signatures.len()
            invariant
                i <= self.signatures@.len(),
                forall|k: int|
                    0 <= k < i ==> self.signatures@[k] != (escrow_id, approval_type, *signer),
            decreases self.signatures@.len() - i,
        {
            let (id, t, who) = self.signatures[i];
            if id == escrow_id && t == approval_type && crate::validation::same_account(&who, signer) {
                assert(self.signatures@[i as int] == (escrow_id, approval_type, *signer));
                return true;
            }
            i = i + 1;
        }
        false
    }

    /// Record `signer`'s approval of `escrow_id`; each participant signs at
    /// most once.
    pub fn sign_approval(
        &mut self,
        escrow_id: u64,
        approval_type: ApprovalType,
        signer: AccountId,
        now: u64,
    ) -> (r: Result<(), EscrowError>)
        requires
            old(self).sig_count_of(escrow_id) < u32::MAX,
        ensures
            match sign_error(*old(self), escrow_id, approval_type, signer, now) {
                Some(e) => r == Err::<(), EscrowError>(e) && *final(self) == *old(self),
                None => r is Ok && sign_applied(*old(self), *final(self), escrow_id, approval_type, signer, now),
            },
    {
        if require_not_paused(&self.breaker, now).is_err() {
            return Err(EscrowError::Unauthorized);
        }
        if require_non_zero_u64(escrow_id).is_err() {
            return Err(EscrowError::EscrowNotFound);
        }
        if require_non_zero_address(&signer).is_err() {
            return Err(EscrowError::Unauthorized);
        }
        let is_signer = match self.multisig.get(escrow_id) {
            Some(c) => contains_account(&c.signers, &signer),
            None => return Err(EscrowError::EscrowNotFound),
        };
        if !is_signer {
            return Err(EscrowError::Unauthorized);
        }
        if self.has_signed(escrow_id, approval_type, &signer) {
            return Err(EscrowError::AlreadySigned);
        }
        let _ = CircuitBreaker::sync(&mut self.breaker, now);
        self.signatures.push((escrow_id, approval_type, signer));
        let count = self.release_signatures(escrow_id) + 1;
        self.sig_counts.insert(escrow_id, count);
        Ok(())
    }

    /// Move the storage layout forward to `to_version` (admin only).
    ///
    /// Fails with `Unauthorized` for the null admin; migrating to the current
    /// layout is a no-op and migrating backwards fails with `InvalidStatus`.
    /// `V1 -> V2` adds the fee entry (0 unless present) and advertises ABI
    /// `1.1` while still serving `1.0`.
    pub fn migrate(&mut self, admin: AccountId, to_version: StorageVersion) -> (r: Result<
        (),
        EscrowError,
    >)
        requires
            is_zero_account(admin) || old(self).roles.holds(admin, AccessControlRole::Admin),
        ensures
            is_zero_account(admin) ==> r == Err::<(), EscrowError>(EscrowError::Unauthorized)
                && *final(self) == *old(self),
            !is_zero_account(admin) && to_version == old(self).version ==> r is Ok && *final(self)
                == *old(self),
            !is_zero_account(admin) && to_version.rank() < old(self).version.rank() ==> r
                == Err::<(), EscrowError>(EscrowError::InvalidStatus) && *final(self) == *old(self),
            !is_zero_account(admin) && to_version.rank() > old(self).version.rank() ==> {
                &&& r is Ok
                &&& final(self).version == to_version
                &&& final(self).fee_bps == Some(
                    match old(self).fee_bps {
                        Some(f) => f,
                        None => 0u32,
                    },
                )
                &&& final(self).abi_min == ESCROW_V1
                &&& final(self).abi_current == ESCROW_V2
                &&& final(self).contract == old(self).contract
                &&& final(self).admin == old(self).admin
                &&& final(self).roles == old(self).roles
                &&& final(self).breaker == old(self).breaker
                &&& final(self).escrow_count == old(self).escrow_count
                &&& final(self).nonces == old(self).nonces
                &&& final(self).escrows == old(self).escrows
                &&& final(self).multisig == old(self).multisig
                &&& final(self).sig_counts == old(self).sig_counts
                &&& final(self).signatures == old(self).signatures
            },
    {
        if require_non_zero_address(&admin).is_err() {
            return Err(EscrowError::Unauthorized);
        }
        match (self.version, to_version) {
            (StorageVersion::V1, StorageVersion::V2) => {
                if self.fee_bps.is_none() {
                    self.fee_bps = Some(0);
                }
                self.version = StorageVersion::V2;
                self.abi_min = ESCROW_V1;
                self.abi_current = ESCROW_V2;
                Ok(())
            },
            (StorageVersion::V2, StorageVersion::V1) => Err(EscrowError::InvalidStatus),
            _ => Ok(()),
        }
    }

    /// The storage layout in use.
    pub fn version(&self) -> (v: StorageVersion)
        ensures
            v == self.version,
    {
        self.version
    }

    /// The escrow's state commitment: it is never refreshed, so it stays
    /// all-zero.
    pub fn get_state_root(&self) -> (r: [u8; 32])
        ensures
            r@ == Seq::new(32, |i: int| 0u8),
    {
        let zero = [0u8; 32];
        assert(zero@ =~= Seq::new(32, |i: int| 0u8));
        zero
    }

    /// The packed `(min, current)` ABI range; `(0, 0)` before `init`.
    pub fn get_supported_abis(&self) -> (r: (u32, u32))
        ensures
            r == (self.abi_min, self.abi_current),
    {
        (self.abi_min, self.abi_current)
    }

    /// The fee in basis points (0 when unset).
    pub fn get_fee_bps(&self) -> (f: u32)
        ensures
            f == match self.fee_bps {
                Some(f) => f,
                None => 0u32,
            },
    {
        match self.fee_bps {
            Some(f) => f,
            None => 0,
        }
    }

    /// Grant `role` to `addr` (the host checks the admin's authorisation).
    pub fn set_role(&mut self, addr: AccountId, role: AccessControlRole) -> (r: Result<
        (),
        EscrowError,
    >)
        ensures
            r is Ok,
            forall|a: AccountId, q: AccessControlRole|
                final(self).roles.holds(a, q) <==> (old(self).roles.holds(a, q) || (a == addr
                    && q == role)),
    {
        self.roles.set_role(&addr, role);
        Ok(())
    }

    /// The escrow stored under `escrow_id`.
    pub fn get_escrow(&self, escrow_id: u64) -> (r: Option<EscrowData>)
        ensures
            match r {
                Some(e) => self.escrow_of(escrow_id) == Some(e@),
                None => self.escrow_of(escrow_id).is_none(),
            },
    {
        match self.escrows.get(escrow_id) {
            Some(e) => Some(e.copy()),
            None => None,
        }
    }

    /// The number of escrows created since `init`.
    pub fn get_escrow_count(&self) -> (c: u64)
        ensures
            c == self.escrow_count,
    {
        self.escrow_count
    }

    /// The multisig configuration of `escrow_id`.
    pub fn get_multisig_config(&self, escrow_id: u64) -> (r: Option<MultiSigConfig>)
        ensures
            match r {
                Some(c) => self.config_of(escrow_id) == Some(c@),
                None => self.config_of(escrow_id).is_none(),
            },
    {
        match self.multisig.get(escrow_id) {
            Some(c) => Some(c.copy()),
            None => None,
        }
    }

    /// The signatures counted for `escrow_id`'s `approval_type`.
    pub fn get_sig_count(&self, escrow_id: u64, approval_type: ApprovalType) -> (c: u32)
        ensures
            c == self.sig_count_of(escrow_id),
    {
        self.release_signatures(escrow_id)
    }

    /// The last nonce used by `address` (0 when none).
    pub fn get_nonce(&self, address: AccountId) -> (n: u64)
        ensures
            n == self.nonce_of(address),
    {
        self.current_nonce(&address)
    }
}

/// The escrow, if any, holds between nothing and its agreed amount.
pub open spec fn holds_within_amount(e: Option<EscrowView>) -> bool {
    e matches Some(e) ==> 0 <= e.deposited_amount <= e.amount
}

/// Every stored escrow holds between nothing and its agreed amount.
pub open spec fn deposits_within_amount(s: AdvancedEscrow) -> bool {
    forall|id: u64| #[trigger] holds_within_amount(s.escrow_of(id))
}

/// A fresh contract holds no escrow, so no deposit exceeds its amount.
pub proof fn law_fresh_escrow_deposits_within_amount(s: AdvancedEscrow)
    requires
        forall|id: u64| s.escrow_of(id).is_none(),
    ensures
        deposits_within_amount(s),
{
}

/// Creating, funding and releasing escrows never lets a deposit exceed the
/// escrow's agreed amount or go negative.
pub proof fn law_deposits_stay_within_amount(
    s0: AdvancedEscrow,
    s1: AdvancedEscrow,
    property_id: u64,
    amount: i128,
    buyer: AccountId,
    seller: AccountId,
    participants: Seq<AccountId>,
    required_signatures: u32,
    release_time_lock: Option<u64>,
    nonce: u64,
    escrow_id: u64,
    deposit: i128,
    now: u64,
)
    requires
        deposits_within_amount(s0),
        (create_error(s0, property_id, amount, buyer, seller, participants, required_signatures, release_time_lock, nonce, now) is None
            && create_applied(s0, s1, property_id, amount, buyer, seller, participants, required_signatures, release_time_lock, nonce, now))
        || (deposit_error(s0, escrow_id, deposit, now) is None && deposit_applied(s0, s1, escrow_id, deposit, now))
        || (release_error(s0, escrow_id, now) is None && release_applied(s0, s1, escrow_id, now)),
    ensures
        deposits_within_amount(s1),
{
    assert forall|id: u64| #[trigger] holds_within_amount(s1.escrow_of(id)) by {
        assert(holds_within_amount(s0.escrow_of(id)));
        assert(holds_within_amount(s0.escrow_of(escrow_id)));
    }
}

/// Once an escrow was created with a nonce, the same request can never
/// succeed again.
pub proof fn law_nonce_cannot_be_replayed(
    s0: AdvancedEscrow,
    s1: AdvancedEscrow,
    property_id: u64,
    amount: i128,
    buyer: AccountId,
    seller: AccountId,
    participants: Seq<AccountId>,
    required_signatures: u32,
    release_time_lock: Option<u64>,
    nonce: u64,
    now: u64,
    later: u64,
)
    requires
        create_error(s0, property_id, amount, buyer, seller, participants, required_signatures, release_time_lock, nonce, now) is None,
        create_applied(s0, s1, property_id, amount, buyer, seller, participants, required_signatures, release_time_lock, nonce, now),
    ensures
        create_error(s1, property_id, amount, buyer, seller, participants, required_signatures, release_time_lock, nonce, later) is Some,
{
    assert(s1.nonce_of(buyer) == nonce);
}

/// A participant's approval counts once: after it was recorded, the same
/// signature is refused at any later time.
pub proof fn law_signer_cannot_sign_twice(
    s0: AdvancedEscrow,
    s1: AdvancedEscrow,
    escrow_id: u64,
    approval_type: ApprovalType,
    signer: AccountId,
    now: u64,
    later: u64,
)
    requires
        sign_error(s0, escrow_id, approval_type, signer, now) is None,
        sign_applied(s0, s1, escrow_id, approval_type, signer, now),
    ensures
        sign_error(s1, escrow_id, approval_type, signer, later) is Some,
{
    assert(s1.signatures@[s0.signatures@.len() as int] == (escrow_id, approval_type, signer));
}

/// The number of recorded signatures for `id`.
pub open spec fn recorded_signatures(s: AdvancedEscrow, id: u64) -> nat {
    s.signatures@.filter(|g: (u64, ApprovalType, AccountId)| g.0 == id).len()
}

/// Each escrow's signature count stays the number of signatures recorded
/// for it: every successful signature keeps that agreement.
pub proof fn law_sig_count_matches_recorded_signatures(
    s0: AdvancedEscrow,
    s1: AdvancedEscrow,
    escrow_id: u64,
    approval_type: ApprovalType,
    signer: AccountId,
    now: u64,
)
    requires
        forall|id: u64| #[trigger] s0.sig_count_of(id) == recorded_signatures(s0, id),
        sign_applied(s0, s1, escrow_id, approval_type, signer, now),
        s0.sig_count_of(escrow_id) < u32::MAX,
    ensures
        forall|id: u64| #[trigger] s1.sig_count_of(id) == recorded_signatures(s1, id),
{
    let g = (escrow_id, approval_type, signer);
    assert forall|id: u64| #[trigger] s1.sig_count_of(id) == recorded_signatures(s1, id) by {
        let pred = |x: (u64, ApprovalType, AccountId)| x.0 == id;
        s0.signatures@.lemma_filter_push(g, pred);
        assert(s0.sig_count_of(id) == recorded_signatures(s0, id));
    }
}

/// The configured signers of escrow `id` that have signed its release.
pub open spec fn signed_by(s: AdvancedEscrow, id: u64) -> Set<AccountId> {
    match s.config_of(id) {
        Some(c) => c.signers.to_set().filter(
            |a: AccountId| s.signatures@.contains((id, ApprovalType::Release, a)),
        ),
        None => Set::empty(),
    }
}

/// The signature bookkeeping is consistent: configurations and signatures
/// belong to escrows already created, and each escrow's count is the number
/// of distinct configured signers that signed it.
pub open spec fn signatures_consistent(s: AdvancedEscrow) -> bool {
    &&& forall|id: u64| #[trigger] s.config_of(id) is Some ==> 1 <= id <= s.escrow_count
    &&& forall|k: int| 0 <= k < s.signatures@.len() ==> 1 <= #[trigger] s.signatures@[k].0 <= s.escrow_count
    &&& forall|id: u64| #[trigger] s.sig_count_of(id) == signed_by(s, id).len()
}

/// A contract without escrows, signatures or counts is consistent.
pub proof fn law_fresh_escrow_signatures_consistent(s: AdvancedEscrow)
    requires
        forall|id: u64| s.config_of(id).is_none(),
        s.signatures@.len() == 0,
        forall|id: u64| s.sig_count_of(id) == 0,
    ensures
        signatures_consistent(s),
{
    assert forall|id: u64| #[trigger] s.sig_count_of(id) == signed_by(s, id).len() by {
        assert(s.config_of(id).is_none());
        assert(s.sig_count_of(id) == 0);
    }
}

/// Creating, funding, releasing and signing keep each escrow's signature
/// count equal to the number of distinct configured signers that signed it.
pub proof fn law_signatures_stay_consistent(
    s0: AdvancedEscrow,
    s1: AdvancedEscrow,
    property_id: u64,
    amount: i128,
    buyer: AccountId,
    seller: AccountId,
    participants: Seq<AccountId>,
    required_signatures: u32,
    release_time_lock: Option<u64>,
    nonce: u64,
    escrow_id: u64,
    deposit: i128,
    approval_type: ApprovalType,
    signer: AccountId,
    now: u64,
)
    requires
        signatures_consistent(s0),
        (create_error(s0, property_id, amount, buyer, seller, participants, required_signatures, release_time_lock, nonce, now) is None
            && create_applied(s0, s1, property_id, amount, buyer, seller, participants, required_signatures, release_time_lock, nonce, now)
            && s0.escrow_count < u64::MAX)
        || (deposit_error(s0, escrow_id, deposit, now) is None && deposit_applied(s0, s1, escrow_id, deposit, now))
        || (release_error(s0, escrow_id, now) is None && release_applied(s0, s1, escrow_id, now))
        || (sign_error(s0, escrow_id, approval_type, signer, now) is None
            && sign_applied(s0, s1, escrow_id, approval_type, signer, now)
            && s0.sig_count_of(escrow_id) < u32::MAX),
    ensures
        signatures_consistent(s1),
{
    broadcast use vstd::set::group_set_axioms, vstd::seq_lib::seq_to_set_is_finite;
    if sign_error(s0, escrow_id, approval_type, signer, now) is None
        && sign_applied(s0, s1, escrow_id, approval_type, signer, now)
        && s0.sig_count_of(escrow_id) < u32::MAX {
        let g = (escrow_id, approval_type, signer);
        assert(approval_type == ApprovalType::Release);
        let c = s0.config_of(escrow_id).unwrap();
        assert(s1.config_of(escrow_id) == Some(c));
        assert forall|id: u64| #[trigger] s1.config_of(id) is Some implies 1 <= id <= s1.escrow_count by {
            assert(s1.config_of(id) == s0.config_of(id));
        }
        assert forall|k: int| 0 <= k < s1.signatures@.len() implies 1 <= #[trigger] s1.signatures@[k].0
            <= s1.escrow_count by {
            if k < s0.signatures@.len() {
                assert(s1.signatures@[k] == s0.signatures@[k]);
            }
        }
        assert forall|id: u64| #[trigger] s1.sig_count_of(id) == signed_by(s1, id).len() by {
            assert(s1.config_of(id) == s0.config_of(id));
            assert(s0.sig_count_of(id) == signed_by(s0, id).len());
            if id == escrow_id {
                let before = signed_by(s0, id);
                c.signers.to_set().lemma_len_filter(
                    |a: AccountId| s0.signatures@.contains((id, ApprovalType::Release, a)),
                );
                assert(!before.contains(signer));
                assert(c.signers.to_set().contains(signer));
                assert forall|a: AccountId| #[trigger] signed_by(s1, id).contains(a) == before.insert(signer).contains(a) by {
                    if s1.signatures@.contains((id, ApprovalType::Release, a)) {
                        let k = choose|k: int| 0 <= k < s1.signatures@.len() && s1.signatures@[k] == (id, ApprovalType::Release, a);
                        if k < s0.signatures@.len() {
                            assert(s0.signatures@[k] == s1.signatures@[k]);
                        }
                    }
                    if s0.signatures@.contains((id, ApprovalType::Release, a)) {
                        let k = choose|k: int| 0 <= k < s0.signatures@.len() && s0.signatures@[k] == (id, ApprovalType::Release, a);
                        assert(s1.signatures@[k] == s0.signatures@[k]);
                    }
                    if a == signer {
                        assert(s1.signatures@[s0.signatures@.len() as int] == g);
                    }
                }
                assert(signed_by(s1, id) =~= before.insert(signer));
            } else {
                assert forall|a: AccountId| #[trigger] signed_by(s1, id).contains(a) == signed_by(s0, id).contains(a) by {
                    if s1.signatures@.contains((id, ApprovalType::Release, a)) {
                        let k = choose|k: int| 0 <= k < s1.signatures@.len() && s1.signatures@[k] == (id, ApprovalType::Release, a);
                        if k < s0.signatures@.len() {
                            assert(s0.signatures@[k] == s1.signatures@[k]);
                        }
                    }
                    if s0.signatures@.contains((id, ApprovalType::Release, a)) {
                        let k = choose|k: int| 0 <= k < s0.signatures@.len() && s0.signatures@[k] == (id, ApprovalType::Release, a);
                        assert(s1.signatures@[k] == s0.signatures@[k]);
                    }
                }
                assert(signed_by(s1, id) =~= signed_by(s0, id));
            }
        }
    } else if create_error(s0, property_id, amount, buyer, seller, participants, required_signatures, release_time_lock, nonce, now) is None
        && create_applied(s0, s1, property_id, amount, buyer, seller, participants, required_signatures, release_time_lock, nonce, now)
        && s0.escrow_count < u64::MAX {
        let n = s1.escrow_count;
        assert(n == s0.escrow_count + 1);
        if s0.config_of(n) is Some {
            assert(n <= s0.escrow_count);
        }
        assert forall|id: u64| #[trigger] s1.config_of(id) is Some implies 1 <= id <= s1.escrow_count by {
            if id != n {
                assert(s1.config_of(id) == s0.config_of(id));
            }
        }
        assert forall|id: u64| #[trigger] s1.sig_count_of(id) == signed_by(s1, id).len() by {
            assert(s0.sig_count_of(id) == signed_by(s0, id).len());
            if id == n {
                assert forall|a: AccountId| !#[trigger] s1.signatures@.contains((id, ApprovalType::Release, a)) by {
                    if s1.signatures@.contains((id, ApprovalType::Release, a)) {
                        let k = choose|k: int| 0 <= k < s1.signatures@.len() && s1.signatures@[k] == (id, ApprovalType::Release, a);
                        assert(1 <= s0.signatures@[k].0 <= s0.escrow_count);
                    }
                }
                assert(signed_by(s1, id) =~= Set::<AccountId>::empty());
            } else {
                assert(signed_by(s1, id) =~= signed_by(s0, id));
            }
        }
        assert forall|k: int| 0 <= k < s1.signatures@.len() implies 1 <= #[trigger] s1.signatures@[k].0
            <= s1.escrow_count by {
            assert(s1.signatures@[k] == s0.signatures@[k]);
        }
    } else {
        assert(s1.escrow_count == s0.escrow_count);
        assert(s1.signatures == s0.signatures);
        assert(s1.multisig == s0.multisig);
        assert forall|id: u64| #[trigger] s1.config_of(id) is Some implies 1 <= id <= s1.escrow_count by {
            assert(s1.config_of(id) == s0.config_of(id));
        }
        assert forall|id: u64| #[trigger] s1.sig_count_of(id) == signed_by(s1, id).len() by {
            assert(s0.sig_count_of(id) == signed_by(s0, id).len());
            assert(signed_by(s1, id) =~= signed_by(s0, id));
        }
    }
}

/// An escrow's signature count never exceeds the number of its configured
/// signers.
pub proof fn law_sig_count_within_signers(s: AdvancedEscrow, id: u64)
    requires
        signatures_consistent(s),
        s.config_of(id) is Some,
    ensures
        s.sig_count_of(id) <= s.config_of(id).unwrap().signers.len(),
{
    broadcast use vstd::seq_lib::seq_to_set_is_finite;
    let c = s.config_of(id).unwrap();
    assert(s.sig_count_of(id) == signed_by(s, id).len());
    c.signers.to_set().lemma_len_filter(|a: AccountId| s.signatures@.contains((id, ApprovalType::Release, a)));
    c.signers.lemma_cardinality_of_set();
}

/// A successful creation consumes exactly the buyer's next nonce: any other
/// nonce is refused, and afterwards the buyer's last nonce is one higher.
pub proof fn law_create_consumes_next_nonce(
    s0: AdvancedEscrow,
    s1: AdvancedEscrow,
    property_id: u64,
    amount: i128,
    buyer: AccountId,
    seller: AccountId,
    participants: Seq<AccountId>,
    required_signatures: u32,
    release_time_lock: Option<u64>,
    nonce: u64,
    now: u64,
)
    ensures
        create_error(s0, property_id, amount, buyer, seller, participants, required_signatures, release_time_lock, nonce, now) is None
            ==> nonce == s0.nonce_of(buyer) + 1,
        nonce != s0.nonce_of(buyer) + 1 ==> create_error(s0, property_id, amount, buyer, seller, participants, required_signatures, release_time_lock, nonce, now) is Some,
        create_error(s0, property_id, amount, buyer, seller, participants, required_signatures, release_time_lock, nonce, now) is None
            && create_applied(s0, s1, property_id, amount, buyer, seller, participants, required_signatures, release_time_lock, nonce, now)
            ==> s1.nonce_of(buyer) == s0.nonce_of(buyer) + 1,
{
}

} // verus!
