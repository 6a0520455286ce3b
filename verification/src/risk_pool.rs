//! The risk pool: liquidity providers stake capital that pays out claims.
//!
//! The pool's storage is held as plain values. Token movements are not
//! performed here: each operation that moves tokens returns the
//! [`TokenTransfer`] that the host must carry out.
use vstd::prelude::*;
use crate::abi::{RISK_POOL_V1, RISK_POOL_V2};
use crate::access_control::{AccessControlRole, RoleTable};
use crate::keyed_map::AccountMap;
use crate::errors::RiskPoolError;
use crate::state_root::{compute_root, fnv_hash_fn, merkle_root, views};
use crate::validation::{AccountId, copy_slice};

verus! {

/// Storage layout version of the pool.
#[derive(Clone, Copy, Debug, PartialEq, Eq, Structural, PartialOrd, Ord)]
pub enum StorageVersion {
    V1,
    V2,
}

impl StorageVersion {
    /// The position of the version in the upgrade order (`V1` is 1).
    pub open spec fn rank(self) -> int {
        match self {
            StorageVersion::V1 => 1,
            StorageVersion::V2 => 2,
        }
    }

    /// The layout that a freshly initialised pool uses.
    pub fn current() -> (v: Self)
        ensures
            v == StorageVersion::V2,
    {
        StorageVersion::V2
    }

    /// The version number stored on the wire.
    pub fn number(&self) -> (n: u32)
        ensures
            n == self.rank(),
    {
        match self {
            StorageVersion::V1 => 1,
            StorageVersion::V2 => 2,
        }
    }
}

/// Aggregate capital figures of the pool.
#[derive(Clone, Copy, Debug, PartialEq, Eq, Structural)]
pub struct PoolStats {
    pub total_capital: i128,
    pub available_capital: i128,
    pub total_claims_paid: i128,
}

/// A token transfer that the host performs for a successful operation.
#[derive(Clone, Copy, Debug, PartialEq, Eq)]
pub struct TokenTransfer {
    pub token: AccountId,
    pub from: AccountId,
    pub to: AccountId,
    pub amount: i128,
}

/// The storage of one risk-pool contract.
#[derive(Clone, Debug)]
pub struct RiskPoolContract {
    /// The pool contract's own address.
    pub contract: AccountId,
    pub admin: Option<AccountId>,
    pub token: Option<AccountId>,
    pub min_stake: Option<i128>,
    pub total_capital: i128,
    pub available_capital: i128,
    pub claims_paid: i128,
    pub stakes: AccountMap<i128>,
    pub version: StorageVersion,
    pub locked_capital: Option<i128>,
    pub roles: RoleTable,
    /// Packed oldest ABI version served; 0 until registered.
    pub abi_min: u32,
    /// Packed current ABI version; 0 until registered.
    pub abi_current: u32,
}

/// The stake recorded for `provider` (0 when none is recorded).
pub open spec fn stake_in(stakes: AccountMap<i128>, provider: AccountId) -> i128 {
    match stakes.value_of(provider) {
        Some(s) => s,
        None => 0,
    }
}

/// Fits in an `i128`.
pub open spec fn in_i128(x: int) -> bool {
    i128::MIN <= x <= i128::MAX
}

/// Every stake other than `account`'s is unchanged, and `account`'s
/// changed by `delta`.
pub open spec fn stake_shifted(old: RiskPoolContract, new: RiskPoolContract, account: AccountId, delta: int) -> bool {
    forall|a: AccountId| #[trigger]
        new.stake_of(a) == if a == account {
            old.stake_of(account) + delta
        } else {
            old.stake_of(a) as int
        }
}

/// `new` is `old` after a successful deposit of `amount` by `provider`:
/// the pool is initialised, `amount` reaches the minimum stake, and the
/// stake and both capital figures grow by `amount`.
pub open spec fn deposit_done(old: RiskPoolContract, new: RiskPoolContract, provider: AccountId, amount: int) -> bool {
    &&& old.min_stake matches Some(m) && amount >= m
    &&& old.token is Some
    &&& new.same_except_stakes(&old)
    &&& new.total_capital == old.total_capital + amount
    &&& new.available_capital == old.available_capital + amount
    &&& stake_shifted(old, new, provider, amount)
}

/// `new` is `old` after a successful withdrawal of `amount` by `provider`:
/// stake and available capital both cover `amount`, and the stake and both
/// capital figures shrink by `amount`.
pub open spec fn withdraw_done(old: RiskPoolContract, new: RiskPoolContract, provider: AccountId, amount: int) -> bool {
    &&& old.stake_of(provider) >= amount
    &&& old.available_capital >= amount
    &&& old.token is Some
    &&& new.same_except_stakes(&old)
    &&& new.total_capital == old.total_capital - amount
    &&& new.available_capital == old.available_capital - amount
    &&& stake_shifted(old, new, provider, -amount)
}

/// `new` is `old` after a successful claim payout of `amount`: available
/// capital covers it, and moves into the paid-out total.
pub open spec fn payout_done(old: RiskPoolContract, new: RiskPoolContract, amount: int) -> bool {
    &&& old.available_capital >= amount
    &&& old.token is Some
    &&& new.stakes == old.stakes
    &&& new.total_capital == old.total_capital
    &&& new.available_capital == old.available_capital - amount
    &&& new.claims_paid == old.claims_paid + amount
    &&& new.contract == old.contract
    &&& new.admin == old.admin
    &&& new.token == old.token
    &&& new.min_stake == old.min_stake
    &&& new.version == old.version
    &&& new.locked_capital == old.locked_capital
    &&& new.roles == old.roles
    &&& new.abi_min == old.abi_min
    &&& new.abi_current == old.abi_current
}

/// `new` is `old` after `amount` of `target`'s stake was forfeited to the
/// pool's available capital.
pub open spec fn slash_done(old: RiskPoolContract, new: RiskPoolContract, target: AccountId, amount: int) -> bool {
    &&& amount > 0
    &&& old.stake_of(target) >= amount
    &&& new.same_except_stakes(&old)
    &&& new.total_capital == old.total_capital
    &&& new.available_capital == old.available_capital + amount
    &&& stake_shifted(old, new, target, -amount)
}

impl RiskPoolContract {
    /// The stake recorded for `provider`.
    pub open spec fn stake_of(&self, provider: AccountId) -> i128 {
        stake_in(self.stakes, provider)
    }

    /// The aggregate figures.
    pub open spec fn stats(&self) -> PoolStats {
        PoolStats {
            total_capital: self.total_capital,
            available_capital: self.available_capital,
            total_claims_paid: self.claims_paid,
        }
    }

    /// Everything but the stakes is as in `other`.
    pub open spec fn same_except_stakes(&self, other: &RiskPoolContract) -> bool {
        &&& self.contract == other.contract
        &&& self.admin == other.admin
        &&& self.token == other.token
        &&& self.min_stake == other.min_stake
        &&& self.claims_paid == other.claims_paid
        &&& self.version == other.version
        &&& self.locked_capital == other.locked_capital
        &&& self.roles == other.roles
        &&& self.abi_min == other.abi_min
        &&& self.abi_current == other.abi_current
    }

    /// The storage of a pool contract at `contract` before `initialize`.
    pub fn new(contract: AccountId) -> (p: Self)
        ensures
            p.contract == contract,
            p.admin.is_none(),
            p.token.is_none(),
            p.min_stake.is_none(),
            p.total_capital == 0,
            p.available_capital == 0,
            p.claims_paid == 0,
            forall|a: AccountId| p.stake_of(a) == 0,
            p.version == StorageVersion::V1,
            p.locked_capital.is_none(),
            forall|a: AccountId, r: AccessControlRole| !p.roles.holds(a, r),
            p.abi_min == 0,
            p.abi_current == 0,
    {
        RiskPoolContract {
            contract,
            admin: None,
            token: None,
            min_stake: None,
            total_capital: 0,
            available_capital: 0,
            claims_paid: 0,
            stakes: AccountMap::new(),
            version: StorageVersion::V1,
            locked_capital: None,
            roles: RoleTable::new(),
            abi_min: 0,
            abi_current: 0,
        }
    }

    /// Set up the pool once: admin, token, minimum stake, zeroed capital,
    /// the current layout, the admin role and the ABI range `1.0..=1.0`.
    pub fn initialize(&mut self, admin: AccountId, token: AccountId, min_stake: i128) -> (r: Result<
        (),
        RiskPoolError,
    >)
        ensures
            old(self).admin.is_some() ==> r == Err::<(), RiskPoolError>(
                RiskPoolError::AlreadyInitialized,
            ) && *final(self) == *old(self),
            old(self).admin.is_none() ==> {
                &&& r is Ok
                &&& final(self).contract == old(self).contract
                &&& final(self).admin == Some(admin)
                &&& final(self).token == Some(token)
                &&& final(self).min_stake == Some(min_stake)
                &&& final(self).total_capital == 0
                &&& final(self).available_capital == 0
                &&& final(self).claims_paid == 0
                &&& final(self).stakes == old(self).stakes
                &&& final(self).version == StorageVersion::V2
                &&& final(self).locked_capital == Some(0i128)
                &&& forall|a: AccountId, role: AccessControlRole|
                    final(self).roles.holds(a, role) <==> (old(self).roles.holds(a, role) || (a
                        == admin && role == AccessControlRole::Admin))
                &&& final(self).abi_min == RISK_POOL_V1
                &&& final(self).abi_current == RISK_POOL_V1
            },
    {
        if self.admin.is_some() {
            return Err(RiskPoolError::AlreadyInitialized);
        }
        self.admin = Some(admin);
        self.token = Some(token);
        self.min_stake = Some(min_stake);
        self.total_capital = 0;
        self.available_capital = 0;
        self.claims_paid = 0;
        self.version = StorageVersion::current();
        self.locked_capital = Some(0);
        self.roles.init_access_control(&admin);
        self.abi_min = RISK_POOL_V1;
        self.abi_current = RISK_POOL_V1;
        Ok(())
    }

    /// Grant `role` to `addr` (the host checks the admin's authorisation).
    pub fn set_role(&mut self, addr: AccountId, role: AccessControlRole) -> (r: Result<
        (),
        RiskPoolError,
    >)
        ensures
            r is Ok,
            forall|a: AccountId, q: AccessControlRole|
                final(self).roles.holds(a, q) <==> (old(self).roles.holds(a, q) || (a == addr
                    && q == role)),
            final(self).stakes == old(self).stakes,
            final(self).stats() == old(self).stats(),
    {
        self.roles.set_role(&addr, role);
        Ok(())
    }

    /// Stake `amount` from `provider`.
    ///
    /// Fails with `NotInitialized` before `initialize` and with
    /// `BelowMinimumStake` when `amount` is under the minimum stake; on
    /// success the stake and both capital figures grow by `amount`, and the
    /// tokens move from the provider to the pool.
    pub fn deposit_liquidity(&mut self, provider: AccountId, amount: i128) -> (r: Result<
        TokenTransfer,
        RiskPoolError,
    >)
        requires
            old(self).min_stake is Some && amount >= old(self).min_stake.unwrap()
                && old(self).token is Some ==> {
                &&& in_i128(old(self).stake_of(provider) + amount)
                &&& in_i128(old(self).total_capital + amount)
                &&& in_i128(old(self).available_capital + amount)
            },
        ensures
            old(self).min_stake.is_none() ==> r == Err::<TokenTransfer, RiskPoolError>(
                RiskPoolError::NotInitialized,
            ),
            old(self).min_stake.is_some() && amount < old(self).min_stake.unwrap() ==> r
                == Err::<TokenTransfer, RiskPoolError>(RiskPoolError::BelowMinimumStake),
            old(self).min_stake.is_some() && amount >= old(self).min_stake.unwrap()
                && old(self).token.is_none() ==> r == Err::<TokenTransfer, RiskPoolError>(
                RiskPoolError::NotInitialized,
            ),
            r is Err ==> *final(self) == *old(self),
            r is Ok <==> (old(self).min_stake.is_some() && amount >= old(self).min_stake.unwrap()
                && old(self).token.is_some()),
            r matches Ok(t) ==> t == (TokenTransfer {
                token: old(self).token.unwrap(),
                from: provider,
                to: old(self).contract,
                amount,
            }),
            r is Ok ==> deposit_done(*old(self), *final(self), provider, amount as int),
    {
        let min_stake = match self.min_stake {
            Some(m) => m,
            None => return Err(RiskPoolError::NotInitialized),
        };
        if amount < min_stake {
            return Err(RiskPoolError::BelowMinimumStake);
        }
        let token = match self.token {
            Some(t) => t,
            None => return Err(RiskPoolError::NotInitialized),
        };
        let transfer = TokenTransfer { token, from: provider, to: self.contract, amount };
        let current = self.provider_stake(&provider);
        self.stakes.insert(&provider, current + amount);
        self.total_capital = self.total_capital + amount;
        self.available_capital = self.available_capital + amount;
        Ok(transfer)
    }

    /// Return `amount` of `provider`'s stake to the provider.
    ///
    /// Fails with `InsufficientStake` when the stake is under `amount`,
    /// then with `InsufficientPoolFunds` when the available capital is, then
    /// with `NotInitialized` when no token is configured.
    pub fn withdraw_liquidity(&mut self, provider: AccountId, amount: i128) -> (r: Result<
        TokenTransfer,
        RiskPoolError,
    >)
        requires
            old(self).stake_of(provider) >= amount && old(self).available_capital >= amount
                && old(self).token is Some ==> {
                &&& in_i128(old(self).stake_of(provider) - amount)
                &&& in_i128(old(self).total_capital - amount)
                &&& in_i128(old(self).available_capital - amount)
            },
        ensures
            old(self).stake_of(provider) < amount ==> r == Err::<TokenTransfer, RiskPoolError>(
                RiskPoolError::InsufficientStake,
            ),
            old(self).stake_of(provider) >= amount && old(self).available_capital < amount ==> r
                == Err::<TokenTransfer, RiskPoolError>(RiskPoolError::InsufficientPoolFunds),
            old(self).stake_of(provider) >= amount && old(self).available_capital >= amount
                && old(self).token.is_none() ==> r == Err::<TokenTransfer, RiskPoolError>(
                RiskPoolError::NotInitialized,
            ),
            r is Err ==> *final(self) == *old(self),
            r is Ok <==> (old(self).stake_of(provider) >= amount && old(self).available_capital
                >= amount && old(self).token.is_some()),
            r matches Ok(t) ==> t == (TokenTransfer {
                token: old(self).token.unwrap(),
                from: old(self).contract,
                to: provider,
                amount,
            }),
            r is Ok ==> withdraw_done(*old(self), *final(self), provider, amount as int),
    {
        let stake = self.provider_stake(&provider);
        if stake < amount {
            return Err(RiskPoolError::InsufficientStake);
        }
        let avail = self.available_capital;
        if avail < amount {
            return Err(RiskPoolError::InsufficientPoolFunds);
        }
        let token = match self.token {
            Some(t) => t,
            None => return Err(RiskPoolError::NotInitialized),
        };
        let transfer = TokenTransfer { token, from: self.contract, to: provider, amount };
        self.stakes.insert(&provider, stake - amount);
        self.total_capital = self.total_capital - amount;
        self.available_capital = avail - amount;
        Ok(transfer)
    }

    /// Pay `amount` of available capital to `recipient` for a claim.
    ///
    /// Only a pool whose own address holds the admin role may pay out.
    /// Fails with `InsufficientPoolFunds` when the available capital is under
    /// `amount` and with `NotInitialized` when no token is configured.
    pub fn payout_claim(&mut self, recipient: AccountId, amount: i128) -> (r: Result<
        TokenTransfer,
        RiskPoolError,
    >)
        requires
            old(self).roles.holds(old(self).contract, AccessControlRole::Admin),
            old(self).available_capital >= amount && old(self).token is Some ==> {
                &&& in_i128(old(self).available_capital - amount)
                &&& in_i128(old(self).claims_paid + amount)
            },
        ensures
            old(self).available_capital < amount ==> r == Err::<TokenTransfer, RiskPoolError>(
                RiskPoolError::InsufficientPoolFunds,
            ),
            old(self).available_capital >= amount && old(self).token.is_none() ==> r == Err::<
                TokenTransfer,
                RiskPoolError,
            >(RiskPoolError::NotInitialized),
            r is Err ==> *final(self) == *old(self),
            r is Ok <==> (old(self).available_capital >= amount && old(self).token.is_some()),
            r matches Ok(t) ==> t == (TokenTransfer {
                token: old(self).token.unwrap(),
                from: old(self).contract,
                to: recipient,
                amount,
            }),
            r is Ok ==> payout_done(*old(self), *final(self), amount as int),
    {
        let avail = self.available_capital;
        if avail < amount {
            return Err(RiskPoolError::InsufficientPoolFunds);
        }
        let token = match self.token {
            Some(t) => t,
            None => return Err(RiskPoolError::NotInitialized),
        };
        let transfer = TokenTransfer { token, from: self.contract, to: recipient, amount };
        self.available_capital = avail - amount;
        self.claims_paid = self.claims_paid + amount;
        Ok(transfer)
    }

    /// The name under which governance and claims call `payout_claim`.
    pub fn payout(&mut self, recipient: AccountId, amount: i128) -> (r: Result<
        TokenTransfer,
        RiskPoolError,
    >)
        requires
            old(self).roles.holds(old(self).contract, AccessControlRole::Admin),
            old(self).available_capital >= amount && old(self).token is Some ==> {
                &&& in_i128(old(self).available_capital - amount)
                &&& in_i128(old(self).claims_paid + amount)
            },
        ensures
            r is Ok <==> (old(self).available_capital >= amount && old(self).token.is_some()),
            old(self).available_capital < amount ==> r == Err::<TokenTransfer, RiskPoolError>(
                RiskPoolError::InsufficientPoolFunds,
            ),
            old(self).available_capital >= amount && old(self).token.is_none() ==> r == Err::<
                TokenTransfer,
                RiskPoolError,
            >(RiskPoolError::NotInitialized),
            r is Err ==> *final(self) == *old(self),
            r matches Ok(t) ==> t == (TokenTransfer {
                token: old(self).token.unwrap(),
                from: old(self).contract,
                to: recipient,
                amount,
            }),
            r is Ok ==> payout_done(*old(self), *final(self), amount as int),
    {
        self.payout_claim(recipient, amount)
    }

    /// Forfeit `amount` of `target`'s stake to the pool's available capital
    /// (a slashing penalty). No tokens move: the pool already holds them.
    ///
    /// Only a pool whose own address holds the governance role may absorb a
    /// slash. Fails with `InvalidAmount` for a non-positive amount and with
    /// `InsufficientStake` when the stake is under `amount`.
    pub fn absorb_slash(&mut self, target: AccountId, amount: i128) -> (r: Result<
        (),
        RiskPoolError,
    >)
        requires
            old(self).roles.holds(old(self).contract, AccessControlRole::Governance),
            amount > 0 && old(self).stake_of(target) >= amount ==> in_i128(
                old(self).available_capital + amount,
            ),
        ensures
            amount <= 0 ==> r == Err::<(), RiskPoolError>(RiskPoolError::InvalidAmount),
            amount > 0 && old(self).stake_of(target) < amount ==> r == Err::<(), RiskPoolError>(
                RiskPoolError::InsufficientStake,
            ),
            r is Err ==> *final(self) == *old(self),
            r is Ok <==> (amount > 0 && old(self).stake_of(target) >= amount),
            r is Ok ==> slash_done(*old(self), *final(self), target, amount as int),
    {
        if amount <= 0 {
            return Err(RiskPoolError::InvalidAmount);
        }
        let stake = self.provider_stake(&target);
        if stake < amount {
            return Err(RiskPoolError::InsufficientStake);
        }
        self.stakes.insert(&target, stake - amount);
        self.available_capital = self.available_capital + amount;
        Ok(())
    }

    /// The stake recorded for `provider` (0 when none).
    fn provider_stake(&self, provider: &AccountId) -> (s: i128)
        ensures
            s == self.stake_of(*provider),
    {
        match self.stakes.get(provider) {
            Some(s) => s,
            None => 0,
        }
    }

    /// Total, available and paid-out capital.
    pub fn get_pool_stats(&self) -> (s: PoolStats)
        ensures
            s == self.stats(),
    {
        PoolStats {
            total_capital: self.total_capital,
            available_capital: self.available_capital,
            total_claims_paid: self.claims_paid,
        }
    }

    /// The name under which the claims contract reads `get_pool_stats`.
    pub fn get_stats(&self) -> (s: PoolStats)
        ensures
            s == self.stats(),
    {
        self.get_pool_stats()
    }

    /// The stake of `provider` (0 when none).
    pub fn get_provider_info(&self, provider: AccountId) -> (s: i128)
        ensures
            s == self.stake_of(provider),
    {
        self.provider_stake(&provider)
    }

    /// The packed `(min, current)` ABI range; `(0, 0)` before `initialize`.
    pub fn get_supported_abis(&self) -> (r: (u32, u32))
        ensures
            r == (self.abi_min, self.abi_current),
    {
        (self.abi_min, self.abi_current)
    }

    /// Move the storage layout forward to `to_version`.
    ///
    /// Only an admin may migrate. Migrating to the current layout is a no-op;
    /// migrating backwards fails with `AlreadyInitialized`. `V1 -> V2` adds
    /// the locked-capital entry (0 unless present) and advertises ABI `1.1`
    /// while still serving `1.0`.
    pub fn migrate(&mut self, admin: AccountId, to_version: StorageVersion) -> (r: Result<
        (),
        RiskPoolError,
    >)
        requires
            old(self).roles.holds(admin, AccessControlRole::Admin),
        ensures
            to_version == old(self).version ==> r is Ok && *final(self) == *old(self),
            to_version.rank() < old(self).version.rank() ==> r == Err::<(), RiskPoolError>(
                RiskPoolError::AlreadyInitialized,
            ) && *final(self) == *old(self),
            to_version.rank() > old(self).version.rank() ==> {
                &&& r is Ok
                &&& final(self).version == to_version
                &&& final(self).locked_capital == Some(
                    match old(self).locked_capital {
                        Some(l) => l,
                        None => 0i128,
                    },
                )
                &&& final(self).abi_min == RISK_POOL_V1
                &&& final(self).abi_current == RISK_POOL_V2
                &&& final(self).stakes == old(self).stakes
                &&& final(self).stats() == old(self).stats()
                &&& final(self).admin == old(self).admin
                &&& final(self).token == old(self).token
                &&& final(self).min_stake == old(self).min_stake
                &&& final(self).roles == old(self).roles
            },
    {
        let current = self.version;
        match (current, to_version) {
            (StorageVersion::V1, StorageVersion::V2) => {
                if self.locked_capital.is_none() {
                    self.locked_capital = Some(0);
                }
                self.version = StorageVersion::V2;
                self.abi_min = RISK_POOL_V1;
                self.abi_current = RISK_POOL_V2;
                Ok(())
            },
            (StorageVersion::V2, StorageVersion::V1) => Err(RiskPoolError::AlreadyInitialized),
            _ => Ok(()),
        }
    }

    /// The storage layout in use.
    pub fn version(&self) -> (v: StorageVersion)
        ensures
            v == self.version,
    {
        self.version
    }

    /// The pool's state commitment. The contract refreshes it after every
    /// change to the Merkle root (FNV hasher) over two entries: the
    /// canonical encodings of `get_pool_stats()` and of `version()`, which
    /// the host supplies here. Before `initialize` it is all-zero.
    pub fn get_state_root(&self, encoded_stats: &[u8], encoded_version: &[u8]) -> (r: [u8; 32])
        ensures
            self.admin is None ==> r@ == Seq::new(32, |i: int| 0u8),
            self.admin is Some ==> r@ == merkle_root(seq![encoded_stats@, encoded_version@], fnv_hash_fn()),
    {
        if self.admin.is_none() {
            let zero = [0u8; 32];
            assert(zero@ =~= Seq::new(32, |i: int| 0u8));
            return zero;
        }
        let mut entries: Vec<Vec<u8>> = Vec::new();
        entries.push(copy_slice(encoded_stats));
        entries.push(copy_slice(encoded_version));
        let r = compute_root(entries.as_slice());
        assert(views(entries@) =~= seq![encoded_stats@, encoded_version@]);
        r
    }

    /// The locked capital (0 when the entry is absent).
    pub fn get_locked_capital(&self) -> (l: i128)
        ensures
            l == match self.locked_capital {
                Some(l) => l,
                None => 0i128,
            },
    {
        match self.locked_capital {
            Some(l) => l,
            None => 0,
        }
    }
}

/// A deposit followed by a withdrawal of the same amount by the same
/// provider leaves every stake and all capital figures as they were.
pub proof fn law_deposit_withdraw_round_trip(
    before: RiskPoolContract,
    mid: RiskPoolContract,
    after: RiskPoolContract,
    provider: AccountId,
    amount: int,
)
    requires
        deposit_done(before, mid, provider, amount),
        withdraw_done(mid, after, provider, amount),
    ensures
        after.stats() == before.stats(),
        forall|a: AccountId| #[trigger] after.stake_of(a) == before.stake_of(a),
        after.same_except_stakes(&before),
{
    assert forall|a: AccountId| #[trigger] after.stake_of(a) == before.stake_of(a) by {
        assert(mid.stake_of(a) == if a == provider {
            before.stake_of(provider) + amount
        } else {
            before.stake_of(a) as int
        });
        assert(after.stake_of(a) == if a == provider {
            mid.stake_of(provider) - amount
        } else {
            mid.stake_of(a) as int
        });
    }
}

/// The pool's solvency invariant: a non-negative minimum stake, no negative
/// stake and no negative available capital.
pub open spec fn solvent(p: RiskPoolContract) -> bool {
    &&& p.min_stake matches Some(m) ==> m >= 0
    &&& p.available_capital >= 0
    &&& forall|a: AccountId| #[trigger] p.stake_of(a) >= 0
}

/// After a deposit into a solvent pool, the provider can withdraw the
/// same amount again.
pub proof fn law_deposit_can_be_withdrawn(before: RiskPoolContract, mid: RiskPoolContract, provider: AccountId, amount: int)
    requires
        solvent(before),
        deposit_done(before, mid, provider, amount),
    ensures
        mid.stake_of(provider) >= amount,
        mid.available_capital >= amount,
        mid.token is Some,
{
    assert(before.stake_of(provider) >= 0);
    assert(mid.stake_of(provider) == before.stake_of(provider) + amount);
}

/// Deposits, withdrawals, payouts and slashes keep a pool solvent.
pub proof fn law_operations_keep_pool_solvent(
    before: RiskPoolContract,
    after: RiskPoolContract,
    account: AccountId,
    amount: int,
)
    requires
        solvent(before),
        deposit_done(before, after, account, amount) || withdraw_done(before, after, account, amount)
            || payout_done(before, after, amount) || slash_done(before, after, account, amount),
    ensures
        solvent(after),
{
    assert forall|a: AccountId| #[trigger] after.stake_of(a) >= 0 by {
        assert(before.stake_of(a) >= 0);
        assert(before.stake_of(account) >= 0);
        if payout_done(before, after, amount) {
            assert(after.stake_of(a) == before.stake_of(a));
        }
    }
}

/// Deposits, withdrawals and payouts of non-negative amounts keep the total
/// capital at or above the available capital.
pub proof fn law_total_covers_available(before: RiskPoolContract, after: RiskPoolContract, account: AccountId, amount: int)
    requires
        before.total_capital >= before.available_capital,
        deposit_done(before, after, account, amount) || withdraw_done(before, after, account, amount)
            || (payout_done(before, after, amount) && amount >= 0),
    ensures
        after.total_capital >= after.available_capital,
{
}

} // verus!
