//! Role-based access control shared by the contracts.
use vstd::prelude::*;
use crate::validation::{AccountId, same_account};

verus! {

/// The roles an account can hold.
#[derive(Copy, Clone, Debug, PartialEq, Eq, Structural)]
pub enum AccessControlRole {
    Admin,
    Governance,
    Claims,
    Policy,
    RiskPool,
    Slashing,
}

/// The set of (account, role) grants of one contract.
#[derive(Clone, Debug)]
pub struct RoleTable {
    pub grants: Vec<(AccountId, AccessControlRole)>,
}

impl RoleTable {
    /// The account holds the role.
    pub open spec fn holds(&self, account: AccountId, role: AccessControlRole) -> bool {
        self.grants@.contains((account, role))
    }

    /// A table with no grants.
    pub fn new() -> (t: Self)
        ensures
            forall|a: AccountId, r: AccessControlRole| !t.holds(a, r),
    {
        RoleTable { grants: Vec::new() }
    }

    /// Grant `Admin` to `admin`, as every contract does when it is
    /// initialised.
    pub fn init_access_control(&mut self, admin: &AccountId)
        ensures
            forall|a: AccountId, r: AccessControlRole|
                final(self).holds(a, r) <==> (old(self).holds(a, r) || (a == *admin && r
                    == AccessControlRole::Admin)),
    {
        self.set_role(admin, AccessControlRole::Admin);
    }

    /// Whether `account` holds `role`.
    pub fn has_role(&self, account: &AccountId, role: AccessControlRole) -> (r: bool)
        ensures
            r == self.holds(*account, role),
    {
        let mut i: usize = 0;
        while i < self.grants.len()
            invariant
                i <= self.grants@.len(),
                forall|k: int| 0 <= k < i ==> self.grants@[k] != (*account, role),
            decreases self.grants@.len() - i,
        {
            let (a, r) = self.grants[i];
            if same_account(&a, account) && r == role {
                assert(self.grants@[i as int] == (*account, role));
                return true;
            }
            i = i + 1;
        }
        false
    }

    /// Grant `role` to `account`; every other grant is kept.
    pub fn set_role(&mut self, account: &AccountId, role: AccessControlRole)
        ensures
            forall|a: AccountId, r: AccessControlRole|
                final(self).holds(a, r) <==> (old(self).holds(a, r) || (a == *account && r == role)),
    {
        let ghost before = self.grants@;
        self.grants.push((*account, role));
        assert forall|a: AccountId, r: AccessControlRole|
            self.holds(a, r) <==> (before.contains((a, r)) || (a == *account && r == role)) by {
            if before.contains((a, r)) {
                let k = choose|k: int| 0 <= k < before.len() && before[k] == (a, r);
                assert(self.grants@[k] == (a, r));
            }
            if a == *account && r == role {
                assert(self.grants@[before.len() as int] == (a, r));
            }
            if self.holds(a, r) {
                let k = choose|k: int| 0 <= k < self.grants@.len() && self.grants@[k] == (a, r);
                if k < before.len() {
                    assert(before[k] == (a, r));
                }
            }
        }
    }

    /// Withdraw `role` from `account`; every other grant is kept.
    pub fn revoke_role(&mut self, account: &AccountId, role: AccessControlRole)
        ensures
            forall|a: AccountId, r: AccessControlRole|
                final(self).holds(a, r) <==> (old(self).holds(a, r) && !(a == *account && r
                    == role)),
    {
        let mut kept: Vec<(AccountId, AccessControlRole)> = Vec::new();
        let mut i: usize = 0;
        while i < self.grants.len()
            invariant
                i <= self.grants@.len(),
                forall|k: int|
                    0 <= k < kept@.len() ==> #[trigger] self.grants@.contains(kept@[k])
                        && kept@[k] != (*account, role),
                forall|k: int|
                    0 <= k < i && self.grants@[k] != (*account, role) ==> #[trigger] kept@.contains(
                        self.grants@[k],
                    ),
            decreases self.grants@.len() - i,
        {
            let (a, r) = self.grants[i];
            if !(same_account(&a, account) && r == role) {
                let ghost before = kept@;
                kept.push((a, r));
                proof {
                    assert forall|k: int|
                        0 <= k < kept@.len() implies #[trigger] self.grants@.contains(kept@[k])
                            && kept@[k] != (*account, role) by {
                        if k == before.len() {
                            assert(self.grants@[i as int] == kept@[k]);
                        } else {
                            assert(kept@[k] == before[k]);
                            assert(self.grants@.contains(before[k]));
                        }
                    }
                    assert forall|k: int|
                        0 <= k <= i && self.grants@[k] != (*account, role) implies #[trigger] kept@.contains(
                            self.grants@[k],
                        ) by {
                        if k == i {
                            assert(kept@[before.len() as int] == self.grants@[k]);
                        } else {
                            assert(before.contains(self.grants@[k]));
                            let j = choose|j: int| 0 <= j < before.len() && before[j] == self.grants@[k];
                            assert(kept@[j] == before[j]);
                        }
                    }
                }
            }
            i = i + 1;
        }
        let ghost old_grants = self.grants@;
        self.grants = kept;
        assert forall|a: AccountId, r: AccessControlRole|
            self.holds(a, r) <==> (old_grants.contains((a, r)) && !(a == *account && r == role)) by {
            if old_grants.contains((a, r)) && !(a == *account && r == role) {
                let k = choose|k: int| 0 <= k < old_grants.len() && old_grants[k] == (a, r);
                assert(self.grants@.contains(old_grants[k]));
            }
            if self.holds(a, r) {
                let k = choose|k: int| 0 <= k < self.grants@.len() && self.grants@[k] == (a, r);
                assert(old_grants.contains(self.grants@[k]));
            }
        }
    }
}

} // verus!
