//! Small last-write-wins maps standing for keyed contract storage: one keyed
//! by account, one keyed by a numeric id.
use vstd::prelude::*;
use crate::validation::{AccountId, same_account};

verus! {

/// The value stored for `a`: the last entry with key `a`, if any.
pub open spec fn lookup<K, V>(entries: Seq<(K, V)>, a: K) -> Option<V>
    decreases entries.len(),
{
    if entries.len() == 0 {
        None
    } else if entries.last().0 == a {
        Some(entries.last().1)
    } else {
        lookup(entries.drop_last(), a)
    }
}

/// Per-account values.
#[derive(Clone, Debug)]
pub struct AccountMap<V> {
    pub entries: Vec<(AccountId, V)>,
}

/// Updating the last entry with key `a` changes only the value of `a`.
proof fn lemma_lookup_update<K, V>(s: Seq<(K, V)>, k: int, a: K, v: V, b: K)
    requires
        0 <= k < s.len(),
        s[k].0 == a,
        forall|j: int| k < j < s.len() ==> s[j].0 != a,
    ensures
        lookup(s.update(k, (a, v)), b) == if b == a {
            Some(v)
        } else {
            lookup(s, b)
        },
    decreases s.len(),
{
    let t = s.update(k, (a, v));
    if k == s.len() - 1 {
        assert(t.drop_last() =~= s.drop_last());
    } else {
        assert(t.drop_last() =~= s.drop_last().update(k, (a, v)));
        lemma_lookup_update(s.drop_last(), k, a, v, b);
    }
}

/// Dropping an entry whose key is not `b` leaves `b`'s value unchanged.
proof fn lemma_lookup_remove<K, V>(s: Seq<(K, V)>, k: int, b: K)
    requires
        0 <= k < s.len(),
        s[k].0 != b,
    ensures
        lookup(s.remove(k), b) == lookup(s, b),
    decreases s.len(),
{
    if k == s.len() - 1 {
        assert(s.remove(k) =~= s.drop_last());
    } else {
        assert(s.remove(k).drop_last() =~= s.drop_last().remove(k));
        assert(s.remove(k).last() == s.last());
        lemma_lookup_remove(s.drop_last(), k, b);
    }
}

/// A key that no entry carries has no value.
proof fn lemma_lookup_absent<K, V>(s: Seq<(K, V)>, b: K)
    requires
        forall|j: int| 0 <= j < s.len() ==> s[j].0 != b,
    ensures
        lookup(s, b).is_none(),
    decreases s.len(),
{
    if s.len() > 0 {
        lemma_lookup_absent(s.drop_last(), b);
    }
}

impl<V: Copy> AccountMap<V> {
    /// The value stored for `a`.
    pub open spec fn value_of(&self, a: AccountId) -> Option<V> {
        lookup(self.entries@, a)
    }

    /// The empty map.
    pub fn new() -> (m: Self)
        ensures
            forall|a: AccountId| m.value_of(a).is_none(),
    {
        AccountMap { entries: Vec::new() }
    }

    /// Read the value stored for `a`.
    pub fn get(&self, a: &AccountId) -> (r: Option<V>)
        ensures
            r == self.value_of(*a),
    {
        let mut i: usize = self.entries.len();
        assert(self.entries@.take(i as int) =~= self.entries@);
        while i > 0
            invariant
                i <= self.entries@.len(),
                lookup(self.entries@, *a) == lookup(self.entries@.take(i as int), *a),
            decreases i,
        {
            let (k, v) = self.entries[i - 1];
            assert(self.entries@.take(i as int).drop_last() =~= self.entries@.take(i - 1));
            if same_account(&k, a) {
                return Some(v);
            }
            i = i - 1;
        }
        None
    }

    /// Store `v` for `a`; every other account keeps its value.
    pub fn insert(&mut self, a: &AccountId, v: V)
        ensures
            forall|b: AccountId| #[trigger] final(self).value_of(b) == if b == *a {
                Some(v)
            } else {
                old(self).value_of(b)
            },
    {
        let mut i: usize = self.entries.len();
        while i > 0
            invariant
                i <= self.entries@.len(),
                self.entries@ == old(self).entries@,
                forall|j: int| i <= j < self.entries@.len() ==> self.entries@[j].0 != *a,
            decreases i,
        {
            let (k, _) = self.entries[i - 1];
            if same_account(&k, a) {
                let ghost before = self.entries@;
                self.entries.set(i - 1, (*a, v));
                proof {
                    assert forall|b: AccountId| #[trigger] lookup(self.entries@, b) == if b == *a {
                        Some(v)
                    } else {
                        lookup(before, b)
                    } by {
                        lemma_lookup_update(before, i - 1, *a, v, b);
                    }
                }
                return;
            }
            i = i - 1;
        }
        let ghost before = self.entries@;
        self.entries.push((*a, v));
        assert(self.entries@.drop_last() =~= before);
    }
}

/// Keys whose equality executable code can decide.
pub trait ExecKey: Copy + Sized {
    /// Whether the two keys are equal.
    fn same_key(&self, other: &Self) -> (r: bool)
        ensures
            r == (*self == *other),
    ;
}

impl ExecKey for u64 {
    fn same_key(&self, other: &Self) -> (r: bool) {
        *self == *other
    }
}

impl ExecKey for u8 {
    fn same_key(&self, other: &Self) -> (r: bool) {
        *self == *other
    }
}

impl ExecKey for AccountId {
    fn same_key(&self, other: &Self) -> (r: bool) {
        same_account(self, other)
    }
}

/// A per-account numbered record: the account and the record's number.
#[derive(Clone, Copy, Debug)]
pub struct AccountKey {
    pub account: AccountId,
    pub index: u64,
}

impl ExecKey for AccountKey {
    fn same_key(&self, other: &Self) -> (r: bool) {
        same_account(&self.account, &other.account) && self.index == other.index
    }
}

/// Values keyed by an id, an account or a pair of both: the last entry for
/// a key holds its value.
#[derive(Debug)]
pub struct KeyMap<K, V> {
    pub entries: Vec<(K, V)>,
}

/// Values keyed by a numeric id (escrows, proposals, policies).
pub type IdMap<V> = KeyMap<u64, V>;

impl<K: ExecKey, V> KeyMap<K, V> {
    /// The value stored for `id`.
    pub open spec fn value_of(&self, id: K) -> Option<V> {
        lookup(self.entries@, id)
    }

    /// The stored values as a map from id.
    pub open spec fn as_map(&self) -> Map<K, V> {
        Map::new(|id: K| self.value_of(id) is Some, |id: K| self.value_of(id).unwrap())
    }

    /// The empty map.
    pub fn new() -> (m: Self)
        ensures
            forall|id: K| m.value_of(id).is_none(),
    {
        KeyMap { entries: Vec::new() }
    }

    /// The position of the entry that holds `id`'s value.
    fn position(&self, id: K) -> (r: Option<usize>)
        ensures
            match r {
                Some(i) => {
                    &&& i < self.entries@.len()
                    &&& self.entries@[i as int].0 == id
                    &&& self.value_of(id) == Some(self.entries@[i as int].1)
                    &&& forall|j: int| i < j < self.entries@.len() ==> self.entries@[j].0 != id
                },
                None => self.value_of(id).is_none(),
            },
    {
        let mut i: usize = self.entries.len();
        assert(self.entries@.take(i as int) =~= self.entries@);
        while i > 0
            invariant
                i <= self.entries@.len(),
                lookup(self.entries@, id) == lookup(self.entries@.take(i as int), id),
                forall|j: int| i <= j < self.entries@.len() ==> self.entries@[j].0 != id,
            decreases i,
        {
            assert(self.entries@.take(i as int).drop_last() =~= self.entries@.take(i - 1));
            if self.entries[i - 1].0.same_key(&id) {
                return Some(i - 1);
            }
            i = i - 1;
        }
        None
    }

    /// Read the value stored for `id`.
    pub fn get(&self, id: K) -> (r: Option<&V>)
        ensures
            match r {
                Some(v) => self.value_of(id) == Some(*v),
                None => self.value_of(id).is_none(),
            },
    {
        match self.position(id) {
            Some(i) => Some(&self.entries[i].1),
            None => None,
        }
    }

    /// Whether a value is stored for `id`.
    pub fn contains(&self, id: K) -> (r: bool)
        ensures
            r == self.value_of(id).is_some(),
    {
        self.position(id).is_some()
    }

    /// Store `v` for `id`; every other id keeps its value.
    pub fn insert(&mut self, id: K, v: V)
        ensures
            forall|b: K| #[trigger] final(self).value_of(b) == if b == id {
                Some(v)
            } else {
                old(self).value_of(b)
            },
            final(self).as_map() == old(self).as_map().insert(id, v),
    {
        self.insert_entry(id, v);
        assert(self.as_map() =~= old(self).as_map().insert(id, v));
    }

    fn insert_entry(&mut self, id: K, v: V)
        ensures
            forall|b: K| #[trigger] final(self).value_of(b) == if b == id {
                Some(v)
            } else {
                old(self).value_of(b)
            },
    {
        match self.position(id) {
            Some(i) => {
                let ghost before = self.entries@;
                self.entries.set(i, (id, v));
                proof {
                    assert forall|b: K| #[trigger] lookup(self.entries@, b) == if b == id {
                        Some(v)
                    } else {
                        lookup(before, b)
                    } by {
                        lemma_lookup_update(before, i as int, id, v, b);
                    }
                }
            },
            None => {
                let ghost before = self.entries@;
                self.entries.push((id, v));
                assert(self.entries@.drop_last() =~= before);
            },
        }
    }

    /// Drop the value stored for `id`; every other id keeps its value.
    pub fn remove(&mut self, id: K)
        ensures
            forall|b: K| #[trigger] final(self).value_of(b) == if b == id {
                None
            } else {
                old(self).value_of(b)
            },
    {
        let mut i: usize = self.entries.len();
        while i > 0
            invariant
                i <= self.entries@.len(),
                forall|j: int| i <= j < self.entries@.len() ==> self.entries@[j].0 != id,
                forall|b: K| b != id ==> #[trigger] lookup(self.entries@, b) == lookup(old(self).entries@, b),
            decreases i,
        {
            if self.entries[i - 1].0.same_key(&id) {
                let ghost before = self.entries@;
                let _ = self.entries.remove(i - 1);
                proof {
                    assert(self.entries@ =~= before.remove(i - 1));
                    assert forall|b: K| b != id implies #[trigger] lookup(self.entries@, b) == lookup(
                        old(self).entries@,
                        b,
                    ) by {
                        lemma_lookup_remove(before, i - 1, b);
                    }
                }
            }
            i = i - 1;
        }
        proof {
            lemma_lookup_absent(self.entries@, id);
        }
    }
}

} // verus!
