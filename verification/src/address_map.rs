use vstd::prelude::*;

use crate::types::Address;

verus! {

/// A finite map from addresses to values, at most one value per address.
#[derive(Debug)]
pub struct AddressMap<V> {
    entries: Vec<(Address, V)>,
}

/// No user occurs twice in the entries.
pub open spec fn unique_users<V>(entries: Seq<(Address, V)>) -> bool {
    forall|i: int, j: int| 0 <= i < j < entries.len() ==> entries[i].0 != entries[j].0
}

/// The entries as a map from user to expiry.
pub open spec fn entries_map<V>(entries: Seq<(Address, V)>) -> Map<Address, V>
    decreases entries.len(),
{
    if entries.len() == 0 {
        Map::empty()
    } else {
        entries_map(entries.drop_last()).insert(entries.last().0, entries.last().1)
    }
}

proof fn lemma_entries_map_domain<V>(entries: Seq<(Address, V)>, user: Address)
    ensures
        entries_map(entries).contains_key(user) <==> exists|i: int| 0 <= i < entries.len() && entries[i].0 == user,
    decreases entries.len(),
{
    if entries.len() > 0 {
        lemma_entries_map_domain(entries.drop_last(), user);
        if entries_map(entries).contains_key(user) && entries.last().0 != user {
            let i = choose|i: int| 0 <= i < entries.drop_last().len() && entries.drop_last()[i].0 == user;
            assert(entries[i].0 == user);
        }
        if exists|i: int| 0 <= i < entries.len() && entries[i].0 == user {
            let i = choose|i: int| 0 <= i < entries.len() && entries[i].0 == user;
            if i < entries.len() - 1 {
                assert(entries.drop_last()[i].0 == user);
            }
        }
    }
}

proof fn lemma_entries_map_at<V>(entries: Seq<(Address, V)>, i: int)
    requires
        unique_users(entries),
        0 <= i < entries.len(),
    ensures
        entries_map(entries).contains_key(entries[i].0),
        entries_map(entries)[entries[i].0] == entries[i].1,
    decreases entries.len(),
{
    if i < entries.len() - 1 {
        lemma_entries_map_at(entries.drop_last(), i);
        assert(entries.drop_last()[i] == entries[i]);
    }
}

proof fn lemma_entries_map_update<V>(entries: Seq<(Address, V)>, i: int, v: V)
    requires
        unique_users(entries),
        0 <= i < entries.len(),
    ensures
        unique_users(entries.update(i, (entries[i].0, v))),
        entries_map(entries.update(i, (entries[i].0, v))) == entries_map(entries).insert(entries[i].0, v),
    decreases entries.len(),
{
    let u = entries.update(i, (entries[i].0, v));
    if i == entries.len() - 1 {
        assert(u.drop_last() =~= entries.drop_last());
        let m1 = entries_map(u);
        let m2 = entries_map(entries).insert(entries[i].0, v);
        assert(m1 =~= m2);
    } else {
        lemma_entries_map_update(entries.drop_last(), i, v);
        assert(u.drop_last() =~= entries.drop_last().update(i, (entries[i].0, v)));
        assert(entries.last().0 != entries[i].0);
        assert(entries_map(u) =~= entries_map(entries).insert(entries[i].0, v));
    }
}

impl<V: Copy> AddressMap<V> {
    pub closed spec fn wf(&self) -> bool {
        unique_users(self.entries@)
    }
}

impl<V: Copy> View for AddressMap<V> {
    type V = Map<Address, V>;

    closed spec fn view(&self) -> Map<Address, V> {
        entries_map(self.entries@)
    }
}

impl<V: Copy> AddressMap<V> {
    /// An empty map.
    pub fn new() -> (b: Self)
        ensures
            b.wf(),
            b@ == Map::<Address, V>::empty(),
    {
        AddressMap { entries: Vec::new() }
    }

    /// The value stored for `user`, if any.
    pub fn get(&self, user: &Address) -> (r: Option<V>)
        requires
            self.wf(),
        ensures
            r == (if self@.contains_key(*user) { Some(self@[*user]) } else { None::<V> }),
    {
        let n = self.entries.len();
        let mut i: usize = 0;
        while i < n
            invariant
                n == self.entries@.len(),
                0 <= i <= n,
                unique_users(self.entries@),
                forall|j: int| 0 <= j < i ==> self.entries@[j].0 != *user,
            decreases n - i,
        {
            if self.entries[i].0 == *user {
                proof {
                    lemma_entries_map_at(self.entries@, i as int);
                }
                return Some(self.entries[i].1);
            }
            i += 1;
        }
        proof {
            lemma_entries_map_domain(self.entries@, *user);
        }
        None
    }

    /// Stores `value` for `user`, replacing any earlier one.
    pub fn insert(&mut self, user: &Address, value: V)
        requires
            old(self).wf(),
        ensures
            final(self).wf(),
            final(self)@ == old(self)@.insert(*user, value),
    {
        let n = self.entries.len();
        let mut i: usize = 0;
        while i < n
            invariant
                n == self.entries@.len(),
                0 <= i <= n,
                self.entries@ == old(self).entries@,
                unique_users(self.entries@),
                forall|j: int| 0 <= j < i ==> self.entries@[j].0 != *user,
            decreases n - i,
        {
            if self.entries[i].0 == *user {
                proof {
                    lemma_entries_map_update(self.entries@, i as int, value);
                }
                self.entries.set(i, (*user, value));
                return;
            }
            i += 1;
        }
        proof {
            lemma_entries_map_domain(self.entries@, *user);
        }
        let ghost before = self.entries@;
        self.entries.push((*user, value));
        proof {
            assert(self.entries@.drop_last() =~= before);
        }
    }
}

/// Per-user withdrawal lockup expiries.
pub type LockupBook = AddressMap<u64>;

} // verus!
