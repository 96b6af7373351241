//! Maps keyed by account address, kept as a list of entries whose addresses
//! are distinct.

use crate::address::Address;
use vstd::prelude::*;

verus! {

/// Whether some entry of `s` has the address `k`.
pub open spec fn has_key<V>(s: Seq<(Address, V)>, k: Address) -> bool {
    exists|i: int| 0 <= i < s.len() && s[i].0 == k
}

/// The position of an entry of `s` with the address `k`.
pub open spec fn position<V>(s: Seq<(Address, V)>, k: Address) -> int {
    choose|i: int| 0 <= i < s.len() && s[i].0 == k
}

/// The map that a list of entries stands for.
pub open spec fn map_of<V>(s: Seq<(Address, V)>) -> Map<Address, V> {
    Map::new(|k: Address| has_key(s, k), |k: Address| s[position(s, k)].1)
}

/// Whether the entries of `s` have distinct addresses.
pub open spec fn distinct_keys<V>(s: Seq<(Address, V)>) -> bool {
    forall|i: int, j: int|
        0 <= i < s.len() && 0 <= j < s.len() && i != j ==> s[i].0 != s[j].0
}

/// The addresses of a list of entries.
pub open spec fn keys_of<V>(s: Seq<(Address, V)>) -> Seq<Address> {
    s.map_values(|e: (Address, V)| e.0)
}

/// In a list with distinct addresses, an entry's address finds that entry.
pub proof fn lemma_position<V>(s: Seq<(Address, V)>, i: int)
    requires
        distinct_keys(s),
        0 <= i < s.len(),
    ensures
        has_key(s, s[i].0),
        position(s, s[i].0) == i,
        map_of(s).contains_key(s[i].0),
        map_of(s)[s[i].0] == s[i].1,
{
    assert(has_key(s, s[i].0));
}

/// A list with distinct addresses has as many entries as its map has keys.
pub proof fn lemma_len<V>(s: Seq<(Address, V)>)
    requires
        distinct_keys(s),
    ensures
        map_of(s).dom() =~= keys_of(s).to_set(),
        map_of(s).dom().finite(),
        map_of(s).dom().len() == s.len(),
{
    let ks = keys_of(s);
    assert forall|k: Address| map_of(s).dom().contains(k) <==> ks.to_set().contains(k) by {
        if map_of(s).dom().contains(k) {
            let i = position(s, k);
            assert(ks[i] == k);
        }
        if ks.to_set().contains(k) {
            let i = choose|i: int| 0 <= i < ks.len() && ks[i] == k;
            assert(s[i].0 == k);
        }
    }
    assert(ks.no_duplicates()) by {
        assert forall|i: int, j: int|
            0 <= i < ks.len() && 0 <= j < ks.len() && i != j implies ks[i] != ks[j] by {
            assert(ks[i] == s[i].0);
            assert(ks[j] == s[j].0);
        }
    }
    ks.unique_seq_to_set();
}

/// Adding an entry with a new address adds it to the map.
pub proof fn lemma_push<V>(s: Seq<(Address, V)>, k: Address, v: V)
    requires
        distinct_keys(s),
        !has_key(s, k),
    ensures
        distinct_keys(s.push((k, v))),
        map_of(s.push((k, v))) =~= map_of(s).insert(k, v),
{
    let t = s.push((k, v));
    assert(distinct_keys(t)) by {
        assert forall|i: int, j: int|
            0 <= i < t.len() && 0 <= j < t.len() && i != j implies t[i].0 != t[j].0 by {
            if i < s.len() && j < s.len() {
                assert(t[i] == s[i] && t[j] == s[j]);
            } else if i == s.len() {
                assert(s[j].0 != k);
            } else {
                assert(s[i].0 != k);
            }
        }
    }
    assert forall|a: Address| #[trigger] map_of(t).contains_key(a) <==> map_of(s).insert(
        k,
        v,
    ).contains_key(a) by {
        if has_key(s, a) {
            let i = position(s, a);
            assert(t[i] == s[i]);
        }
        if has_key(t, a) && a != k {
            let i = position(t, a);
            assert(i < s.len());
            assert(s[i] == t[i]);
        }
        if a == k {
            assert(t[s.len() as int].0 == k);
        }
    }
    assert forall|a: Address| #[trigger] map_of(t).contains_key(a) implies map_of(t)[a]
        == map_of(s).insert(k, v)[a] by {
        if a == k {
            lemma_position(t, s.len() as int);
        } else {
            let i = position(s, a);
            lemma_position(s, i);
            assert(t[i] == s[i]);
            lemma_position(t, i);
        }
    }
}

/// Replacing the value of an entry replaces it in the map.
pub proof fn lemma_update<V>(s: Seq<(Address, V)>, i: int, v: V)
    requires
        distinct_keys(s),
        0 <= i < s.len(),
    ensures
        distinct_keys(s.update(i, (s[i].0, v))),
        map_of(s.update(i, (s[i].0, v))) =~= map_of(s).insert(s[i].0, v),
{
    let k = s[i].0;
    let t = s.update(i, (k, v));
    assert(distinct_keys(t)) by {
        assert forall|a: int, b: int|
            0 <= a < t.len() && 0 <= b < t.len() && a != b implies t[a].0 != t[b].0 by {
            assert(t[a].0 == s[a].0);
            assert(t[b].0 == s[b].0);
        }
    }
    assert forall|a: Address| #[trigger] map_of(t).contains_key(a) <==> map_of(s).insert(
        k,
        v,
    ).contains_key(a) by {
        if has_key(s, a) {
            let j = position(s, a);
            assert(t[j].0 == s[j].0);
        }
        if has_key(t, a) {
            let j = position(t, a);
            assert(t[j].0 == s[j].0);
        }
        lemma_position(s, i);
    }
    assert forall|a: Address| #[trigger] map_of(t).contains_key(a) implies map_of(t)[a]
        == map_of(s).insert(k, v)[a] by {
        if a == k {
            lemma_position(t, i);
        } else {
            let j = position(t, a);
            lemma_position(t, j);
            assert(t[j] == s[j]);
            lemma_position(s, j);
        }
    }
}

/// Removing an entry removes its address from the map.
pub proof fn lemma_remove<V>(s: Seq<(Address, V)>, i: int)
    requires
        distinct_keys(s),
        0 <= i < s.len(),
    ensures
        distinct_keys(s.remove(i)),
        map_of(s.remove(i)) =~= map_of(s).remove(s[i].0),
{
    let k = s[i].0;
    let t = s.remove(i);
    assert(forall|j: int| 0 <= j < i ==> t[j] == s[j]);
    assert(forall|j: int| i <= j < t.len() ==> t[j] == s[j + 1]);
    assert(distinct_keys(t)) by {
        assert forall|a: int, b: int|
            0 <= a < t.len() && 0 <= b < t.len() && a != b implies t[a].0 != t[b].0 by {
            let sa = if a < i {
                a
            } else {
                a + 1
            };
            let sb = if b < i {
                b
            } else {
                b + 1
            };
            assert(t[a] == s[sa]);
            assert(t[b] == s[sb]);
        }
    }
    assert forall|a: Address| #[trigger] map_of(t).contains_key(a) <==> map_of(s).remove(
        k,
    ).contains_key(a) by {
        if has_key(t, a) {
            let j = position(t, a);
            let sj = if j < i {
                j
            } else {
                j + 1
            };
            assert(t[j] == s[sj]);
            assert(sj != i);
            lemma_position(s, sj);
        }
        if has_key(s, a) && a != k {
            let j = position(s, a);
            assert(j != i);
            let tj = if j < i {
                j
            } else {
                j - 1
            };
            assert(t[tj] == s[j]);
        }
    }
    assert forall|a: Address| #[trigger] map_of(t).contains_key(a) implies map_of(t)[a]
        == map_of(s).remove(k)[a] by {
        let j = position(t, a);
        lemma_position(t, j);
        let sj = if j < i {
            j
        } else {
            j + 1
        };
        assert(t[j] == s[sj]);
        lemma_position(s, sj);
    }
}

/// A map keyed by account address.
pub struct AddressMap<V> {
    entries: Vec<(Address, V)>,
}

impl<V> AddressMap<V> {
    #[verifier::type_invariant]
    spec fn distinct(self) -> bool {
        distinct_keys(self.entries@)
    }

    /// The map this stands for.
    pub closed spec fn view(&self) -> Map<Address, V> {
        map_of(self.entries@)
    }

    /// An empty map.
    pub fn new() -> (r: Self)
        ensures
            r.view() == Map::<Address, V>::empty(),
    {
        let r = AddressMap { entries: Vec::new() };
        assert(r.view() =~= Map::<Address, V>::empty());
        r
    }

    /// The position of the entry with address `k`, if any.
    fn find(&self, k: &Address) -> (r: Option<usize>)
        ensures
            r is None <==> !self.view().contains_key(*k),
            r matches Some(i) ==> i < self.entries@.len() && self.entries@[i as int].0 == *k,
    {
        proof {
            use_type_invariant(self);
        }
        let mut i: usize = 0;
        while i < self.entries.len()
            invariant
                i <= self.entries@.len(),
                forall|j: int| 0 <= j < i ==> self.entries@[j].0 != *k,
            decreases self.entries@.len() - i,
        {
            if self.entries[i].0.same_as(k) {
                return Some(i);
            }
            i = i + 1;
        }
        None
    }

    /// Whether some entry has address `k`.
    pub fn contains_key(&self, k: &Address) -> (r: bool)
        ensures
            r == self.view().contains_key(*k),
    {
        self.find(k).is_some()
    }

    /// The value of address `k`, if any.
    pub fn get(&self, k: &Address) -> (r: Option<&V>)
        ensures
            r is Some <==> self.view().contains_key(*k),
            r matches Some(v) ==> *v == self.view()[*k],
    {
        proof {
            use_type_invariant(self);
        }
        match self.find(k) {
            Some(i) => {
                proof {
                    lemma_position(self.entries@, i as int);
                }
                Some(&self.entries[i].1)
            },
            None => None,
        }
    }

    /// The number of addresses in the map.
    pub fn len(&self) -> (r: usize)
        ensures
            self.view().dom().finite(),
            r == self.view().dom().len(),
    {
        proof {
            use_type_invariant(self);
            lemma_len(self.entries@);
        }
        self.entries.len()
    }

    /// Sets the value of address `k`.
    pub fn insert(&mut self, k: Address, v: V)
        ensures
            final(self).view() == old(self).view().insert(k, v),
    {
        proof {
            use_type_invariant(&*self);
        }
        match self.find(&k) {
            Some(i) => {
                proof {
                    lemma_update(self.entries@, i as int, v);
                }
                let mut entries = Vec::new();
                std::mem::swap(&mut entries, &mut self.entries);
                entries.set(i, (k, v));
                self.entries = entries;
            },
            None => {
                proof {
                    lemma_push(self.entries@, k, v);
                }
                let mut entries = Vec::new();
                std::mem::swap(&mut entries, &mut self.entries);
                entries.push((k, v));
                self.entries = entries;
            },
        }
    }

    /// Removes address `k`.
    pub fn remove(&mut self, k: &Address)
        ensures
            final(self).view() == old(self).view().remove(*k),
    {
        proof {
            use_type_invariant(&*self);
        }
        match self.find(k) {
            Some(i) => {
                proof {
                    lemma_remove(self.entries@, i as int);
                }
                let mut entries = Vec::new();
                std::mem::swap(&mut entries, &mut self.entries);
                entries.remove(i);
                self.entries = entries;
            },
            None => {
                assert(self.view().remove(*k) =~= self.view());
            },
        }
    }

    /// Removes every address.
    pub fn clear(&mut self)
        ensures
            final(self).view() == Map::<Address, V>::empty(),
    {
        self.entries = Vec::new();
        assert(self.view() =~= Map::<Address, V>::empty());
    }
}

impl<V: Copy> AddressMap<V> {
    /// The entries of the map, each address once.
    pub fn to_vec(&self) -> (r: Vec<(Address, V)>)
        ensures
            distinct_keys(r@),
            map_of(r@) == self.view(),
    {
        proof {
            use_type_invariant(self);
        }
        let mut r: Vec<(Address, V)> = Vec::new();
        let mut i: usize = 0;
        while i < self.entries.len()
            invariant
                i <= self.entries@.len(),
                r@ == self.entries@.take(i as int),
            decreases self.entries@.len() - i,
        {
            let e = self.entries[i];
            r.push(e);
            i = i + 1;
            assert(r@ =~= self.entries@.take(i as int));
        }
        assert(r@ =~= self.entries@);
        r
    }
}

} // verus!
