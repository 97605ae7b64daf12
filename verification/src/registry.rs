//! The authoritative mapping from guest-assigned numeric ids to owned
//! objects. A registry enforces id uniqueness and existence: an id can be
//! inserted only while absent, and lookups answer exactly for the live ids.

use vstd::prelude::*;

verus! {

/// The mathematical contents of an entry list: later entries win, though
/// a well-formed registry never holds a key twice.
pub open spec fn entries_as_map<T>(s: Seq<(u32, T)>) -> Map<u32, T>
    decreases s.len(),
{
    if s.len() == 0 {
        Map::empty()
    } else {
        entries_as_map(s.drop_last()).insert(s.last().0, s.last().1)
    }
}

/// No key occurs twice in the entry list.
pub open spec fn entries_unique<T>(s: Seq<(u32, T)>) -> bool {
    forall|i: int, j: int| 0 <= i < j < s.len() ==> s[i].0 != s[j].0
}

proof fn lemma_entries_contains<T>(s: Seq<(u32, T)>, k: u32)
    ensures
        entries_as_map(s).contains_key(k) <==> exists|i: int| 0 <= i < s.len() && s[i].0 == k,
    decreases s.len(),
{
    if s.len() == 0 {
        assert(entries_as_map(s) == Map::<u32, T>::empty());
    } else {
        lemma_entries_contains(s.drop_last(), k);
        assert(entries_as_map(s) == entries_as_map(s.drop_last()).insert(s.last().0, s.last().1));
        if s.last().0 == k {
            assert(s[s.len() - 1].0 == k);
            assert(exists|i: int| 0 <= i < s.len() && s[i].0 == k);
        } else {
            assert forall|i: int| 0 <= i < s.len() && s[i].0 == k implies exists|j: int|
                0 <= j < s.len() - 1 && s.drop_last()[j].0 == k by {
                assert(s.drop_last()[i] == s[i]);
            }
            assert forall|j: int| 0 <= j < s.len() - 1 && s.drop_last()[j].0 == k implies exists|
                i: int,
            | 0 <= i < s.len() && s[i].0 == k by {
                assert(s[j] == s.drop_last()[j]);
            }
        }
    }
}

proof fn lemma_entries_index<T>(s: Seq<(u32, T)>, i: int)
    requires
        entries_unique(s),
        0 <= i < s.len(),
    ensures
        entries_as_map(s).contains_key(s[i].0),
        entries_as_map(s)[s[i].0] == s[i].1,
    decreases s.len(),
{
    if i == s.len() - 1 {
    } else {
        assert(s.drop_last()[i] == s[i]);
        lemma_entries_index(s.drop_last(), i);
        assert(s.last().0 != s[i].0);
    }
}

proof fn lemma_entries_remove<T>(s: Seq<(u32, T)>, i: int)
    requires
        entries_unique(s),
        0 <= i < s.len(),
    ensures
        entries_unique(s.remove(i)),
        entries_as_map(s.remove(i)) =~= entries_as_map(s).remove(s[i].0),
    decreases s.len(),
{
    assert forall|p: int, q: int| 0 <= p < q < s.remove(i).len() implies s.remove(i)[p].0
        != s.remove(i)[q].0 by {
        assert(s.remove(i)[p] == if p < i {
            s[p]
        } else {
            s[p + 1]
        });
        assert(s.remove(i)[q] == if q < i {
            s[q]
        } else {
            s[q + 1]
        });
    }
    if i == s.len() - 1 {
        assert(s.remove(i) =~= s.drop_last());
        lemma_entries_contains(s.drop_last(), s[i].0);
        assert forall|j: int| 0 <= j < s.drop_last().len() implies s.drop_last()[j].0 != s[i].0 by {
            assert(s.drop_last()[j] == s[j]);
        }
        assert(!entries_as_map(s.drop_last()).contains_key(s[i].0));
    } else {
        let t = s.remove(i);
        assert(t.len() == s.len() - 1);
        assert(t.drop_last() =~= s.drop_last().remove(i));
        assert(t.last() == s.last());
        lemma_entries_remove(s.drop_last(), i);
        assert(s.drop_last()[i] == s[i]);
        assert(entries_as_map(t.drop_last()) =~= entries_as_map(s.drop_last()).remove(s[i].0));
        assert(s.last().0 != s[i].0);
        assert(entries_as_map(t) =~= entries_as_map(s.drop_last()).remove(s[i].0).insert(
            s.last().0,
            s.last().1,
        ));
        assert(entries_as_map(s).remove(s[i].0) =~= entries_as_map(s.drop_last()).insert(
            s.last().0,
            s.last().1,
        ).remove(s[i].0));
    }
}

/// A registry of live objects keyed by a guest-assigned id.
pub struct Registry<T> {
    entries: Vec<(u32, T)>,
}

impl<T> Registry<T> {
    /// The map this registry represents.
    pub closed spec fn as_map(&self) -> Map<u32, T> {
        entries_as_map(self.entries@)
    }

    /// Ids are unique while live.
    pub closed spec fn wf(&self) -> bool {
        entries_unique(self.entries@)
    }

    /// An empty registry.
    pub fn new() -> (r: Registry<T>)
        ensures
            r.wf(),
            r.as_map() == Map::<u32, T>::empty(),
    {
        Registry { entries: Vec::new() }
    }

    fn find_index(&self, id: u32) -> (r: Option<usize>)
        ensures
            match r {
                Some(i) => i < self.entries@.len() && self.entries@[i as int].0 == id,
                None => forall|j: int| 0 <= j < self.entries@.len() ==> self.entries@[j].0 != id,
            },
    {
        let n = self.entries.len();
        let mut i: usize = 0;
        while i < n
            invariant
                i <= n,
                n == self.entries@.len(),
                forall|j: int| 0 <= j < i ==> self.entries@[j].0 != id,
            decreases n - i,
        {
            if self.entries[i].0 == id {
                return Some(i);
            }
            i = i + 1;
        }
        None
    }

    /// Whether `id` is live.
    pub fn contains_key(&self, id: u32) -> (r: bool)
        ensures
            r == self.as_map().contains_key(id),
    {
        proof {
            lemma_entries_contains(self.entries@, id);
        }
        match self.find_index(id) {
            Some(_) => true,
            None => false,
        }
    }

    /// Borrows the object registered under `id`, if the id is live.
    pub fn get(&self, id: u32) -> (r: Option<&T>)
        requires
            self.wf(),
        ensures
            match r {
                Some(v) => self.as_map().contains_key(id) && *v == self.as_map()[id],
                None => !self.as_map().contains_key(id),
            },
    {
        proof {
            lemma_entries_contains(self.entries@, id);
        }
        match self.find_index(id) {
            Some(i) => {
                proof {
                    lemma_entries_index(self.entries@, i as int);
                }
                Some(&self.entries[i].1)
            },
            None => None,
        }
    }

    /// Registers `value` under the fresh id `id`.
    pub fn insert(&mut self, id: u32, value: T)
        requires
            old(self).wf(),
            !old(self).as_map().contains_key(id),
        ensures
            final(self).wf(),
            final(self).as_map() == old(self).as_map().insert(id, value),
    {
        proof {
            lemma_entries_contains(self.entries@, id);
        }
        self.entries.push((id, value));
        proof {
            assert(self.entries@.drop_last() =~= old(self).entries@);
        }
    }

    /// Removes and returns the object registered under `id`, if the id is
    /// live; the registry is untouched otherwise.
    pub fn remove(&mut self, id: u32) -> (r: Option<T>)
        requires
            old(self).wf(),
        ensures
            final(self).wf(),
            match r {
                Some(v) => old(self).as_map().contains_key(id) && v == old(self).as_map()[id]
                    && final(self).as_map() == old(self).as_map().remove(id),
                None => !old(self).as_map().contains_key(id) && *final(self) == *old(self),
            },
    {
        proof {
            lemma_entries_contains(self.entries@, id);
        }
        match self.find_index(id) {
            Some(i) => {
                proof {
                    lemma_entries_index(self.entries@, i as int);
                    lemma_entries_remove(self.entries@, i as int);
                }
                let entry = self.entries.remove(i);
                Some(entry.1)
            },
            None => None,
        }
    }
}

/// Removing a key and reinserting it yields the same map as inserting over
/// the live key directly; replacing a live object is exactly `insert`.
pub proof fn lemma_map_remove_insert<T>(m: Map<u32, T>, k: u32, v: T)
    ensures
        m.remove(k).insert(k, v) == m.insert(k, v),
{
    assert(m.remove(k).insert(k, v) =~= m.insert(k, v));
}

} // verus!
