//! A model of a BPF hash map: a key-value table with a fixed maximum number
//! of entries, as the kernel keeps it for the probes.

use vstd::prelude::*;
use std::collections::HashMap;
use std::hash::Hash;
use vstd::std_specs::hash::obeys_key_model;

verus! {

broadcast use vstd::std_specs::hash::group_hash_axioms;

/// A hash map holding at most `max_entries` entries.
pub struct BpfHashMap<K, V> {
    entries: HashMap<K, V>,
    max_entries: usize,
}

impl<K: Eq + Hash + Copy, V: Copy> View for BpfHashMap<K, V> {
    type V = Map<K, V>;

    closed spec fn view(&self) -> Map<K, V> {
        self.entries@
    }
}

impl<K: Eq + Hash + Copy, V: Copy> BpfHashMap<K, V> {
    /// The maximum number of entries.
    pub closed spec fn capacity(&self) -> nat {
        self.max_entries as nat
    }

    /// The map holds no more entries than its capacity allows.
    pub closed spec fn wf(&self) -> bool {
        &&& obeys_key_model::<K>()
        &&& self.entries@.dom().finite()
        &&& self.entries@.len() <= self.max_entries
    }

    /// A well-formed map is finite and within its capacity.
    pub proof fn lemma_bounded(&self)
        requires
            self.wf(),
        ensures
            self@.dom().finite(),
            self@.len() <= self.capacity(),
    {
    }

    /// An empty map that can hold `max_entries` entries.
    pub fn new(max_entries: usize) -> (m: Self)
        requires
            obeys_key_model::<K>(),
        ensures
            m.wf(),
            m@ == Map::<K, V>::empty(),
            m.capacity() == max_entries,
    {
        BpfHashMap { entries: HashMap::new(), max_entries }
    }

    /// The number of entries.
    pub fn len(&self) -> (n: usize)
        requires
            self.wf(),
        ensures
            n == self@.len(),
    {
        self.entries.len()
    }

    /// The value under `k`, copied.
    pub fn get(&self, k: &K) -> (r: Option<V>)
        requires
            self.wf(),
        ensures
            match r {
                Some(v) => self@.contains_key(*k) && v == self@[*k],
                None => !self@.contains_key(*k),
            },
    {
        match self.entries.get(k) {
            Some(v) => Some(*v),
            None => None,
        }
    }

    /// Whether `k` has an entry.
    pub fn contains(&self, k: &K) -> (r: bool)
        requires
            self.wf(),
        ensures
            r == self@.contains_key(*k),
    {
        self.entries.get(k).is_some()
    }

    /// Inserts or updates the entry of `k` (`BPF_ANY`). A new key is refused,
    /// and the map left unchanged, when the map is full.
    pub fn insert(&mut self, k: K, v: V) -> (ok: bool)
        requires
            old(self).wf(),
        ensures
            final(self).wf(),
            final(self).capacity() == old(self).capacity(),
            ok == (old(self)@.contains_key(k) || old(self)@.len() < old(self).capacity()),
            ok ==> final(self)@ == old(self)@.insert(k, v),
            !ok ==> final(self)@ == old(self)@,
    {
        if self.entries.get(&k).is_some() || self.entries.len() < self.max_entries {
            self.entries.insert(k, v);
            proof {
                if old(self)@.contains_key(k) {
                    assert(self.entries@.dom() =~= old(self)@.dom());
                }
            }
            true
        } else {
            false
        }
    }

    /// Removes the entry of `k`; false where there is none.
    pub fn remove(&mut self, k: &K) -> (ok: bool)
        requires
            old(self).wf(),
        ensures
            final(self).wf(),
            final(self).capacity() == old(self).capacity(),
            ok == old(self)@.contains_key(*k),
            final(self)@ == old(self)@.remove(*k),
    {
        let r = self.entries.remove(k);
        r.is_some()
    }
}

} // verus!
