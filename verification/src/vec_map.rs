//! A finite map held as a vector of distinct keys and their values, the form in which the
//! pallet keeps its storage maps.
//!
//! A `frame_support` storage map keeps its values in the runtime's storage, which exists
//! only inside the runtime's externalities and is declared by the pallet macros; the pallet
//! here keeps its pools in memory, in this map.
use vstd::prelude::*;

verus! {

/// Keys whose equality can be tested in executable code.
pub trait KeyEq: Sized {
    fn key_eq(&self, other: &Self) -> (r: bool)
        ensures
            r == (*self == *other),
    ;
}

impl KeyEq for u32 {
    fn key_eq(&self, other: &Self) -> (r: bool) {
        *self == *other
    }
}

impl KeyEq for u64 {
    fn key_eq(&self, other: &Self) -> (r: bool) {
        *self == *other
    }
}

impl KeyEq for (u32, u32) {
    fn key_eq(&self, other: &Self) -> (r: bool) {
        self.0 == other.0 && self.1 == other.1
    }
}

impl KeyEq for (u32, u64) {
    fn key_eq(&self, other: &Self) -> (r: bool) {
        self.0 == other.0 && self.1 == other.1
    }
}

/// A map from `K` to `V`: each key occurs in at most one entry.
#[verifier::reject_recursive_types(K)]
pub struct VecMap<K, V> {
    entries: Vec<(K, V)>,
    contents: Ghost<Map<K, V>>,
}

impl<K, V> View for VecMap<K, V> {
    type V = Map<K, V>;

    closed spec fn view(&self) -> Map<K, V> {
        self.contents@
    }
}

impl<K: KeyEq + Copy, V: Copy> VecMap<K, V> {
    /// The entries hold distinct keys, and the map is what they hold.
    pub closed spec fn wf(&self) -> bool {
        &&& forall|i: int, j: int|
            0 <= i < j < self.entries@.len() ==> self.entries@[i].0 != self.entries@[j].0
        &&& forall|i: int|
            0 <= i < self.entries@.len() ==> {
                &&& self.contents@.contains_key(#[trigger] self.entries@[i].0)
                &&& self.contents@[self.entries@[i].0] == self.entries@[i].1
            }
        &&& forall|k: K|
            self.contents@.contains_key(k) ==> exists|i: int|
                0 <= i < self.entries@.len() && #[trigger] self.entries@[i].0 == k
    }

    pub fn new() -> (m: Self)
        ensures
            m.wf(),
            m@ == Map::<K, V>::empty(),
    {
        VecMap { entries: Vec::new(), contents: Ghost(Map::empty()) }
    }

    /// The position of `k` among the entries, if it has one.
    fn position(&self, k: &K) -> (r: Option<usize>)
        requires
            self.wf(),
        ensures
            match r {
                Some(i) => i < self.entries@.len() && self.entries@[i as int].0 == *k,
                None => !self@.contains_key(*k),
            },
    {
        let mut i: usize = 0;
        while i < self.entries.len()
            invariant
                i <= self.entries@.len(),
                forall|j: int| 0 <= j < i ==> self.entries@[j].0 != *k,
            decreases self.entries@.len() - i,
        {
            if self.entries[i].0.key_eq(k) {
                return Some(i);
            }
            i = i + 1;
        }
        None
    }

    pub fn get(&self, k: &K) -> (r: Option<V>)
        requires
            self.wf(),
        ensures
            r == (if self@.contains_key(*k) {
                Some(self@[*k])
            } else {
                None::<V>
            }),
    {
        match self.position(k) {
            Some(i) => Some(self.entries[i].1),
            None => None,
        }
    }

    pub fn contains_key(&self, k: &K) -> (r: bool)
        requires
            self.wf(),
        ensures
            r == self@.contains_key(*k),
    {
        self.position(k).is_some()
    }

    pub fn insert(&mut self, k: K, v: V)
        requires
            old(self).wf(),
        ensures
            final(self).wf(),
            final(self)@ == old(self)@.insert(k, v),
    {
        let ghost old_entries = self.entries@;
        let ghost mut idx: int = 0;
        match self.position(&k) {
            Some(i) => {
                self.entries.set(i, (k, v));
                proof {
                    idx = i as int;
                }
            },
            None => {
                self.entries.push((k, v));
                proof {
                    idx = old_entries.len() as int;
                }
            },
        }
        self.contents = Ghost(self.contents@.insert(k, v));
        assert(0 <= idx < self.entries@.len() && self.entries@[idx] == (k, v));
        assert forall|j: int| 0 <= j < self.entries@.len() && j != idx implies self.entries@[j]
            == old_entries[j] && old_entries[j].0 != k by {
            if old_entries[idx].0 == k && idx < old_entries.len() {
                assert(old_entries[j].0 != old_entries[idx].0);
            } else {
                assert(old(self).contents@.contains_key(old_entries[j].0));
            }
        }
        assert forall|a: int, b: int|
            0 <= a < b < self.entries@.len() implies self.entries@[a].0 != self.entries@[b].0 by {
            if a != idx && b != idx {
                assert(old_entries[a].0 != old_entries[b].0);
            }
        }
        assert forall|key: K| self.contents@.contains_key(key) implies exists|i: int|
            0 <= i < self.entries@.len() && #[trigger] self.entries@[i].0 == key by {
            if key != k {
                let i = choose|i: int|
                    0 <= i < old_entries.len() && #[trigger] old_entries[i].0 == key;
                assert(self.entries@[i].0 == key);
            } else {
                assert(self.entries@[idx].0 == key);
            }
        }
    }

    /// A copy of the map.
    pub fn copy(&self) -> (r: Self)
        requires
            self.wf(),
        ensures
            r.wf(),
            r@ == self@,
    {
        let mut entries: Vec<(K, V)> = Vec::new();
        let mut i: usize = 0;
        while i < self.entries.len()
            invariant
                self.wf(),
                i <= self.entries@.len(),
                entries@ == self.entries@.subrange(0, i as int),
            decreases self.entries@.len() - i,
        {
            entries.push(self.entries[i]);
            i = i + 1;
        }
        assert(entries@ == self.entries@);
        let r = VecMap { entries, contents: Ghost(self.contents@) };
        assert(r.entries@ == self.entries@);
        assert(r.contents@ == self.contents@);
        r
    }
}

/// A copy of a vector of copyable values.
pub fn copy_vec<T: Copy>(v: &Vec<T>) -> (r: Vec<T>)
    ensures
        r@ == v@,
{
    let mut r: Vec<T> = Vec::new();
    let mut i: usize = 0;
    while i < v.len()
        invariant
            i <= v@.len(),
            r@ == v@.subrange(0, i as int),
        decreases v@.len() - i,
    {
        r.push(v[i]);
        i = i + 1;
    }
    assert(r@ == v@);
    r
}

} // verus!
