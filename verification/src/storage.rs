//! An in-memory model of a pallet's keyed storage: a finite map from keys to
//! values, kept as a list of entries with pairwise distinct keys.
//!
//! A pallet's storage maps and values live in the runtime's host storage,
//! which is reached only through the externalities of a running chain; they
//! cannot be called outside one, so the pallets here hold their storage in
//! this model instead. The keys are account ids of any type with decidable
//! equality and 32-byte proposal hashes; the hash maps of the standard
//! library come with a specification only for key types that follow its key
//! model, such as the primitive integers, so the store is a list of entries
//! whose lookups are verified here for every `StorageKey`.
use vstd::prelude::*;

verus! {

broadcast use vstd::array::group_array_axioms;

/// A storage key whose equality can be decided at run time, exactly as
/// equality of values.
pub trait StorageKey: Sized {
    fn key_eq(&self, other: &Self) -> (r: bool)
        ensures
            r == (*self == *other),
    ;
}

impl StorageKey for u64 {
    fn key_eq(&self, other: &Self) -> (r: bool) {
        *self == *other
    }
}

impl StorageKey for [u8; 32] {
    fn key_eq(&self, other: &Self) -> (r: bool) {
        let mut i: usize = 0;
        while i < 32
            invariant
                i <= 32,
                forall|j: int| 0 <= j < i ==> self[j] == other[j],
            decreases 32 - i,
        {
            if self[i] != other[i] {
                return false;
            }
            i = i + 1;
        }
        assert(*self =~= *other);
        true
    }
}

/// A finite map kept as a list of `(key, value)` entries whose keys are
/// pairwise distinct.
pub struct KeyedStore<K, V> {
    entries: Vec<(K, V)>,
}

impl<K, V> KeyedStore<K, V> {
    /// The keys of the entries, in storage order.
    pub closed spec fn key_seq(&self) -> Seq<K> {
        self.entries@.map_values(|e: (K, V)| e.0)
    }

    #[verifier::type_invariant]
    closed spec fn keys_distinct(&self) -> bool {
        self.key_seq().no_duplicates()
    }
}

impl<K, V> View for KeyedStore<K, V> {
    type V = Map<K, V>;

    closed spec fn view(&self) -> Map<K, V> {
        Map::new(
            |k: K| self.key_seq().contains(k),
            |k: K| self.entries@[self.key_seq().index_of(k)].1,
        )
    }
}

impl<K: StorageKey, V> KeyedStore<K, V> {
    /// The empty store.
    pub fn new() -> (s: Self)
        ensures
            s@ == Map::<K, V>::empty(),
    {
        let s = KeyedStore { entries: Vec::new() };
        assert(s@ =~= Map::<K, V>::empty());
        s
    }

    /// The position of the entry for `k`, if there is one.
    fn find(&self, k: &K) -> (r: Option<usize>)
        ensures
            match r {
                Some(i) => {
                    &&& i < self.entries@.len()
                    &&& self.entries@[i as int].0 == *k
                    &&& self.key_seq().index_of(*k) == i
                    &&& self@.dom().contains(*k)
                    &&& self@[*k] == self.entries@[i as int].1
                },
                None => !self.key_seq().contains(*k) && !self@.dom().contains(*k),
            },
    {
        proof {
            use_type_invariant(self);
        }
        let n = self.entries.len();
        let mut i: usize = 0;
        while i < n
            invariant
                n == self.entries@.len(),
                i <= n,
                self.key_seq().no_duplicates(),
                forall|j: int| 0 <= j < i ==> self.entries@[j].0 != *k,
            decreases n - i,
        {
            if self.entries[i].0.key_eq(k) {
                proof {
                    let ks = self.key_seq();
                    assert(ks[i as int] == *k);
                    assert(ks.contains(*k));
                    let c = ks.index_of(*k);
                    assert(ks[c] == *k);
                    assert(c == i);
                }
                return Some(i);
            }
            i = i + 1;
        }
        proof {
            let ks = self.key_seq();
            assert forall|j: int| 0 <= j < ks.len() implies ks[j] != *k by {
                assert(ks[j] == self.entries@[j].0);
            }
        }
        None
    }

    /// Whether the store has an entry for `k`.
    pub fn contains_key(&self, k: &K) -> (r: bool)
        ensures
            r == self@.dom().contains(*k),
    {
        self.find(k).is_some()
    }

    /// The value stored under `k`, if any.
    pub fn get(&self, k: &K) -> (r: Option<&V>)
        ensures
            match r {
                Some(v) => self@.dom().contains(*k) && *v == self@[*k],
                None => !self@.dom().contains(*k),
            },
    {
        match self.find(k) {
            Some(i) => Some(&self.entries[i].1),
            None => None,
        }
    }

    /// Stores `v` under `k`, replacing any value stored there before.
    pub fn insert(&mut self, k: K, v: V)
        ensures
            final(self)@ == old(self)@.insert(k, v),
    {
        proof {
            use_type_invariant(&*self);
        }
        let ghost old_map = self@;
        let ghost old_keys = self.key_seq();
        let ghost kk = k;
        let pos = self.find(&k);
        let mut entries: Vec<(K, V)> = Vec::new();
        std::mem::swap(&mut entries, &mut self.entries);
        match pos {
            Some(i) => {
                entries.set(i, (k, v));
            },
            None => {
                entries.push((k, v));
            },
        }
        let ghost ks = entries@.map_values(|e: (K, V)| e.0);
        proof {
            match pos {
                Some(i) => {
                    assert(ks =~= old_keys) by {
                        assert forall|j: int| 0 <= j < ks.len() implies ks[j] == old_keys[j] by {
                            if j == i {
                                assert(old_keys[j] == kk);
                            }
                        }
                    }
                },
                None => {
                    assert(ks =~= old_keys.push(kk));
                    assert forall|a: int, b: int|
                        0 <= a < ks.len() && 0 <= b < ks.len() && a != b implies ks[a]
                        != ks[b] by {
                        let n = old_keys.len() as int;
                        if a == n && ks[a] == ks[b] {
                            assert(old_keys[b] == kk);
                        } else if b == n && ks[a] == ks[b] {
                            assert(old_keys[a] == kk);
                        }
                    }
                },
            }
        }
        self.entries = entries;
        proof {
            assert(self.key_seq() == ks);
            let target = old_map.insert(kk, v);
            assert forall|key: K| target.dom().contains(key) implies #[trigger] ks.contains(key) by {
                if key == kk {
                    match pos {
                        Some(i) => {
                            assert(ks[i as int] == kk);
                        },
                        None => {
                            assert(ks[old_keys.len() as int] == kk);
                        },
                    }
                } else {
                    let oc = old_keys.index_of(key);
                    assert(old_keys[oc] == key);
                    assert(ks[oc] == key);
                }
            }
            assert forall|key: K| #[trigger] ks.contains(key) implies target.dom().contains(key) by {
                let c = ks.index_of(key);
                assert(ks[c] == key);
                if key != kk {
                    assert(old_keys[c] == key);
                }
            }
            assert forall|key: K| #[trigger] self@.dom().contains(key) implies self@[key]
                == target[key] by {
                let c = ks.index_of(key);
                assert(ks[c] == key);
                if key == kk {
                    match pos {
                        Some(i) => {
                            assert(ks[i as int] == kk);
                            assert(c == i);
                        },
                        None => {
                            let n = old_keys.len() as int;
                            assert(ks[n] == kk);
                            assert(c == n);
                        },
                    }
                } else {
                    assert(old_keys[c] == key);
                    let oc = old_keys.index_of(key);
                    assert(old_keys[oc] == key);
                    assert(ks[oc] == key);
                    assert(oc == c);
                    match pos {
                        Some(i) => {
                            assert(c != i);
                        },
                        None => {},
                    }
                }
            }
            assert(self@ =~= target);
        }
    }
}

} // verus!
