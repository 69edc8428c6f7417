use vstd::prelude::*;
use vstd::std_specs::hash::builds_valid_hashers;
use vstd::std_specs::hash::obeys_key_model;
use std::collections::HashMap;
use std::hash::BuildHasher;
use std::hash::Hash;

verus! {

/// Extension for maps.
pub trait MapExt<K, V, S>: Sized {
    /// The key-value pairs this map holds.
    spec fn map_model(&self) -> Map<K, V>;

    /// Get the value if it exists, if not set it and return a reference.
    ///
    /// The map gains the pair `(key, or)` when `key` was absent and is left
    /// as it was when present; either way the result is the value under
    /// `key` afterwards.
    fn get_or(&mut self, key: K, or: V) -> (r: &V)
        requires
            obeys_key_model::<K>(),
            builds_valid_hashers::<S>(),
        ensures
            final(self).map_model() == if old(self).map_model().contains_key(key) {
                old(self).map_model()
            } else {
                old(self).map_model().insert(key, or)
            },
            final(self).map_model().contains_key(key),
            *r == final(self).map_model()[key],
    ;

    /// Get the value if it exists, if not set it and return a mutable
    /// reference.
    ///
    /// The reference starts at the value under `key` (or at `or` when `key`
    /// was absent), and whatever the caller leaves in it is what the map
    /// holds under `key` afterwards.
    fn get_or_mut(&mut self, key: K, or: V) -> (r: &mut V)
        requires
            obeys_key_model::<K>(),
            builds_valid_hashers::<S>(),
        ensures
            *r == if old(self).map_model().contains_key(key) {
                old(self).map_model()[key]
            } else {
                or
            },
            final(self).map_model() == old(self).map_model().insert(key, *final(r)),
    ;

    /// Create a new map, with default hasher.
    fn new_default() -> (r: Self)
        ensures
            r.map_model() == Map::<K, V>::empty(),
    ;
}

impl<K: Eq + Hash + Copy, V, S: BuildHasher + Default> MapExt<K, V, S> for HashMap<K, V, S> {
    open spec fn map_model(&self) -> Map<K, V> {
        self@
    }

    fn get_or(&mut self, key: K, or: V) -> (r: &V) {
        if self.contains_key(&key) {
            self.get(&key).unwrap()
        } else {
            self.insert(key, or);
            self.get(&key).unwrap()
        }
    }

    fn get_or_mut(&mut self, key: K, or: V) -> (r: &mut V) {
        self.entry(key).or_insert(or)
    }

    fn new_default() -> (r: HashMap<K, V, S>) {
        HashMap::default()
    }
}

} // verus!
