use vstd::prelude::*;
use std::collections::HashSet;
use std::hash::BuildHasher;
use std::hash::Hash;

verus! {

/// Extension to the set API.
pub trait SetExt<T, S>: Sized {
    /// The elements this set holds.
    spec fn set_model(&self) -> Set<T>;

    /// Create a new, empty set.
    fn new_default() -> (r: Self)
        ensures
            r.set_model() == Set::<T>::empty(),
    ;
}

impl<T: Eq + Hash, S: BuildHasher + Default> SetExt<T, S> for HashSet<T, S> {
    open spec fn set_model(&self) -> Set<T> {
        self@
    }

    fn new_default() -> (r: HashSet<T, S>) {
        HashSet::default()
    }
}

} // verus!
