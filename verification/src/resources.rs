//! A central cache for renderer resources, addressed by hashed path IDs.
//!
//! Resources live in the cache; the rest of the engine refers to them only
//! through small copyable [`Handle`]s, so a texture or mesh can be shared
//! freely without aliasing the resource itself.

use vstd::prelude::*;
use std::collections::HashMap;
use std::marker::PhantomData;

verus! {

broadcast use vstd::std_specs::hash::group_hash_axioms;

/// The hash value that the cache files a path ID under. Relies on
/// `fxhash::hash64`, a deterministic, unseeded function of the path's bytes;
/// this name stands for its value on the running platform.
pub uninterp spec fn fx_hash_of(path: Seq<char>) -> u64;

/// A handle to a resource in a resource cache.
#[derive(Debug, PartialEq, Eq, PartialOrd, Ord)]
pub struct Handle<T> {
    pub hash: u64,
    pub data: PhantomData<T>,
}

impl<T> Clone for Handle<T> {
    fn clone(&self) -> (r: Self)
        ensures
            r == *self,
    {
        Handle { hash: self.hash, data: PhantomData }
    }
}

impl<T> Copy for Handle<T> {

}

impl<T> Handle<T> {
    /// A new handle naming the resource filed under the given hash.
    pub fn new(hash: u64) -> (r: Self)
        ensures
            r.hash == hash,
    {
        Handle { hash, data: PhantomData }
    }
}

/// A resource cache: a map from hashed path IDs to resources.
#[derive(Debug, Clone)]
pub struct ResourceCache<T> {
    assets: HashMap<u64, T>,
}

impl<T> View for ResourceCache<T> {
    type V = Map<u64, T>;

    closed spec fn view(&self) -> Map<u64, T> {
        self.assets@
    }
}

impl<T> ResourceCache<T> {
    /// A new empty resource cache.
    pub fn new() -> (r: Self)
        ensures
            r@ == Map::<u64, T>::empty(),
    {
        ResourceCache { assets: HashMap::new() }
    }

    /// Creates a u64 hash from the given path ID string.
    ///
    /// Relies on `fxhash::hash64` to hash the path's characters; the result
    /// depends on the path alone.
    #[verifier::external_body]
    pub fn hash_path(path: String) -> (r: u64)
        ensures
            r == fx_hash_of(path@),
    {
        fxhash::hash64(path.as_str())
    }

    /// Returns a handle to the object with the given path ID, calling the
    /// given load function if the cache does not hold the object yet. A
    /// cached object is never loaded again or replaced.
    pub fn load<F: Fn() -> T>(&mut self, path: String, load: F) -> (r: Handle<T>)
        requires
            call_requires(load, ()),
        ensures
            r.hash == fx_hash_of(path@),
            old(self)@.contains_key(fx_hash_of(path@)) ==> final(self)@ == old(self)@,
            !old(self)@.contains_key(fx_hash_of(path@)) ==> exists|v: T|
                #[trigger] call_ensures(load, (), v) && final(self)@ == old(self)@.insert(
                    fx_hash_of(path@),
                    v,
                ),
    {
        let hash = Self::hash_path(path);
        if self.assets.contains_key(&hash) {
            Handle::new(hash)
        } else {
            self.assets.insert(hash, load());
            Handle::new(hash)
        }
    }

    /// Get a resource from the cache using the given handle, if the cache
    /// holds one under the handle's hash.
    pub fn get(&self, handle: &Handle<T>) -> (r: Option<&T>)
        ensures
            match r {
                Some(v) => self@.contains_key(handle.hash) && *v == self@[handle.hash],
                None => !self@.contains_key(handle.hash),
            },
    {
        self.assets.get(&handle.hash)
    }

    /// Get a mutable resource from the cache using the given handle, if the
    /// cache holds one under the handle's hash.
    ///
    /// Relies on `std::collections::HashMap::get_mut`: a mutable borrow of
    /// the value stored under the key, leaving the rest of the map as it is.
    #[verifier::external_body]
    pub fn get_mut(&mut self, handle: &Handle<T>) -> (r: Option<&mut T>)
        ensures
            match r {
                Some(v) => {
                    &&& old(self)@.contains_key(handle.hash)
                    &&& *v == old(self)@[handle.hash]
                    &&& final(self)@ == old(self)@.insert(handle.hash, *final(v))
                },
                None => {
                    &&& !old(self)@.contains_key(handle.hash)
                    &&& final(self)@ == old(self)@
                },
            },
    {
        self.assets.get_mut(&handle.hash)
    }

    /// Inserts an object into the resource cache under the given hash,
    /// replacing what the cache held there.
    pub fn insert(&mut self, hash: u64, value: T)
        ensures
            final(self)@ == old(self)@.insert(hash, value),
    {
        self.assets.insert(hash, value);
    }

    /// Replaces the resource named by the given handle with the given value.
    pub fn replace(&mut self, handle: &Handle<T>, value: T)
        ensures
            final(self)@ == old(self)@.insert(handle.hash, value),
    {
        self.assets.insert(handle.hash, value);
    }
}

} // verus!
