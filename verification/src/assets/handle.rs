//! Handles by which loaded assets are named.

use vstd::prelude::*;
use std::marker::PhantomData;

verus! {

/// A handle to an asset of type `T`.
pub struct AssetHandle<T> {
    id: u64,
    marker: PhantomData<T>,
}

impl<T> View for AssetHandle<T> {
    type V = u64;

    /// The number of the handle.
    closed spec fn view(&self) -> u64 {
        self.id
    }
}

impl<T> AssetHandle<T> {
    pub fn new(id: u64) -> (h: AssetHandle<T>)
        ensures
            h@ == id,
    {
        AssetHandle { id, marker: PhantomData }
    }

    pub fn id(&self) -> (id: u64)
        ensures
            id == self@,
    {
        self.id
    }
}

/// Hands out handles with numbers that were not handed out before.
pub struct HandleGenerator {
    next_id: u64,
}

impl HandleGenerator {
    /// The number of the next handle.
    pub closed spec fn next_id(&self) -> u64 {
        self.next_id
    }

    /// A generator whose first handle is number 1.
    pub fn new() -> (g: HandleGenerator)
        ensures
            g.next_id() == 1,
    {
        HandleGenerator { next_id: 1 }
    }

    /// The next handle. Numbers are handed out in order and start again
    /// at 0 after the largest.
    pub fn generate<T>(&mut self) -> (h: AssetHandle<T>)
        ensures
            h@ == old(self).next_id(),
            final(self).next_id() == (if old(self).next_id() == u64::MAX {
                0
            } else {
                old(self).next_id() + 1
            }),
    {
        let id: u64 = self.next_id;
        self.next_id = if id == u64::MAX {
            0
        } else {
            id + 1
        };
        AssetHandle::new(id)
    }
}

impl Default for HandleGenerator {
    fn default() -> (g: HandleGenerator)
        ensures
            g.next_id() == 1,
    {
        HandleGenerator::new()
    }
}

/// A handle that does not say what type of asset it names.
#[derive(Clone, Copy, Debug, PartialEq, Eq, Hash, Structural)]
pub struct UntypedHandle {
    pub id: u64,
}

impl UntypedHandle {
    pub fn new(id: u64) -> (h: UntypedHandle)
        ensures
            h.id == id,
    {
        UntypedHandle { id }
    }

    pub fn id(&self) -> (id: u64)
        ensures
            id == self.id,
    {
        self.id
    }

    /// The handle of the same number for assets of type `T`.
    pub fn typed<T>(self) -> (h: AssetHandle<T>)
        ensures
            h@ == self.id,
    {
        AssetHandle::new(self.id)
    }

    /// The handle of the same number without its type.
    pub fn from_typed<T>(handle: &AssetHandle<T>) -> (h: UntypedHandle)
        ensures
            h.id == handle@,
    {
        UntypedHandle::new(handle.id())
    }
}

} // verus!
