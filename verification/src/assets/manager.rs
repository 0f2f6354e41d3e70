//! The assets that are loaded, by handle.

use vstd::prelude::*;
use std::collections::HashMap;
use crate::assets::asset::Asset;
use crate::assets::handle::UntypedHandle;
use crate::assets::loader::{AssetError, AssetLoader, LoaderRegistry};
use crate::ecs::maps::keys_of;

verus! {

/// Loads assets and keeps them under handles that it hands out in order.
pub struct AssetManager<A, L> {
    assets: HashMap<u64, A>,
    loader_registry: LoaderRegistry<L>,
    next_handle: UntypedHandle,
}

impl<A: Asset, L: AssetLoader<A>> AssetManager<A, L> {
    /// The loaded assets, by the number of their handle.
    pub closed spec fn loaded(&self) -> Map<u64, A> {
        self.assets@
    }

    /// The handle that the next asset gets.
    pub closed spec fn next_handle(&self) -> UntypedHandle {
        self.next_handle
    }

    /// The register of loaders.
    pub closed spec fn registry(&self) -> LoaderRegistry<L> {
        self.loader_registry
    }

    pub closed spec fn wf(&self) -> bool {
        self.loader_registry.wf()
    }

    /// A manager without assets or loaders; the first handle is number 0.
    pub fn new() -> (m: AssetManager<A, L>)
        ensures
            m.wf(),
            m.loaded() == Map::<u64, A>::empty(),
            m.next_handle() == (UntypedHandle { id: 0 }),
            m.registry().loaders() == Seq::<L>::empty(),
    {
        AssetManager {
            assets: HashMap::new(),
            loader_registry: LoaderRegistry::new(),
            next_handle: UntypedHandle::new(0),
        }
    }

    /// Keeps `asset` under the next handle and gives the handle back.
    pub fn store(&mut self, asset: A) -> (handle: UntypedHandle)
        requires
            old(self).wf(),
            old(self).next_handle().id < u64::MAX,
        ensures
            final(self).wf(),
            handle == old(self).next_handle(),
            final(self).next_handle().id == handle.id + 1,
            final(self).loaded() == old(self).loaded().insert(handle.id, asset),
            final(self).registry() == old(self).registry(),
    {
        let handle = self.next_handle;
        self.next_handle = UntypedHandle::new(handle.id + 1);
        self.assets.insert(handle.id, asset);
        handle
    }

    /// Whether `r` and `self` can be what loading from `path` comes to
    /// and leaves of the manager `before`, where the path has the given
    /// extension.
    ///
    /// On success the asset stands under the handle that was next, the
    /// handle is given back, and the asset is one that the loader for the
    /// extension can come to. On failure nothing has changed, and the
    /// error is the register's or the loader's for that extension.
    pub open spec fn took(
        &self,
        before: &Self,
        extension: Option<Seq<char>>,
        path: Seq<char>,
        r: Result<UntypedHandle, AssetError>,
    ) -> bool {
        match r {
            Ok(handle) => {
                &&& handle == before.next_handle()
                &&& self.next_handle().id == handle.id + 1
                &&& self.loaded().contains_key(handle.id)
                &&& self.loaded() == before.loaded().insert(handle.id, self.loaded()[handle.id])
                &&& before.registry().gives(
                    extension,
                    path,
                    Ok::<A, AssetError>(self.loaded()[handle.id]),
                )
            },
            Err(e) => {
                &&& self.loaded() == before.loaded()
                &&& self.next_handle() == before.next_handle()
                &&& before.registry().gives(extension, path, Err::<A, AssetError>(e))
            },
        }
    }

    /// Loads the asset at `path` with the loader for its extension and
    /// keeps it under the next handle. The extension is the one that the
    /// standard library finds in the path; it holds no dot.
    pub fn load(&mut self, path: &str) -> (r: Result<UntypedHandle, AssetError>)
        requires
            old(self).wf(),
            old(self).next_handle().id < u64::MAX,
        ensures
            final(self).wf(),
            final(self).registry() == old(self).registry(),
            exists|extension: Option<Seq<char>>|
                {
                    &&& #[trigger] final(self).took(old(self), extension, path@, r)
                    &&& extension.is_some() ==> !extension.unwrap().contains('.')
                },
    {
        let loaded = self.loader_registry.load_asset(path);
        let ghost extension = choose|extension: Option<Seq<char>>|
            {
                &&& #[trigger] self.loader_registry.gives(extension, path@, loaded)
                &&& extension.is_some() ==> !extension.unwrap().contains('.')
            };
        let r = match loaded {
            Ok(asset) => Ok(self.store(asset)),
            Err(e) => Err(e),
        };
        assert(self.took(old(self), extension, path@, r));
        r
    }

    /// The asset under `handle`.
    pub fn get(&self, handle: UntypedHandle) -> (found: Option<&A>)
        ensures
            found == (if self.loaded().contains_key(handle.id) {
                Some(&self.loaded()[handle.id])
            } else {
                None
            }),
    {
        self.assets.get(&handle.id)
    }

    /// Lets go of the asset under `handle`.
    pub fn unload(&mut self, handle: UntypedHandle)
        ensures
            final(self).loaded() == old(self).loaded().remove(handle.id),
            final(self).next_handle() == old(self).next_handle(),
            final(self).registry() == old(self).registry(),
            final(self).wf() == old(self).wf(),
    {
        self.assets.remove(&handle.id);
    }

    /// Registers `loader` for the extensions that it names.
    pub fn register_loader(&mut self, loader: L)
        requires
            old(self).wf(),
        ensures
            final(self).wf(),
            final(self).loaded() == old(self).loaded(),
            final(self).next_handle() == old(self).next_handle(),
            final(self).registry().loaders() == old(self).registry().loaders().push(loader),
    {
        self.loader_registry.register_loader(loader);
    }

    pub fn is_loaded(&self, handle: UntypedHandle) -> (r: bool)
        ensures
            r == self.loaded().contains_key(handle.id),
    {
        self.assets.contains_key(&handle.id)
    }

    /// The handles of the loaded assets, each once, in no particular
    /// order.
    pub fn loaded_assets(&self) -> (all: Vec<UntypedHandle>)
        ensures
            all@.len() == self.loaded().dom().len(),
            all@.no_duplicates(),
            forall|id: u64|
                self.loaded().contains_key(id) <==> all@.contains(UntypedHandle { id }),
    {
        let keys = keys_of(&self.assets);
        let mut all: Vec<UntypedHandle> = Vec::new();
        let mut i: usize = 0;
        while i < keys.len()
            invariant
                i <= keys@.len(),
                all@.len() == i,
                forall|k: int| 0 <= k < i ==> #[trigger] all@[k] == (UntypedHandle { id: keys@[k] }),
            decreases keys@.len() - i,
        {
            all.push(UntypedHandle::new(keys[i]));
            i = i + 1;
        }
        proof {
            assert forall|id: u64|
                self.loaded().contains_key(id) <==> all@.contains(UntypedHandle { id }) by {
                if self.loaded().contains_key(id) {
                    assert(keys@.to_set().contains(id));
                    let k = choose|k: int| 0 <= k < keys@.len() && keys@[k] == id;
                    assert(all@[k] == UntypedHandle { id });
                }
                if all@.contains(UntypedHandle { id }) {
                    let k = choose|k: int| 0 <= k < all@.len() && all@[k] == (UntypedHandle { id });
                    assert(keys@[k] == id);
                    assert(keys@.contains(id));
                    assert(keys@.to_set().contains(id));
                }
            }
            assert forall|a: int, b: int|
                0 <= a < all@.len() && 0 <= b < all@.len() && a != b implies all@[a] != all@[b] by {
                assert(keys@[a] != keys@[b]);
            }
        }
        all
    }
}

} // verus!
