//! Loaders, and the register that finds the loader for a file by the
//! file's extension.

use vstd::prelude::*;
use vstd::hash_map::StringHashMap;
use crate::assets::asset::Asset;

verus! {

/// Why an asset could not be loaded.
#[derive(Debug)]
pub enum AssetError {
    /// The path has no file extension.
    NoExtension,
    /// No loader is registered for the extension.
    NoLoader { extension: String },
    /// The loader failed.
    Failed { reason: String },
}

/// Loads assets of type `T` from files.
pub trait AssetLoader<T: Asset> {
    /// Whether loading from `path` can come to `result`. Each loader says
    /// of itself what it loads; one that says nothing can come to
    /// anything.
    open spec fn loads(&self, path: Seq<char>, result: Result<T, AssetError>) -> bool {
        true
    }

    fn load(&self, path: &str) -> (r: Result<T, AssetError>)
        ensures
            self.loads(path@, r),
    ;

    /// The file extensions that the loader takes, without the dot.
    fn extensions(&self) -> Vec<String>;
}

/// `Path::extension` of the standard library: the part of the file name
/// behind its last dot, where the file name has a dot that is not its
/// first character. What counts as the file name is the platform's
/// affair, so all that is claimed is that the extension holds no dot.
#[verifier::external_body]
pub(crate) fn extension_of(path: &str) -> (extension: Option<String>)
    ensures
        extension.is_some() ==> !extension.unwrap()@.contains('.'),
{
    match std::path::Path::new(path).extension() {
        Some(extension) => match extension.to_str() {
            Some(text) => Some(text.to_string()),
            None => None,
        },
        None => None,
    }
}

/// The characters of an extension, where there is one.
pub open spec fn spelled(extension: Option<String>) -> Option<Seq<char>> {
    match extension {
        Some(e) => Some(e@),
        None => None,
    }
}

/// The loaders that are registered, and which of them takes which
/// extension.
pub struct LoaderRegistry<L> {
    loaders: Vec<L>,
    by_extension: StringHashMap<usize>,
}

impl<L> LoaderRegistry<L> {
    /// The loaders in the order of their registration.
    pub closed spec fn loaders(&self) -> Seq<L> {
        self.loaders@
    }

    /// For each extension, the place of its loader among the loaders.
    pub closed spec fn index(&self) -> Map<Seq<char>, usize> {
        self.by_extension@
    }

    /// Every extension leads to a loader that is there.
    pub closed spec fn wf(&self) -> bool {
        forall|e: Seq<char>| #[trigger]
            self.by_extension@.contains_key(e) ==> self.by_extension@[e] < self.loaders@.len()
    }

    /// The index after `extensions` have been given to the loader at
    /// place `at`, one after the other.
    pub open spec fn assigned(index: Map<Seq<char>, usize>, extensions: Seq<String>, at: usize) -> Map<
        Seq<char>,
        usize,
    >
        decreases extensions.len(),
    {
        if extensions.len() == 0 {
            index
        } else {
            Self::assigned(index, extensions.drop_last(), at).insert(extensions.last()@, at)
        }
    }

    pub fn new() -> (r: LoaderRegistry<L>)
        ensures
            r.wf(),
            r.loaders() == Seq::<L>::empty(),
            r.index() == Map::<Seq<char>, usize>::empty(),
    {
        LoaderRegistry { loaders: Vec::new(), by_extension: StringHashMap::new() }
    }

    /// Registers `loader` for `extensions`. Where an extension had a
    /// loader, the new one takes its place.
    pub fn register(&mut self, loader: L, extensions: Vec<String>)
        requires
            old(self).wf(),
        ensures
            final(self).wf(),
            final(self).loaders() == old(self).loaders().push(loader),
            final(self).index() == Self::assigned(
                old(self).index(),
                extensions@,
                old(self).loaders().len() as usize,
            ),
    {
        let at: usize = self.loaders.len();
        self.loaders.push(loader);
        let mut i: usize = 0;
        while i < extensions.len()
            invariant
                i <= extensions@.len(),
                self.loaders@ == old(self).loaders@.push(loader),
                at == old(self).loaders@.len(),
                self.wf(),
                self.by_extension@ == Self::assigned(
                    old(self).by_extension@,
                    extensions@.take(i as int),
                    at,
                ),
            decreases extensions@.len() - i,
        {
            let extension = extensions[i].clone();
            proof {
                let grown = extensions@.take(i + 1);
                assert(grown.drop_last() =~= extensions@.take(i as int));
                assert(grown.last() == extensions@[i as int]);
            }
            self.by_extension.insert(extension, at);
            i = i + 1;
        }
        proof {
            assert(extensions@.take(extensions@.len() as int) =~= extensions@);
        }
    }

    /// Registers `loader` for the extensions that it names.
    pub fn register_loader<T: Asset>(&mut self, loader: L) where L: AssetLoader<T>
        requires
            old(self).wf(),
        ensures
            final(self).wf(),
            final(self).loaders() == old(self).loaders().push(loader),
            exists|extensions: Seq<String>|
                final(self).index() == #[trigger] Self::assigned(
                    old(self).index(),
                    extensions,
                    old(self).loaders().len() as usize,
                ),
    {
        let extensions = loader.extensions();
        let ghost named = extensions@;
        self.register(loader, extensions);
        assert(self.index() == Self::assigned(
            old(self).index(),
            named,
            old(self).loaders().len() as usize,
        ));
    }

    /// The place of the loader for a file with this extension.
    ///
    /// Fails with `NoExtension` where `extension` is `None`, and with
    /// `NoLoader` and the extension where no loader is registered for it.
    pub fn resolve(&self, extension: Option<String>) -> (r: Result<usize, AssetError>)
        requires
            self.wf(),
        ensures
            match r {
                Ok(at) => {
                    &&& extension.is_some()
                    &&& self.index().contains_key(extension.unwrap()@)
                    &&& at == self.index()[extension.unwrap()@]
                    &&& at < self.loaders().len()
                },
                Err(AssetError::NoExtension) => extension.is_none(),
                Err(AssetError::NoLoader { extension: named }) => {
                    &&& extension.is_some()
                    &&& named@ == extension.unwrap()@
                    &&& !self.index().contains_key(named@)
                },
                Err(AssetError::Failed { .. }) => false,
            },
    {
        match extension {
            None => Err(AssetError::NoExtension),
            Some(e) => {
                let found = self.by_extension.get(e.as_str());
                match found {
                    Some(at) => Ok(*at),
                    None => Err(AssetError::NoLoader { extension: e }),
                }
            },
        }
    }

    /// Whether `r` can be what loading from `path` comes to, where the
    /// path has the given extension: `NoExtension` where it has none,
    /// `NoLoader` with the extension where no loader is registered for it,
    /// and else what the loader for the extension comes to.
    pub open spec fn gives<T: Asset>(
        &self,
        extension: Option<Seq<char>>,
        path: Seq<char>,
        r: Result<T, AssetError>,
    ) -> bool where L: AssetLoader<T> {
        match extension {
            None => r matches Err(AssetError::NoExtension),
            Some(e) => if self.index().contains_key(e) {
                self.loaders()[self.index()[e] as int].loads(path, r)
            } else {
                r matches Err(AssetError::NoLoader { extension: named }) && named@ == e
            },
        }
    }

    /// Loads the asset at `path`, which has the given extension, with the
    /// loader for that extension.
    pub fn load_by_extension<T: Asset>(&self, extension: Option<String>, path: &str) -> (r: Result<
        T,
        AssetError,
    >) where L: AssetLoader<T>
        requires
            self.wf(),
        ensures
            self.gives(spelled(extension), path@, r),
    {
        match self.resolve(extension) {
            Ok(at) => self.loaders[at].load(path),
            Err(e) => Err(e),
        }
    }

    /// Loads the asset at `path` with the loader for its extension. The
    /// extension is the one that the standard library finds in the path;
    /// it holds no dot.
    pub fn load_asset<T: Asset>(&self, path: &str) -> (r: Result<T, AssetError>) where
        L: AssetLoader<T>,

        requires
            self.wf(),
        ensures
            exists|extension: Option<Seq<char>>|
                {
                    &&& #[trigger] self.gives(extension, path@, r)
                    &&& extension.is_some() ==> !extension.unwrap().contains('.')
                },
    {
        let extension = extension_of(path);
        let ghost found = spelled(extension);
        let r = self.load_by_extension(extension, path);
        assert(self.gives(found, path@, r));
        r
    }

    /// How many loaders are registered.
    pub fn loader_count(&self) -> (n: usize)
        ensures
            n == self.loaders().len(),
    {
        self.loaders.len()
    }
}

impl<L> Default for LoaderRegistry<L> {
    fn default() -> (r: LoaderRegistry<L>)
        ensures
            r.wf(),
            r.loaders() == Seq::<L>::empty(),
    {
        LoaderRegistry::new()
    }
}

} // verus!
