//! The register of plugins, by name.

use vstd::prelude::*;
use vstd::hash_map::StringHashMap;

verus! {

/// The plugins that are registered.
pub struct PluginRegistry {
    plugins: StringHashMap<()>,
}

impl PluginRegistry {
    /// The names of the registered plugins.
    pub closed spec fn names(&self) -> Set<Seq<char>> {
        self.plugins@.dom()
    }

    pub fn new() -> (r: PluginRegistry)
        ensures
            r.names() == Set::<Seq<char>>::empty(),
    {
        PluginRegistry { plugins: StringHashMap::new() }
    }

    /// How many plugins are registered.
    pub fn plugin_count(&self) -> (n: usize)
        ensures
            n == self.names().len(),
    {
        self.plugins.len()
    }
}

impl Default for PluginRegistry {
    fn default() -> (r: PluginRegistry)
        ensures
            r.names() == Set::<Seq<char>>::empty(),
    {
        PluginRegistry::new()
    }
}

} // verus!
