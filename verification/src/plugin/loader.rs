//! The loader of plugins.

use vstd::prelude::*;

verus! {

/// Loads plugins. So far it has nothing to keep.
#[derive(Debug, Default)]
pub struct PluginLoader;

impl PluginLoader {
    pub fn new() -> (l: PluginLoader) {
        PluginLoader
    }
}

} // verus!
