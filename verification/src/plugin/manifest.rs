//! What a plugin says of itself, and whether the engine and the other
//! plugins suit it.

use vstd::prelude::*;

verus! {

/// A plugin that another plugin needs.
pub struct PluginDependency {
    pub name: String,
    pub version_requirement: String,
    pub optional: bool,
}

/// Name, version and needs of a plugin.
pub struct PluginManifest {
    pub name: String,
    pub version: String,
    pub description: String,
    pub author: String,
    pub engine_version: String,
    pub dependencies: Vec<PluginDependency>,
    /// Names of entry points, each with the symbol that it stands for.
    pub entry_points: Vec<(String, String)>,
    pub permissions: Vec<String>,
    /// Further data by name.
    pub metadata: Vec<(String, serde_json::Value)>,
}

/// Whether the version `available` meets `requirement`: the requirement is
/// `*` or the very version.
pub open spec fn version_meets(available: Seq<char>, requirement: Seq<char>) -> bool {
    requirement == "*"@ || available == requirement
}

/// Whether `plugin` is the plugin that `dep` asks for.
pub open spec fn provides(plugin: &PluginManifest, dep: &PluginDependency) -> bool {
    plugin.name@ == dep.name@ && version_meets(plugin.version@, dep.version_requirement@)
}

fn same(a: &str, b: &str) -> (r: bool)
    ensures
        r == (a@ == b@),
{
    let left = a.to_owned();
    let right = b.to_owned();
    left == right
}

impl PluginManifest {
    /// Whether the plugin runs on the engine of this version: it asks for
    /// that very version or for `*`.
    pub fn is_compatible_with_engine(&self, engine_version: &str) -> (r: bool)
        ensures
            r == (self.engine_version@ == engine_version@ || self.engine_version@ == "*"@),
    {
        same(self.engine_version.as_str(), engine_version) || same(self.engine_version.as_str(), "*")
    }

    /// Whether `dep` is met by the plugins at hand: it is optional, or one
    /// of them has its name and a version that meets its requirement.
    pub fn check_dependency(&self, dep: &PluginDependency, available_plugins: &Vec<PluginManifest>)
        -> (r: bool)
        ensures
            r == (dep.optional || exists|k: int|
                0 <= k < available_plugins@.len() && provides(&#[trigger] available_plugins@[k], dep)),
    {
        if dep.optional {
            return true;
        }
        let mut k: usize = 0;
        while k < available_plugins.len()
            invariant
                k <= available_plugins@.len(),
                forall|j: int| 0 <= j < k ==> !provides(&#[trigger] available_plugins@[j], dep),
            decreases available_plugins@.len() - k,
        {
            let plugin = &available_plugins[k];
            if same(plugin.name.as_str(), dep.name.as_str()) && self.version_matches(
                plugin.version.as_str(),
                dep.version_requirement.as_str(),
            ) {
                return true;
            }
            k = k + 1;
        }
        false
    }

    /// Whether every dependency of this plugin that is not optional is met
    /// by the plugins at hand.
    pub fn dependencies_met(&self, available_plugins: &Vec<PluginManifest>) -> (r: bool)
        ensures
            r == forall|d: int|
                0 <= d < self.dependencies@.len() ==> (#[trigger] self.dependencies@[d]).optional
                    || exists|k: int|
                    0 <= k < available_plugins@.len() && provides(
                        &#[trigger] available_plugins@[k],
                        &self.dependencies@[d],
                    ),
    {
        let mut d: usize = 0;
        while d < self.dependencies.len()
            invariant
                d <= self.dependencies@.len(),
                forall|j: int|
                    0 <= j < d ==> (#[trigger] self.dependencies@[j]).optional || exists|k: int|
                        0 <= k < available_plugins@.len() && provides(
                            &#[trigger] available_plugins@[k],
                            &self.dependencies@[j],
                        ),
            decreases self.dependencies@.len() - d,
        {
            if !self.check_dependency(&self.dependencies[d], available_plugins) {
                return false;
            }
            d = d + 1;
        }
        true
    }

    fn version_matches(&self, available: &str, requirement: &str) -> (r: bool)
        ensures
            r == version_meets(available@, requirement@),
    {
        same(requirement, "*") || same(available, requirement)
    }
}

impl Default for PluginManifest {
    /// A manifest for a plugin without a name, version `0.1.0`, for the
    /// engine of version `0.1.0`, that needs nothing.
    fn default() -> (m: PluginManifest)
        ensures
            m.name@ == "unnamed-plugin"@,
            m.version@ == "0.1.0"@,
            m.description@ == "A RRTE engine plugin"@,
            m.author@ == "Unknown"@,
            m.engine_version@ == "0.1.0"@,
            m.dependencies@.len() == 0,
            m.permissions@.len() == 0,
            m.entry_points@.len() == 0,
            m.metadata@.len() == 0,
    {
        PluginManifest {
            name: "unnamed-plugin".to_owned(),
            version: "0.1.0".to_owned(),
            description: "A RRTE engine plugin".to_owned(),
            author: "Unknown".to_owned(),
            engine_version: "0.1.0".to_owned(),
            dependencies: Vec::new(),
            entry_points: Vec::new(),
            permissions: Vec::new(),
            metadata: Vec::new(),
        }
    }
}

} // verus!
