//! Plugins: their life, and what the engine hands them.

use vstd::prelude::*;
use crate::math::scalar::Scalar;
use crate::plugin::manifest::PluginManifest;

verus! {

#[verifier::external_type_specification]
#[verifier::external_body]
pub struct ExJsonValue(serde_json::Value);

/// Why a plugin failed.
#[derive(Debug)]
pub struct PluginError {
    pub reason: String,
}

/// What the engine tells its plugins.
#[derive(Debug)]
pub enum PluginEvent {
    EngineStartup,
    EngineShutdown,
    FrameStart,
    FrameEnd,
    SceneLoad { scene_path: String },
    SceneUnload { scene_path: String },
    /// Any other event, with whatever data it carries.
    Custom { event_type: String, data: serde_json::Value },
}

/// Where a plugin is in its life.
#[derive(Debug)]
pub enum PluginState {
    Unloaded,
    Loaded,
    Initialized,
    Running,
    Error(String),
}

/// The resource that stands under `name` in a list of named resources:
/// that of the last entry with the name.
pub open spec fn lookup<R>(entries: Seq<(String, R)>, name: Seq<char>) -> Option<R>
    decreases entries.len(),
{
    if entries.len() == 0 {
        None
    } else if entries.last().0@ == name {
        Some(entries.last().1)
    } else {
        lookup(entries.drop_last(), name)
    }
}

/// No name stands twice in the list.
pub open spec fn names_distinct<R>(entries: Seq<(String, R)>) -> bool {
    forall|i: int, j: int|
        0 <= i < j < entries.len() ==> (#[trigger] entries[i]).0@ != (#[trigger] entries[j]).0@
}

/// What a lookup finds is in the list, and what it does not find is not.
/// Where no name stands twice, it finds the one entry of the name.
pub proof fn lemma_lookup<R>(entries: Seq<(String, R)>, name: Seq<char>)
    ensures
        lookup(entries, name).is_none() <==> forall|i: int|
            0 <= i < entries.len() ==> (#[trigger] entries[i]).0@ != name,
        names_distinct(entries) ==> forall|i: int|
            0 <= i < entries.len() && (#[trigger] entries[i]).0@ == name ==> lookup(entries, name)
                == Some(entries[i].1),
    decreases entries.len(),
{
    if entries.len() > 0 {
        let shorter = entries.drop_last();
        lemma_lookup(shorter, name);
        if entries.last().0@ == name {
            assert(entries[entries.len() - 1].0@ == name);
            if names_distinct(entries) {
                assert forall|i: int|
                    0 <= i < entries.len() && (#[trigger] entries[i]).0@ == name implies lookup(
                    entries,
                    name,
                ) == Some(entries[i].1) by {
                    if i < entries.len() - 1 {
                        assert(entries[i].0@ != entries[entries.len() - 1].0@);
                    }
                }
            }
        } else {
            assert forall|i: int| 0 <= i < shorter.len() implies (#[trigger] shorter[i])
                == entries[i] by {}
            if lookup(entries, name).is_none() {
                assert forall|i: int| 0 <= i < entries.len() implies (#[trigger] entries[i]).0@
                    != name by {
                    if i < shorter.len() {
                        assert(shorter[i].0@ != name);
                    }
                }
            } else {
                let k = choose|k: int| 0 <= k < shorter.len() && (#[trigger] shorter[k]).0@ == name;
                assert(entries[k].0@ == name);
            }
            if names_distinct(entries) {
                assert(names_distinct(shorter)) by {
                    assert forall|i: int, j: int| 0 <= i < j < shorter.len() implies (
                    #[trigger] shorter[i]).0@ != (#[trigger] shorter[j]).0@ by {
                        assert(entries[i].0@ != entries[j].0@);
                    }
                }
                assert forall|i: int|
                    0 <= i < entries.len() && (#[trigger] entries[i]).0@ == name implies lookup(
                    entries,
                    name,
                ) == Some(entries[i].1) by {
                    assert(i < shorter.len());
                    assert(shorter[i].0@ == name);
                }
            }
        }
    }
}

/// What a plugin is handed when the engine calls it: the engine's version
/// and the resources that plugins share, each under its name.
pub struct PluginContext<R> {
    pub engine_version: String,
    pub resources: Vec<(String, R)>,
}

fn same_name(a: &str, b: &str) -> (r: bool)
    ensures
        r == (a@ == b@),
{
    let left = a.to_owned();
    let right = b.to_owned();
    left == right
}

impl<R> PluginContext<R> {
    /// The shared resources, by name.
    pub open spec fn resources(&self) -> Map<Seq<char>, R> {
        Map::new(
            |name: Seq<char>| lookup(self.resources@, name).is_some(),
            |name: Seq<char>| lookup(self.resources@, name).unwrap(),
        )
    }

    /// No name stands twice among the resources.
    pub open spec fn wf(&self) -> bool {
        names_distinct(self.resources@)
    }

    pub fn new(engine_version: String) -> (c: PluginContext<R>)
        ensures
            c.wf(),
            c.engine_version == engine_version,
            c.resources() == Map::<Seq<char>, R>::empty(),
    {
        let c = PluginContext { engine_version, resources: Vec::new() };
        assert(c.resources() =~= Map::<Seq<char>, R>::empty());
        c
    }

    fn find(&self, name: &str) -> (at: Option<usize>)
        ensures
            match at {
                Some(i) => i < self.resources@.len() && self.resources@[i as int].0@ == name@,
                None => forall|i: int|
                    0 <= i < self.resources@.len() ==> (#[trigger] self.resources@[i]).0@ != name@,
            },
    {
        let mut i: usize = 0;
        while i < self.resources.len()
            invariant
                i <= self.resources@.len(),
                forall|k: int| 0 <= k < i ==> (#[trigger] self.resources@[k]).0@ != name@,
            decreases self.resources@.len() - i,
        {
            if same_name(self.resources[i].0.as_str(), name) {
                return Some(i);
            }
            i = i + 1;
        }
        None
    }

    /// Puts `resource` under `name`, in place of what was there.
    pub fn add_resource(&mut self, name: String, resource: R)
        requires
            old(self).wf(),
        ensures
            final(self).wf(),
            final(self).resources() == old(self).resources().insert(name@, resource),
            final(self).engine_version == old(self).engine_version,
    {
        let found = self.find(name.as_str());
        let ghost before = self.resources@;
        let ghost key = name@;
        match found {
            Some(i) => {
                self.resources.remove(i);
                self.resources.push((name, resource));
                proof {
                    let after = self.resources@;
                    assert forall|a: int, b: int| 0 <= a < b < after.len() implies (
                    #[trigger] after[a]).0@ != (#[trigger] after[b]).0@ by {
                        let ia = if a < i { a } else { a + 1 };
                        assert(after[a] == before[ia]);
                        if b < after.len() - 1 {
                            let ib = if b < i { b } else { b + 1 };
                            assert(after[b] == before[ib]);
                            assert(before[ia].0@ != before[ib].0@);
                        } else {
                            assert(before[ia].0@ != before[i as int].0@);
                        }
                    }
                    assert forall|k: Seq<char>| lookup(after, k) == (if k == key {
                        Some(resource)
                    } else {
                        lookup(before, k)
                    }) by {
                        lemma_lookup(after, k);
                        lemma_lookup(before, k);
                        if k != key {
                            if lookup(before, k).is_some() {
                                let j = choose|j: int|
                                    0 <= j < before.len() && (#[trigger] before[j]).0@ == k;
                                let ja = if j < i { j } else { j - 1 };
                                assert(after[ja] == before[j]);
                                assert(after[ja].0@ == k);
                            } else {
                                assert forall|a: int| 0 <= a < after.len() implies (
                                #[trigger] after[a]).0@ != k by {
                                    if a < after.len() - 1 {
                                        let ia = if a < i { a } else { a + 1 };
                                        assert(after[a] == before[ia]);
                                        assert(before[ia].0@ != k);
                                    }
                                }
                            }
                        }
                    }
                }
            },
            None => {
                self.resources.push((name, resource));
                proof {
                    let after = self.resources@;
                    assert(after.drop_last() =~= before);
                    assert forall|a: int, b: int| 0 <= a < b < after.len() implies (
                    #[trigger] after[a]).0@ != (#[trigger] after[b]).0@ by {
                        assert(after[a] == before[a]);
                        if b < before.len() {
                            assert(after[b] == before[b]);
                        }
                    }
                }
            },
        }
        assert(self.resources() =~= old(self).resources().insert(key, resource));
    }

    /// The resource under `name`.
    pub fn get_resource(&self, name: &str) -> (found: Option<&R>)
        requires
            self.wf(),
        ensures
            found == (if self.resources().contains_key(name@) {
                Some(&self.resources()[name@])
            } else {
                None
            }),
    {
        proof {
            lemma_lookup(self.resources@, name@);
        }
        match self.find(name) {
            Some(i) => Some(&self.resources[i].1),
            None => None,
        }
    }

    /// The resource under `name`, to be changed in place.
    pub fn get_resource_mut(&mut self, name: &str) -> (found: Option<&mut R>)
        requires
            old(self).wf(),
        ensures
            final(self).wf(),
            final(self).engine_version == old(self).engine_version,
            match found {
                Some(resource) => {
                    &&& old(self).resources().contains_key(name@)
                    &&& *resource == old(self).resources()[name@]
                    &&& final(self).resources() == old(self).resources().insert(
                        name@,
                        *final(resource),
                    )
                },
                None => {
                    &&& !old(self).resources().contains_key(name@)
                    &&& final(self).resources() == old(self).resources()
                },
            },
    {
        proof {
            lemma_lookup(self.resources@, name@);
        }
        match self.find(name) {
            Some(i) => {
                let ghost before = self.resources@;
                let entry = &mut self.resources[i];
                let slot = &mut entry.1;
                proof {
                    let after = before.update(i as int, (before[i as int].0, *final(slot)));
                    assert(names_distinct(after)) by {
                        assert forall|a: int, b: int| 0 <= a < b < after.len() implies (
                        #[trigger] after[a]).0@ != (#[trigger] after[b]).0@ by {
                            assert(before[a].0@ != before[b].0@);
                        }
                    }
                    assert forall|k: Seq<char>| lookup(after, k) == (if k == name@ {
                        Some(*final(slot))
                    } else {
                        lookup(before, k)
                    }) by {
                        lemma_lookup(after, k);
                        lemma_lookup(before, k);
                        if k == name@ {
                            assert(after[i as int].0@ == k);
                        } else if lookup(before, k).is_some() {
                            let j = choose|j: int|
                                0 <= j < before.len() && (#[trigger] before[j]).0@ == k;
                            assert(after[j].0@ == k);
                        } else {
                            assert forall|a: int| 0 <= a < after.len() implies (
                            #[trigger] after[a]).0@ != k by {
                                assert(before[a].0@ != k);
                            }
                        }
                    }
                    assert(Map::new(
                        |k: Seq<char>| lookup(after, k).is_some(),
                        |k: Seq<char>| lookup(after, k).unwrap(),
                    ) =~= old(self).resources().insert(name@, *final(slot)));
                }
                Some(slot)
            },
            None => None,
        }
    }

    /// Takes away the resource under `name` and gives it back.
    pub fn remove_resource(&mut self, name: &str) -> (removed: Option<R>)
        requires
            old(self).wf(),
        ensures
            final(self).wf(),
            removed == (if old(self).resources().contains_key(name@) {
                Some(old(self).resources()[name@])
            } else {
                None
            }),
            final(self).resources() == old(self).resources().remove(name@),
            final(self).engine_version == old(self).engine_version,
    {
        proof {
            lemma_lookup(self.resources@, name@);
        }
        let ghost before = self.resources@;
        match self.find(name) {
            Some(i) => {
                let entry = self.resources.remove(i);
                proof {
                    let after = self.resources@;
                    assert forall|a: int, b: int| 0 <= a < b < after.len() implies (
                    #[trigger] after[a]).0@ != (#[trigger] after[b]).0@ by {
                        let ia = if a < i { a } else { a + 1 };
                        let ib = if b < i { b } else { b + 1 };
                        assert(after[a] == before[ia]);
                        assert(after[b] == before[ib]);
                        assert(before[ia].0@ != before[ib].0@);
                    }
                    assert forall|k: Seq<char>| lookup(after, k) == (if k == name@ {
                        None
                    } else {
                        lookup(before, k)
                    }) by {
                        lemma_lookup(after, k);
                        lemma_lookup(before, k);
                        if k == name@ {
                            assert forall|a: int| 0 <= a < after.len() implies (
                            #[trigger] after[a]).0@ != k by {
                                let ia = if a < i { a } else { a + 1 };
                                assert(after[a] == before[ia]);
                                assert(before[ia].0@ != before[i as int].0@);
                            }
                        } else if lookup(before, k).is_some() {
                            let j = choose|j: int|
                                0 <= j < before.len() && (#[trigger] before[j]).0@ == k;
                            let ja = if j < i { j } else { j - 1 };
                            assert(after[ja] == before[j]);
                            assert(after[ja].0@ == k);
                        } else {
                            assert forall|a: int| 0 <= a < after.len() implies (
                            #[trigger] after[a]).0@ != k by {
                                let ia = if a < i { a } else { a + 1 };
                                assert(after[a] == before[ia]);
                                assert(before[ia].0@ != k);
                            }
                        }
                    }
                    assert(self.resources() =~= old(self).resources().remove(name@));
                }
                Some(entry.1)
            },
            None => {
                assert(self.resources() =~= old(self).resources().remove(name@));
                None
            },
        }
    }
}

/// What the engine calls on a plugin.
pub trait Plugin<R> {
    /// Whether `manifest` can be the manifest that the plugin gives of
    /// itself. Each plugin says which that is; one that says nothing can
    /// give any.
    open spec fn declares(&self, manifest: PluginManifest) -> bool {
        true
    }

    fn manifest(&self) -> (m: &PluginManifest)
        ensures
            self.declares(*m),
    ;

    fn initialize(&mut self, context: &mut PluginContext<R>) -> Result<(), PluginError>;

    /// Called every frame with the seconds since the last one.
    fn update(&mut self, context: &mut PluginContext<R>, delta_time: Scalar) -> Result<
        (),
        PluginError,
    >;

    fn shutdown(&mut self, context: &mut PluginContext<R>) -> Result<(), PluginError>;

    fn handle_event(&mut self, context: &mut PluginContext<R>, event: &PluginEvent) -> Result<
        (),
        PluginError,
    >;
}

/// A plugin that does nothing but keep track of its state.
pub struct BasePlugin {
    manifest: PluginManifest,
    state: PluginState,
}

impl BasePlugin {
    pub closed spec fn current(&self) -> PluginState {
        self.state
    }

    pub closed spec fn described(&self) -> PluginManifest {
        self.manifest
    }

    /// The state after a frame: a plugin that was initialised runs; any
    /// other stays as it is.
    pub open spec fn stepped(state: PluginState) -> PluginState {
        match state {
            PluginState::Initialized => PluginState::Running,
            other => other,
        }
    }

    /// A plugin that is not loaded yet.
    pub fn new(manifest: PluginManifest) -> (p: BasePlugin)
        ensures
            p.current() is Unloaded,
            p.described() == manifest,
    {
        BasePlugin { manifest, state: PluginState::Unloaded }
    }

    pub fn state(&self) -> (s: &PluginState)
        ensures
            *s == self.current(),
    {
        &self.state
    }

    pub fn set_state(&mut self, state: PluginState)
        ensures
            final(self).current() == state,
            final(self).described() == old(self).described(),
    {
        self.state = state;
    }
}

impl<R> Plugin<R> for BasePlugin {
    open spec fn declares(&self, manifest: PluginManifest) -> bool {
        manifest == self.described()
    }

    fn manifest(&self) -> (m: &PluginManifest) {
        &self.manifest
    }

    /// Initialises the plugin, whatever its state was. The context stays
    /// as it is, and nothing fails.
    fn initialize(&mut self, context: &mut PluginContext<R>) -> (r: Result<(), PluginError>)
        ensures
            r.is_ok(),
            final(self).current() is Initialized,
            final(self).described() == old(self).described(),
            *final(context) == *old(context),
    {
        self.state = PluginState::Initialized;
        Ok(())
    }

    /// One frame: a plugin that was initialised runs from now on. The
    /// context stays as it is, and nothing fails.
    fn update(&mut self, context: &mut PluginContext<R>, delta_time: Scalar) -> (r: Result<
        (),
        PluginError,
    >)
        ensures
            r.is_ok(),
            final(self).current() == BasePlugin::stepped(old(self).current()),
            final(self).described() == old(self).described(),
            *final(context) == *old(context),
    {
        let starts = match &self.state {
            PluginState::Initialized => true,
            _ => false,
        };
        if starts {
            self.state = PluginState::Running;
        }
        Ok(())
    }

    /// Unloads the plugin, whatever its state was. The context stays as it
    /// is, and nothing fails.
    fn shutdown(&mut self, context: &mut PluginContext<R>) -> (r: Result<(), PluginError>)
        ensures
            r.is_ok(),
            final(self).current() is Unloaded,
            final(self).described() == old(self).described(),
            *final(context) == *old(context),
    {
        self.state = PluginState::Unloaded;
        Ok(())
    }

    /// The plugin hears of the event and does nothing about it.
    fn handle_event(&mut self, context: &mut PluginContext<R>, event: &PluginEvent) -> (r: Result<
        (),
        PluginError,
    >)
        ensures
            r.is_ok(),
            *final(self) == *old(self),
            *final(context) == *old(context),
    {
        Ok(())
    }
}

} // verus!
