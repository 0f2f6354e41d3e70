//! Components, kept by kind and by entity.
//!
//! A kind of component is told by a number that the caller assigns to it.
//! One store keeps the components of one kind; the manager keeps a store
//! for each kind that was ever added.

use vstd::prelude::*;
use std::collections::HashMap;
use crate::ecs::entity::Entity;
use crate::ecs::maps::{keys_of, value_mut};

verus! {

/// What can be attached to an entity: any value that can cross threads.
pub trait Component: Send + Sync + 'static {

}

impl<T: Send + Sync + 'static> Component for T {

}

/// The components of one kind, by entity.
pub struct ComponentStorage<C> {
    components: HashMap<u64, C>,
    type_id: u64,
}

impl<C> View for ComponentStorage<C> {
    type V = Map<u64, C>;

    /// The component of each entity that has one, by the entity's number.
    closed spec fn view(&self) -> Map<u64, C> {
        self.components@
    }
}

impl<C> ComponentStorage<C> {
    /// The kind of component that the store keeps.
    pub closed spec fn kind(&self) -> u64 {
        self.type_id
    }

    /// An empty store for components of kind `type_id`.
    pub fn new(type_id: u64) -> (s: ComponentStorage<C>)
        ensures
            s@ == Map::<u64, C>::empty(),
            s.kind() == type_id,
    {
        ComponentStorage { components: HashMap::new(), type_id }
    }

    /// Attaches `component` to `entity` and gives back the component that
    /// it replaces. A component of another kind than the store's is turned
    /// away: nothing changes and nothing is given back.
    pub fn insert(&mut self, type_id: u64, entity: Entity, component: C) -> (replaced: Option<C>)
        ensures
            final(self).kind() == old(self).kind(),
            type_id != old(self).kind() ==> final(self)@ == old(self)@ && replaced.is_none(),
            type_id == old(self).kind() ==> {
                &&& final(self)@ == old(self)@.insert(entity.0, component)
                &&& replaced == (if old(self)@.contains_key(entity.0) {
                    Some(old(self)@[entity.0])
                } else {
                    None
                })
            },
    {
        if type_id != self.type_id {
            return None;
        }
        self.components.insert(entity.0, component)
    }

    /// The component of `entity`, where it has one and `type_id` is the
    /// store's kind.
    pub fn get(&self, type_id: u64, entity: Entity) -> (found: Option<&C>)
        ensures
            found == (if type_id == self.kind() && self@.contains_key(entity.0) {
                Some(&self@[entity.0])
            } else {
                None
            }),
    {
        if type_id != self.type_id {
            return None;
        }
        self.components.get(&entity.0)
    }

    /// The component of `entity`, to be changed in place. What is written
    /// through the reference is the entity's component afterwards; nothing
    /// else changes.
    pub fn get_mut(&mut self, type_id: u64, entity: Entity) -> (found: Option<&mut C>)
        ensures
            final(self).kind() == old(self).kind(),
            match found {
                Some(component) => {
                    &&& type_id == old(self).kind()
                    &&& old(self)@.contains_key(entity.0)
                    &&& *component == old(self)@[entity.0]
                    &&& final(self)@ == old(self)@.insert(entity.0, *final(component))
                },
                None => {
                    &&& !(type_id == old(self).kind() && old(self)@.contains_key(entity.0))
                    &&& final(self)@ == old(self)@
                },
            },
    {
        if type_id != self.type_id {
            return None;
        }
        value_mut(&mut self.components, entity.0)
    }

    /// Takes the component of `entity` out of the store.
    pub fn remove(&mut self, entity: Entity) -> (removed: Option<C>)
        ensures
            final(self).kind() == old(self).kind(),
            final(self)@ == old(self)@.remove(entity.0),
            removed == (if old(self)@.contains_key(entity.0) {
                Some(old(self)@[entity.0])
            } else {
                None
            }),
    {
        self.components.remove(&entity.0)
    }

    pub fn has_component(&self, entity: Entity) -> (r: bool)
        ensures
            r == self@.contains_key(entity.0),
    {
        self.components.contains_key(&entity.0)
    }

    /// The entities that have a component here, each once, in no
    /// particular order.
    pub fn entities(&self) -> (all: Vec<Entity>)
        ensures
            all@.len() == self@.dom().len(),
            all@.no_duplicates(),
            forall|id: u64| self@.contains_key(id) <==> all@.contains(Entity(id)),
    {
        let keys = keys_of(&self.components);
        entities_of(&keys)
    }
}

/// The entities with the given numbers, in the same order.
pub fn entities_of(ids: &Vec<u64>) -> (all: Vec<Entity>)
    ensures
        all@.len() == ids@.len(),
        forall|k: int| 0 <= k < ids@.len() ==> #[trigger] all@[k] == Entity(ids@[k]),
        ids@.no_duplicates() ==> all@.no_duplicates(),
        forall|id: u64| ids@.contains(id) <==> all@.contains(Entity(id)),
{
    let mut all: Vec<Entity> = Vec::new();
    let mut i: usize = 0;
    while i < ids.len()
        invariant
            i <= ids@.len(),
            all@.len() == i,
            forall|k: int| 0 <= k < i ==> #[trigger] all@[k] == Entity(ids@[k]),
        decreases ids@.len() - i,
    {
        all.push(Entity(ids[i]));
        i = i + 1;
    }
    proof {
        assert forall|id: u64| ids@.contains(id) <==> all@.contains(Entity(id)) by {
            if ids@.contains(id) {
                let k = choose|k: int| 0 <= k < ids@.len() && ids@[k] == id;
                assert(all@[k] == Entity(id));
            }
            if all@.contains(Entity(id)) {
                let k = choose|k: int| 0 <= k < all@.len() && all@[k] == Entity(id);
                assert(ids@[k] == id);
            }
        }
        if ids@.no_duplicates() {
            assert forall|a: int, b: int|
                0 <= a < all@.len() && 0 <= b < all@.len() && a != b implies all@[a] != all@[b] by {
                assert(ids@[a] != ids@[b]);
            }
        }
    }
    all
}

/// The stores of all kinds of component.
pub struct ComponentManager<C> {
    storages: HashMap<u64, ComponentStorage<C>>,
}

impl<C> ComponentManager<C> {
    /// The kinds that have a store.
    pub closed spec fn kinds(&self) -> Set<u64> {
        self.storages@.dom()
    }

    /// The components of kind `type_id`, by entity; empty where the kind
    /// has no store.
    pub closed spec fn of_kind(&self, type_id: u64) -> Map<u64, C> {
        if self.storages@.contains_key(type_id) {
            self.storages@[type_id]@
        } else {
            Map::empty()
        }
    }

    /// Each store keeps the kind that it stands under.
    pub closed spec fn wf(&self) -> bool {
        forall|t: u64| #[trigger]
            self.storages@.contains_key(t) ==> self.storages@[t].kind() == t
    }

    pub fn new() -> (m: ComponentManager<C>)
        ensures
            m.wf(),
            m.kinds() == Set::<u64>::empty(),
            forall|t: u64| m.of_kind(t) == Map::<u64, C>::empty(),
    {
        ComponentManager { storages: HashMap::new() }
    }

    fn ensure_storage(&mut self, type_id: u64)
        requires
            old(self).wf(),
        ensures
            final(self).wf(),
            final(self).kinds() == old(self).kinds().insert(type_id),
            forall|t: u64| final(self).of_kind(t) == old(self).of_kind(t),
    {
        if !self.storages.contains_key(&type_id) {
            self.storages.insert(type_id, ComponentStorage::new(type_id));
            assert(self.kinds() =~= old(self).kinds().insert(type_id));
        } else {
            assert(self.kinds() =~= old(self).kinds().insert(type_id));
        }
    }

    /// Attaches `component`, of kind `type_id`, to `entity`, in place of
    /// the component of that kind that the entity had.
    pub fn add_component(&mut self, type_id: u64, entity: Entity, component: C)
        requires
            old(self).wf(),
        ensures
            final(self).wf(),
            final(self).kinds() == old(self).kinds().insert(type_id),
            final(self).of_kind(type_id) == old(self).of_kind(type_id).insert(entity.0, component),
            forall|t: u64| t != type_id ==> final(self).of_kind(t) == old(self).of_kind(t),
    {
        self.ensure_storage(type_id);
        let ghost mid = self.storages@;
        match value_mut(&mut self.storages, type_id) {
            Some(storage) => {
                storage.insert(type_id, entity, component);
            },
            None => {},
        }
        proof {
            assert(self.storages@.dom() =~= mid.dom());
            assert(self.kinds() == old(self).kinds().insert(type_id));
        }
    }

    /// The component of kind `type_id` that `entity` has.
    pub fn get_component(&self, type_id: u64, entity: Entity) -> (found: Option<&C>)
        requires
            self.wf(),
        ensures
            found == (if self.of_kind(type_id).contains_key(entity.0) {
                Some(&self.of_kind(type_id)[entity.0])
            } else {
                None
            }),
    {
        match self.storages.get(&type_id) {
            Some(storage) => storage.get(type_id, entity),
            None => None,
        }
    }

    /// The component of kind `type_id` that `entity` has, to be changed in
    /// place.
    pub fn get_component_mut(&mut self, type_id: u64, entity: Entity) -> (found: Option<&mut C>)
        requires
            old(self).wf(),
        ensures
            final(self).wf(),
            final(self).kinds() == old(self).kinds(),
            forall|t: u64| t != type_id ==> final(self).of_kind(t) == old(self).of_kind(t),
            match found {
                Some(component) => {
                    &&& old(self).of_kind(type_id).contains_key(entity.0)
                    &&& *component == old(self).of_kind(type_id)[entity.0]
                    &&& final(self).of_kind(type_id) == old(self).of_kind(type_id).insert(
                        entity.0,
                        *final(component),
                    )
                },
                None => {
                    &&& !old(self).of_kind(type_id).contains_key(entity.0)
                    &&& final(self).of_kind(type_id) == old(self).of_kind(type_id)
                },
            },
    {
        match value_mut(&mut self.storages, type_id) {
            Some(storage) => storage.get_mut(type_id, entity),
            None => None,
        }
    }

    /// Takes the component of kind `type_id` off `entity`. Tells whether
    /// it had one.
    pub fn remove_component(&mut self, type_id: u64, entity: Entity) -> (removed: bool)
        requires
            old(self).wf(),
        ensures
            final(self).wf(),
            final(self).kinds() == old(self).kinds(),
            removed == old(self).of_kind(type_id).contains_key(entity.0),
            final(self).of_kind(type_id) == old(self).of_kind(type_id).remove(entity.0),
            forall|t: u64| t != type_id ==> final(self).of_kind(t) == old(self).of_kind(t),
    {
        let removed = match value_mut(&mut self.storages, type_id) {
            Some(storage) => storage.remove(entity).is_some(),
            None => false,
        };
        proof {
            assert(self.storages@.dom() =~= old(self).storages@.dom());
            if !old(self).storages@.contains_key(type_id) {
                assert(self.of_kind(type_id) =~= old(self).of_kind(type_id).remove(entity.0));
            }
        }
        removed
    }

    pub fn has_component(&self, type_id: u64, entity: Entity) -> (r: bool)
        requires
            self.wf(),
        ensures
            r == self.of_kind(type_id).contains_key(entity.0),
    {
        match self.storages.get(&type_id) {
            Some(storage) => storage.has_component(entity),
            None => false,
        }
    }

    /// The entities that have a component of kind `type_id`, each once, in
    /// no particular order.
    pub fn entities_with_component(&self, type_id: u64) -> (all: Vec<Entity>)
        requires
            self.wf(),
        ensures
            all@.no_duplicates(),
            forall|id: u64| self.of_kind(type_id).contains_key(id) <==> all@.contains(Entity(id)),
    {
        match self.storages.get(&type_id) {
            Some(storage) => storage.entities(),
            None => {
                let all: Vec<Entity> = Vec::new();
                all
            },
        }
    }

    /// Takes every component off `entity`, of whatever kind.
    pub fn remove_all_components(&mut self, entity: Entity)
        requires
            old(self).wf(),
        ensures
            final(self).wf(),
            final(self).kinds() == old(self).kinds(),
            forall|t: u64| #[trigger] final(self).of_kind(t) == old(self).of_kind(t).remove(entity.0),
    {
        let kinds = keys_of(&self.storages);
        let mut i: usize = 0;
        while i < kinds.len()
            invariant
                i <= kinds@.len(),
                self.wf(),
                kinds@.to_set() == old(self).storages@.dom(),
                kinds@.no_duplicates(),
                self.storages@.dom() == old(self).storages@.dom(),
                forall|t: u64|
                    kinds@.take(i as int).contains(t) ==> #[trigger] self.of_kind(t) == old(
                        self,
                    ).of_kind(t).remove(entity.0),
                forall|t: u64|
                    !kinds@.take(i as int).contains(t) ==> #[trigger] self.of_kind(t) == old(
                        self,
                    ).of_kind(t),
            decreases kinds@.len() - i,
        {
            let kind: u64 = kinds[i];
            let ghost before = self.storages@;
            let ghost prev = *self;
            match value_mut(&mut self.storages, kind) {
                Some(storage) => {
                    storage.remove(entity);
                },
                None => {},
            }
            proof {
                assert(self.storages@.dom() =~= before.dom());
                assert forall|t: u64| t != kind implies self.of_kind(t) == prev.of_kind(t) by {}
                assert(self.of_kind(kind) == prev.of_kind(kind).remove(entity.0));
                let grown = kinds@.take(i + 1);
                assert(grown.drop_last() =~= kinds@.take(i as int));
                assert(grown.last() == kind);
                assert forall|t: u64| grown.contains(t) implies #[trigger] self.of_kind(t) == old(
                    self,
                ).of_kind(t).remove(entity.0) by {
                    if t != kind {
                        let k = choose|k: int| 0 <= k < grown.len() && grown[k] == t;
                        assert(kinds@.take(i as int)[k] == t);
                        assert(prev.of_kind(t) == old(self).of_kind(t).remove(entity.0));
                    } else {
                        assert(prev.of_kind(t) == old(self).of_kind(t));
                        assert(kinds@.contains(kind));
                        assert(kinds@.to_set().contains(kind));
                        if kinds@.take(i as int).contains(kind) {
                            let k = choose|k: int|
                                0 <= k < kinds@.take(i as int).len() && kinds@.take(i as int)[k]
                                    == kind;
                            assert(kinds@[k] == kinds@[i as int]);
                        }
                    }
                }
                assert forall|t: u64| !grown.contains(t) implies #[trigger] self.of_kind(t) == old(
                    self,
                ).of_kind(t) by {
                    assert(grown[i as int] == kind);
                    assert(t != kind);
                    assert(prev.of_kind(t) == old(self).of_kind(t));
                    if kinds@.take(i as int).contains(t) {
                        let k = choose|k: int|
                            0 <= k < kinds@.take(i as int).len() && kinds@.take(i as int)[k] == t;
                        assert(grown[k] == t);
                    }
                }
            }
            i = i + 1;
        }
        proof {
            assert(kinds@.take(kinds@.len() as int) =~= kinds@);
            assert forall|t: u64| #[trigger] self.of_kind(t) == old(self).of_kind(t).remove(
                entity.0,
            ) by {
                if kinds@.contains(t) {
                } else {
                    assert(!kinds@.to_set().contains(t));
                    assert(self.of_kind(t) =~= old(self).of_kind(t).remove(entity.0));
                }
            }
        }
    }
}

impl<C> Default for ComponentManager<C> {
    fn default() -> (m: ComponentManager<C>)
        ensures
            m.wf(),
            m.kinds() == Set::<u64>::empty(),
    {
        ComponentManager::new()
    }
}

} // verus!
