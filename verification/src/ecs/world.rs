//! A world: its entities in order of creation, and their components.

use vstd::prelude::*;
use crate::ecs::component::ComponentManager;
use crate::ecs::entity::Entity;

verus! {

/// `entities` without every occurrence of `entity`, the rest in order.
pub open spec fn without(entities: Seq<Entity>, entity: Entity) -> Seq<Entity>
    decreases entities.len(),
{
    if entities.len() == 0 {
        Seq::empty()
    } else {
        let rest = without(entities.drop_last(), entity);
        if entities.last() == entity {
            rest
        } else {
            rest.push(entities.last())
        }
    }
}

/// What is left after taking `entity` out holds it no more, and holds
/// everything else that was there.
pub proof fn lemma_without(entities: Seq<Entity>, entity: Entity)
    ensures
        !without(entities, entity).contains(entity),
        without(entities, entity).len() <= entities.len(),
        forall|e: Entity|
            e != entity ==> (without(entities, entity).contains(e) <==> entities.contains(e)),
    decreases entities.len(),
{
    if entities.len() > 0 {
        let shorter = entities.drop_last();
        let last = entities.last();
        lemma_without(shorter, entity);
        let rest = without(shorter, entity);
        let out = without(entities, entity);
        assert forall|e: Entity| e != entity implies (out.contains(e) <==> entities.contains(e)) by {
            if entities.contains(e) {
                let k = choose|k: int| 0 <= k < entities.len() && entities[k] == e;
                if k < shorter.len() {
                    assert(shorter[k] == e);
                    assert(shorter.contains(e));
                    assert(rest.contains(e));
                    let j = choose|j: int| 0 <= j < rest.len() && rest[j] == e;
                    assert(out[j] == e);
                } else {
                    assert(out[rest.len() as int] == e);
                }
            }
            if out.contains(e) {
                let j = choose|j: int| 0 <= j < out.len() && out[j] == e;
                if j < rest.len() {
                    assert(rest[j] == e);
                    assert(rest.contains(e));
                    assert(shorter.contains(e));
                    let k = choose|k: int| 0 <= k < shorter.len() && shorter[k] == e;
                    assert(entities[k] == e);
                } else {
                    assert(entities[entities.len() - 1] == e);
                }
            }
        }
        if out.contains(entity) {
            let j = choose|j: int| 0 <= j < out.len() && out[j] == entity;
            if j < rest.len() {
                assert(rest[j] == entity);
                assert(rest.contains(entity));
            }
        }
    }
}

/// Entities and components.
pub struct World<C> {
    entities: Vec<Entity>,
    next_entity_id: u64,
    components: ComponentManager<C>,
}

impl<C> World<C> {
    /// The entities of the world, in the order of their creation.
    pub closed spec fn entities(&self) -> Seq<Entity> {
        self.entities@
    }

    /// The number that the next entity gets.
    pub closed spec fn next_id(&self) -> u64 {
        self.next_entity_id
    }

    /// The components of kind `type_id`, by entity.
    pub closed spec fn of_kind(&self, type_id: u64) -> Map<u64, C> {
        self.components.of_kind(type_id)
    }

    pub closed spec fn wf(&self) -> bool {
        self.components.wf()
    }

    /// An empty world; the first entity will be number 0.
    pub fn new() -> (w: World<C>)
        ensures
            w.wf(),
            w.entities() == Seq::<Entity>::empty(),
            w.next_id() == 0,
            forall|t: u64| w.of_kind(t) == Map::<u64, C>::empty(),
    {
        World { entities: Vec::new(), next_entity_id: 0, components: ComponentManager::new() }
    }

    /// A new entity at the end of the world's list.
    pub fn create_entity(&mut self) -> (e: Entity)
        requires
            old(self).wf(),
            old(self).next_id() < u64::MAX,
        ensures
            final(self).wf(),
            e == Entity(old(self).next_id()),
            final(self).entities() == old(self).entities().push(e),
            final(self).next_id() == old(self).next_id() + 1,
            forall|t: u64| final(self).of_kind(t) == old(self).of_kind(t),
    {
        let entity = Entity::new(self.next_entity_id);
        self.next_entity_id = self.next_entity_id + 1;
        self.entities.push(entity);
        entity
    }

    /// Takes `entity` off the world's list. Its components stay where
    /// they are.
    pub fn destroy_entity(&mut self, entity: Entity)
        requires
            old(self).wf(),
        ensures
            final(self).wf(),
            final(self).entities() == without(old(self).entities(), entity),
            final(self).next_id() == old(self).next_id(),
            forall|t: u64| final(self).of_kind(t) == old(self).of_kind(t),
    {
        let mut kept: Vec<Entity> = Vec::new();
        let mut i: usize = 0;
        while i < self.entities.len()
            invariant
                i <= self.entities@.len(),
                self.entities@ == old(self).entities@,
                self.components == old(self).components,
                self.next_entity_id == old(self).next_entity_id,
                kept@ == without(self.entities@.take(i as int), entity),
            decreases self.entities@.len() - i,
        {
            let e = self.entities[i];
            proof {
                let grown = self.entities@.take(i + 1);
                assert(grown.drop_last() =~= self.entities@.take(i as int));
                assert(grown.last() == e);
            }
            if e != entity {
                kept.push(e);
            }
            i = i + 1;
        }
        proof {
            assert(self.entities@.take(self.entities@.len() as int) =~= self.entities@);
        }
        self.entities = kept;
    }

    /// Attaches `component`, of kind `type_id`, to `entity`.
    pub fn add_component(&mut self, type_id: u64, entity: Entity, component: C)
        requires
            old(self).wf(),
        ensures
            final(self).wf(),
            final(self).entities() == old(self).entities(),
            final(self).next_id() == old(self).next_id(),
            final(self).of_kind(type_id) == old(self).of_kind(type_id).insert(entity.0, component),
            forall|t: u64| t != type_id ==> final(self).of_kind(t) == old(self).of_kind(t),
    {
        self.components.add_component(type_id, entity, component);
    }

    pub fn get_component(&self, type_id: u64, entity: Entity) -> (found: Option<&C>)
        requires
            self.wf(),
        ensures
            found == (if self.of_kind(type_id).contains_key(entity.0) {
                Some(&self.of_kind(type_id)[entity.0])
            } else {
                None
            }),
    {
        self.components.get_component(type_id, entity)
    }

    pub fn get_component_mut(&mut self, type_id: u64, entity: Entity) -> (found: Option<&mut C>)
        requires
            old(self).wf(),
        ensures
            final(self).wf(),
            final(self).entities() == old(self).entities(),
            final(self).next_id() == old(self).next_id(),
            forall|t: u64| t != type_id ==> final(self).of_kind(t) == old(self).of_kind(t),
            match found {
                Some(component) => {
                    &&& old(self).of_kind(type_id).contains_key(entity.0)
                    &&& *component == old(self).of_kind(type_id)[entity.0]
                    &&& final(self).of_kind(type_id) == old(self).of_kind(type_id).insert(
                        entity.0,
                        *final(component),
                    )
                },
                None => {
                    &&& !old(self).of_kind(type_id).contains_key(entity.0)
                    &&& final(self).of_kind(type_id) == old(self).of_kind(type_id)
                },
            },
    {
        self.components.get_component_mut(type_id, entity)
    }

    /// Takes the component of kind `type_id` off `entity`. Tells whether
    /// it had one.
    pub fn remove_component(&mut self, type_id: u64, entity: Entity) -> (removed: bool)
        requires
            old(self).wf(),
        ensures
            final(self).wf(),
            final(self).entities() == old(self).entities(),
            final(self).next_id() == old(self).next_id(),
            removed == old(self).of_kind(type_id).contains_key(entity.0),
            final(self).of_kind(type_id) == old(self).of_kind(type_id).remove(entity.0),
            forall|t: u64| t != type_id ==> final(self).of_kind(t) == old(self).of_kind(t),
    {
        self.components.remove_component(type_id, entity)
    }

    /// The entities that have a component of kind `type_id`, each once, in
    /// no particular order.
    pub fn get_entities_with_component(&self, type_id: u64) -> (all: Vec<Entity>)
        requires
            self.wf(),
        ensures
            all@.no_duplicates(),
            forall|id: u64| self.of_kind(type_id).contains_key(id) <==> all@.contains(Entity(id)),
    {
        self.components.entities_with_component(type_id)
    }

    pub fn get_entities(&self) -> (all: &Vec<Entity>)
        ensures
            all@ == self.entities(),
    {
        &self.entities
    }
}

impl<C> Default for World<C> {
    fn default() -> (w: World<C>)
        ensures
            w.wf(),
            w.entities() == Seq::<Entity>::empty(),
            w.next_id() == 0,
    {
        World::new()
    }
}

} // verus!
