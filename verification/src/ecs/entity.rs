//! Entities and the register of those alive.

use vstd::prelude::*;
use std::collections::HashMap;
use crate::ecs::maps::keys_of;

verus! {

/// An entity: nothing but a number.
#[derive(Clone, Copy, Debug, PartialEq, Eq, Hash, Structural)]
pub struct Entity(pub u64);

impl Entity {
    pub fn new(id: u64) -> (e: Entity)
        ensures
            e.0 == id,
    {
        Entity(id)
    }

    pub fn id(&self) -> (id: u64)
        ensures
            id == self.0,
    {
        self.0
    }
}

/// Hands out entities and knows which of them are alive.
pub struct EntityManager {
    next_id: u64,
    alive_entities: HashMap<u64, Entity>,
}

impl EntityManager {
    /// The numbers of the entities that are alive.
    pub closed spec fn alive(&self) -> Set<u64> {
        self.alive_entities@.dom()
    }

    /// The number that the next entity gets.
    pub closed spec fn next_id(&self) -> u64 {
        self.next_id
    }

    /// An empty register; the first entity will be number 1.
    pub fn new() -> (m: EntityManager)
        ensures
            m.alive() == Set::<u64>::empty(),
            m.next_id() == 1,
    {
        EntityManager { next_id: 1, alive_entities: HashMap::new() }
    }

    /// A new entity, alive from now on. Numbers are handed out in order
    /// and start again at 0 after the largest.
    pub fn create_entity(&mut self) -> (e: Entity)
        ensures
            e == Entity(old(self).next_id()),
            final(self).alive() == old(self).alive().insert(e.0),
            final(self).next_id() == (if old(self).next_id() == u64::MAX {
                0
            } else {
                old(self).next_id() + 1
            }),
    {
        let id: u64 = self.next_id;
        self.next_id = if id == u64::MAX {
            0
        } else {
            id + 1
        };
        let entity = Entity(id);
        self.alive_entities.insert(id, entity);
        entity
    }

    /// Ends an entity. Tells whether it was alive.
    pub fn destroy_entity(&mut self, entity: Entity) -> (was_alive: bool)
        ensures
            was_alive == old(self).alive().contains(entity.0),
            final(self).alive() == old(self).alive().remove(entity.0),
            final(self).next_id() == old(self).next_id(),
    {
        let removed = self.alive_entities.remove(&entity.0);
        removed.is_some()
    }

    pub fn is_alive(&self, entity: Entity) -> (r: bool)
        ensures
            r == self.alive().contains(entity.0),
    {
        self.alive_entities.contains_key(&entity.0)
    }

    /// The entities that are alive, each once, in no particular order.
    pub fn alive_entities(&self) -> (all: Vec<Entity>)
        ensures
            all@.len() == self.alive().len(),
            all@.no_duplicates(),
            forall|id: u64| self.alive().contains(id) <==> all@.contains(Entity(id)),
    {
        let keys = keys_of(&self.alive_entities);
        let mut all: Vec<Entity> = Vec::new();
        let mut i: usize = 0;
        while i < keys.len()
            invariant
                i <= keys@.len(),
                all@.len() == i,
                forall|k: int| 0 <= k < i ==> #[trigger] all@[k] == Entity(keys@[k]),
            decreases keys@.len() - i,
        {
            all.push(Entity(keys[i]));
            i = i + 1;
        }
        proof {
            assert forall|id: u64| self.alive().contains(id) <==> all@.contains(Entity(id)) by {
                if self.alive().contains(id) {
                    assert(keys@.to_set().contains(id));
                    let k = choose|k: int| 0 <= k < keys@.len() && keys@[k] == id;
                    assert(all@[k] == Entity(id));
                }
                if all@.contains(Entity(id)) {
                    let k = choose|k: int| 0 <= k < all@.len() && all@[k] == Entity(id);
                    assert(keys@[k] == id);
                    assert(keys@.contains(id));
                    assert(keys@.to_set().contains(id));
                }
            }
            assert forall|a: int, b: int|
                0 <= a < all@.len() && 0 <= b < all@.len() && a != b implies all@[a] != all@[b] by {
                assert(keys@[a] != keys@[b]);
            }
        }
        all
    }

    /// How many entities are alive.
    pub fn entity_count(&self) -> (n: usize)
        ensures
            n == self.alive().len(),
    {
        self.alive_entities.len()
    }
}

impl Default for EntityManager {
    fn default() -> (m: EntityManager)
        ensures
            m.alive() == Set::<u64>::empty(),
            m.next_id() == 1,
    {
        EntityManager::new()
    }
}

} // verus!
