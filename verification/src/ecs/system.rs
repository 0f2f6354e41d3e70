//! Systems, and the scheduler that runs them in order.

use vstd::prelude::*;
use crate::ecs::component::ComponentStorage;
use crate::ecs::entity::Entity;

verus! {

/// Work that is done on the entities and on one store of components.
pub trait System<C>: Sized {
    /// Whether a run over `entities` can take the system from `before` to
    /// `self` and the store from `store` to `after`. Each system says of
    /// itself what its runs are; one that says nothing can do anything.
    open spec fn ran(
        &self,
        before: Self,
        entities: Seq<Entity>,
        store: ComponentStorage<C>,
        after: ComponentStorage<C>,
    ) -> bool {
        true
    }

    fn run(&mut self, entities: &Vec<Entity>, components: &mut ComponentStorage<C>)
        ensures
            final(self).ran(*old(self), entities@, *old(components), *final(components)),
    ;
}

/// Whether `after` is what the systems `before` become by running once
/// each, in order, over `entities`, where `stores` holds the store as the
/// first system finds it and then as each system leaves it.
pub open spec fn ran_in_order<C, S: System<C>>(
    before: Seq<S>,
    after: Seq<S>,
    entities: Seq<Entity>,
    stores: Seq<ComponentStorage<C>>,
) -> bool {
    &&& after.len() == before.len()
    &&& stores.len() == before.len() + 1
    &&& forall|i: int|
        0 <= i < before.len() ==> (#[trigger] after[i]).ran(
            before[i],
            entities,
            stores[i],
            stores[i + 1],
        )
}

/// Runs its systems one after the other, in the order in which they were
/// added.
pub struct SystemScheduler<S> {
    systems: Vec<S>,
}

impl<S> SystemScheduler<S> {
    /// The systems, in the order in which they run.
    pub closed spec fn systems(&self) -> Seq<S> {
        self.systems@
    }

    /// How many systems the scheduler holds.
    pub open spec fn count(&self) -> nat {
        self.systems().len()
    }

    pub fn new() -> (s: SystemScheduler<S>)
        ensures
            s.systems() == Seq::<S>::empty(),
            s.count() == 0,
    {
        SystemScheduler { systems: Vec::new() }
    }

    /// Adds a system behind those that are there.
    pub fn add_system(&mut self, system: S)
        ensures
            final(self).systems() == old(self).systems().push(system),
            final(self).count() == old(self).count() + 1,
    {
        self.systems.push(system);
    }

    /// Runs every system once, in order, each on the store as the one
    /// before it left it. What a run does is for the system to say.
    pub fn run_systems<C>(&mut self, entities: &Vec<Entity>, components: &mut ComponentStorage<C>)
        where S: System<C>
        ensures
            final(self).count() == old(self).count(),
            exists|stores: Seq<ComponentStorage<C>>|
                {
                    &&& #[trigger] ran_in_order(
                        old(self).systems(),
                        final(self).systems(),
                        entities@,
                        stores,
                    )
                    &&& stores[0] == *old(components)
                    &&& stores[stores.len() - 1] == *final(components)
                },
    {
        let n = self.systems.len();
        let ghost mut stores: Seq<ComponentStorage<C>> = seq![*components];
        let mut i: usize = 0;
        while i < n
            invariant
                i <= n,
                n == self.systems@.len(),
                self.systems@.len() == old(self).systems@.len(),
                stores.len() == i + 1,
                stores[0] == *old(components),
                stores[i as int] == *components,
                forall|k: int|
                    0 <= k < i ==> (#[trigger] self.systems@[k]).ran(
                        old(self).systems@[k],
                        entities@,
                        stores[k],
                        stores[k + 1],
                    ),
                forall|k: int| i <= k < n ==> self.systems@[k] == old(self).systems@[k],
            decreases n - i,
        {
            let ghost found = self.systems@;
            self.systems[i].run(entities, components);
            proof {
                stores = stores.push(*components);
                assert(self.systems@ =~= found.update(i as int, self.systems@[i as int]));
            }
            i = i + 1;
        }
        assert(ran_in_order(old(self).systems(), self.systems(), entities@, stores));
    }

    pub fn len(&self) -> (n: usize)
        ensures
            n == self.count(),
    {
        self.systems.len()
    }
}

impl<S> Default for SystemScheduler<S> {
    fn default() -> (s: SystemScheduler<S>)
        ensures
            s.count() == 0,
    {
        SystemScheduler::new()
    }
}

} // verus!
