//! Queries over the entities of a world.
//!
//! A query names kinds of component. So far no query filters: each gives
//! back the entities that it was handed.

use vstd::prelude::*;
use std::marker::PhantomData;
use crate::ecs::entity::Entity;

verus! {

/// A copy of `entities`.
pub fn copy_entities(entities: &Vec<Entity>) -> (all: Vec<Entity>)
    ensures
        all@ == entities@,
{
    let mut all: Vec<Entity> = Vec::new();
    let mut i: usize = 0;
    while i < entities.len()
        invariant
            i <= entities@.len(),
            all@ == entities@.take(i as int),
        decreases entities@.len() - i,
    {
        all.push(entities[i]);
        assert(all@ =~= entities@.take(i + 1));
        i = i + 1;
    }
    assert(entities@.take(entities@.len() as int) =~= entities@);
    all
}

/// A query for the entities with a component of type `T`.
pub struct Query<T> {
    marker: PhantomData<T>,
}

impl<T> Query<T> {
    pub fn new() -> (q: Query<T>) {
        Query { marker: PhantomData }
    }

    /// The entities that the query selects: all that it is handed.
    pub fn entities_with_component(&self, entities: &Vec<Entity>) -> (all: Vec<Entity>)
        ensures
            all@ == entities@,
    {
        copy_entities(entities)
    }
}

/// Collects the kinds that a query requires and those that it can use.
pub struct QueryBuilder {
    required_components: Vec<u64>,
    optional_components: Vec<u64>,
}

/// A query over several kinds of component.
pub struct ComplexQuery {
    required_components: Vec<u64>,
    optional_components: Vec<u64>,
}

impl QueryBuilder {
    pub closed spec fn required(&self) -> Seq<u64> {
        self.required_components@
    }

    pub closed spec fn optional(&self) -> Seq<u64> {
        self.optional_components@
    }

    pub fn new() -> (b: QueryBuilder)
        ensures
            b.required() == Seq::<u64>::empty(),
            b.optional() == Seq::<u64>::empty(),
    {
        QueryBuilder { required_components: Vec::new(), optional_components: Vec::new() }
    }

    /// Requires components of kind `type_id`.
    pub fn with(self, type_id: u64) -> (b: QueryBuilder)
        ensures
            b.required() == self.required().push(type_id),
            b.optional() == self.optional(),
    {
        let mut builder = self;
        builder.required_components.push(type_id);
        builder
    }

    /// Takes components of kind `type_id` where they are there.
    pub fn maybe_with(self, type_id: u64) -> (b: QueryBuilder)
        ensures
            b.required() == self.required(),
            b.optional() == self.optional().push(type_id),
    {
        let mut builder = self;
        builder.optional_components.push(type_id);
        builder
    }

    pub fn build(self) -> (q: ComplexQuery)
        ensures
            q.required_kinds() == self.required(),
            q.optional_kinds() == self.optional(),
    {
        ComplexQuery {
            required_components: self.required_components,
            optional_components: self.optional_components,
        }
    }
}

impl Default for QueryBuilder {
    fn default() -> (b: QueryBuilder)
        ensures
            b.required() == Seq::<u64>::empty(),
            b.optional() == Seq::<u64>::empty(),
    {
        QueryBuilder::new()
    }
}

impl ComplexQuery {
    pub closed spec fn required_kinds(&self) -> Seq<u64> {
        self.required_components@
    }

    pub closed spec fn optional_kinds(&self) -> Seq<u64> {
        self.optional_components@
    }

    /// The kinds that the query requires, in the order in which they were
    /// named.
    pub fn required(&self) -> (kinds: &Vec<u64>)
        ensures
            kinds@ == self.required_kinds(),
    {
        &self.required_components
    }

    /// The kinds that the query can use, in the order in which they were
    /// named.
    pub fn optional(&self) -> (kinds: &Vec<u64>)
        ensures
            kinds@ == self.optional_kinds(),
    {
        &self.optional_components
    }

    /// The entities that the query selects: all that it is handed.
    pub fn execute(&self, entities: &Vec<Entity>) -> (all: Vec<Entity>)
        ensures
            all@ == entities@,
    {
        copy_entities(entities)
    }
}

} // verus!
