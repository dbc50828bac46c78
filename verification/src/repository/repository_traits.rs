//! The repository capability, in two facets.
//!
//! An implementation decides what its operations may answer in a given state
//! by defining the relation that goes with each of them. The traits promise
//! nothing beyond that relation: a store that can fail, because a connection
//! is lost or a constraint is violated, admits the failing answer too. An
//! implementation that defines no relation admits every answer.

use vstd::prelude::*;

verus! {

/// Reading from a store of entities `T` that are found by an `ID`.
pub trait ReadRepository<T, ID> {
    /// Whether `find_by_id(id)` may answer `row` in this state.
    open spec fn found(&self, id: ID, row: Option<T>) -> bool {
        true
    }

    /// Whether `find_all()` may answer `rows` in this state.
    open spec fn listed(&self, rows: Seq<T>) -> bool {
        true
    }

    /// The entity stored under `id`, or nothing. An id that is not there is
    /// no error.
    fn find_by_id(&self, id: &ID) -> (row: Option<T>)
        ensures
            self.found(*id, row),
    ;

    /// Every stored entity.
    fn find_all(&self) -> (rows: Vec<T>)
        ensures
            self.listed(rows@),
    ;
}

/// Writing to a store of entities `T` that are found by an `ID`.
pub trait WriteRepository<T, ID>: Sized {
    /// Whether `create(entity)` may answer `row` and leave the store as
    /// `after`.
    open spec fn created(&self, entity: T, row: Option<T>, after: Self) -> bool {
        true
    }

    /// Whether `update(entity)` may answer `row` and leave the store as
    /// `after`.
    open spec fn updated(&self, entity: T, row: Option<T>, after: Self) -> bool {
        true
    }

    /// Whether `delete_by_id(id)` may answer `count` and leave the store as
    /// `after`.
    open spec fn deleted(&self, id: ID, count: u64, after: Self) -> bool {
        true
    }

    /// Stores a new entity and answers it as stored, or nothing where it could
    /// not be stored.
    fn create(&mut self, entity: &T) -> (row: Option<T>)
        ensures
            old(self).created(*entity, row, *final(self)),
    ;

    /// Changes a stored entity and answers it as stored, or nothing where no
    /// entity was changed.
    fn update(&mut self, entity: &T) -> (row: Option<T>)
        ensures
            old(self).updated(*entity, row, *final(self)),
    ;

    /// Removes the entity stored under `id` and answers how many were
    /// removed.
    fn delete_by_id(&mut self, id: &ID) -> (count: u64)
        ensures
            old(self).deleted(*id, count, *final(self)),
    ;
}

/// Emptying a store.
pub trait TruncateRepository: Sized {
    /// Whether `truncate()` may answer `count` and leave the store as `after`.
    open spec fn truncated(&self, count: u64, after: Self) -> bool {
        true
    }

    /// Removes every entity and answers how many were removed.
    fn truncate(&mut self) -> (count: u64)
        ensures
            old(self).truncated(count, *final(self)),
    ;
}

/// Both facets together.
pub trait Repository<T, ID>: ReadRepository<T, ID> + WriteRepository<T, ID> {
}

} // verus!
