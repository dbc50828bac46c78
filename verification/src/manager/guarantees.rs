//! What the manager guarantees when it works on the store in memory.
//!
//! The manager's own contracts speak of any repository through the relations
//! that the repository defines. Here those relations are the ones of
//! `InMemoryUserRepository`, and what follows from them is stated outright:
//! each statement holds of every answer that the store may give.

use crate::manager::user_manager::{
    create_outcome, delete_outcome, get_outcome, list_outcome, update_outcome, UserErrorView,
};
use crate::model::status::{NOT_FOUND, OK};
use crate::model::user::{User, UserDto};
use crate::repository::in_memory_repository::{first_with_id, has_id, InMemoryUserRepository};
use crate::repository::repository_traits::{ReadRepository, WriteRepository};
use crate::util::AsDtoEnabled;
use vstd::prelude::*;

verus! {

/// Creating a user from a payload that has a name and no id succeeds, as long
/// as the store has an id left to hand out: the result has that id and the
/// payload's name, and the store holds one record more, the new one.
pub proof fn lemma_create_user_assigns_id(store: InMemoryUserRepository, payload: UserDto)
    requires
        payload.id is None,
        payload.user_name is Some,
        store.next_id() < i32::MAX,
    ensures
        forall|row: Option<User>, after: InMemoryUserRepository| #[trigger]
            store.created(User::from_dto_spec(&payload), row, after) ==> {
                &&& create_outcome(row) == Ok::<UserDto, UserErrorView>(
                    UserDto { id: Some(store.next_id()), user_name: payload.user_name },
                )
                &&& has_id(after.rows(), store.next_id())
                &&& after.rows().len() == store.rows().len() + 1
            },
{
    assert forall|row: Option<User>, after: InMemoryUserRepository| #[trigger]
        store.created(User::from_dto_spec(&payload), row, after) implies {
        &&& create_outcome(row) == Ok::<UserDto, UserErrorView>(
            UserDto { id: Some(store.next_id()), user_name: payload.user_name },
        )
        &&& has_id(after.rows(), store.next_id())
        &&& after.rows().len() == store.rows().len() + 1
    } by {
        let at = store.rows().len() as int;
        assert(after.rows()[at].id == Some(store.next_id()));
    }
}

/// Creating a user from a payload without a name fails, whatever the store
/// holds, and leaves the store as it was.
pub proof fn lemma_create_user_needs_name(store: InMemoryUserRepository, payload: UserDto)
    requires
        payload.user_name is None,
    ensures
        forall|row: Option<User>, after: InMemoryUserRepository| #[trigger]
            store.created(User::from_dto_spec(&payload), row, after) ==> {
                &&& create_outcome(row) == Err::<UserDto, UserErrorView>(
                    UserErrorView::FailedRequest("Failed to create user"@),
                )
                &&& after.rows() == store.rows()
            },
{
}

/// Asking for a user whose id no record has gives `NotFound`; asking for one
/// that is stored gives the wire shape of the record with that id.
pub proof fn lemma_get_user_finds_stored(store: InMemoryUserRepository, id: i32)
    requires
        store.wf(),
    ensures
        forall|row: Option<User>| #[trigger]
            store.found(id, row) ==> {
                &&& !has_id(store.rows(), id) ==> get_outcome(row) == Err::<
                    UserDto,
                    UserErrorView,
                >(UserErrorView::NotFound)
                &&& has_id(store.rows(), id) ==> exists|at: int|
                    {
                        &&& #[trigger] first_with_id(store.rows(), id, at)
                        &&& get_outcome(row) == Ok::<UserDto, UserErrorView>(
                            store.rows()[at].as_dto_spec(),
                        )
                    }
            },
{
    assert forall|row: Option<User>| #[trigger] store.found(id, row) implies {
        &&& !has_id(store.rows(), id) ==> get_outcome(row) == Err::<UserDto, UserErrorView>(
            UserErrorView::NotFound,
        )
        &&& has_id(store.rows(), id) ==> exists|at: int|
            {
                &&& #[trigger] first_with_id(store.rows(), id, at)
                &&& get_outcome(row) == Ok::<UserDto, UserErrorView>(
                    store.rows()[at].as_dto_spec(),
                )
            }
    } by {
        if has_id(store.rows(), id) {
            let at = choose|at: int| #[trigger]
                first_with_id(store.rows(), id, at) && row->0 == store.rows()[at];
            assert(first_with_id(store.rows(), id, at));
        }
    }
}

/// A user that was just created is found under the id it was given, with the
/// name it was created with.
pub proof fn lemma_get_user_after_create(store: InMemoryUserRepository, entity: User)
    requires
        store.wf(),
    ensures
        forall|created: User, after: InMemoryUserRepository, row: Option<User>|
            #![trigger store.created(entity, Some(created), after), after.found(created.id->0, row)]
            store.created(entity, Some(created), after) && after.found(created.id->0, row) ==> {
                &&& get_outcome(row) == Ok::<UserDto, UserErrorView>(created.as_dto_spec())
                &&& created.as_dto_spec().user_name == entity.user_name
            },
{
    assert forall|created: User, after: InMemoryUserRepository, row: Option<User>|
        #![trigger store.created(entity, Some(created), after), after.found(created.id->0, row)]
        store.created(entity, Some(created), after) && after.found(
            created.id->0,
            row,
        ) implies {
        &&& get_outcome(row) == Ok::<UserDto, UserErrorView>(created.as_dto_spec())
        &&& created.as_dto_spec().user_name == entity.user_name
    } by {
        let last = store.rows().len() as int;
        assert(after.rows()[last] == created);
        assert(has_id(after.rows(), created.id->0));
        let at = choose|at: int| #[trigger]
            first_with_id(after.rows(), created.id->0, at) && row->0 == after.rows()[at];
        if at < last {
            assert(after.rows()[at] == store.rows()[at]);
            assert(store.rows()[at].id->0 < store.next_id());
        }
    }
}

/// Changing a stored user gives the payload back, and the same is then found
/// under its id. The store holds as many records as before.
pub proof fn lemma_update_user_changes_name(store: InMemoryUserRepository, payload: UserDto)
    requires
        store.wf(),
        payload.id is Some,
        payload.user_name is Some,
        has_id(store.rows(), payload.id->0),
    ensures
        forall|row: Option<User>, after: InMemoryUserRepository, found: Option<User>|
            #![trigger store.updated(User::from_dto_spec(&payload), row, after), after.found(payload.id->0, found)]
            store.updated(User::from_dto_spec(&payload), row, after) && after.found(
                payload.id->0,
                found,
            ) ==> {
                &&& update_outcome(row) == Ok::<UserDto, UserErrorView>(payload)
                &&& get_outcome(found) == Ok::<UserDto, UserErrorView>(payload)
                &&& after.rows().len() == store.rows().len()
            },
{
    let id = payload.id->0;
    assert forall|row: Option<User>, after: InMemoryUserRepository, found: Option<User>|
        #![trigger store.updated(User::from_dto_spec(&payload), row, after), after.found(payload.id->0, found)]
        store.updated(User::from_dto_spec(&payload), row, after) && after.found(
            payload.id->0,
            found,
        ) implies {
        &&& update_outcome(row) == Ok::<UserDto, UserErrorView>(payload)
        &&& get_outcome(found) == Ok::<UserDto, UserErrorView>(payload)
        &&& after.rows().len() == store.rows().len()
    } by {
        let at = choose|at: int|
            {
                &&& #[trigger] first_with_id(store.rows(), id, at)
                &&& row->0.created_timestamp == store.rows()[at].created_timestamp
                &&& after.rows() == store.rows().update(at, row->0)
            };
        assert(after.rows()[at].id == Some(id));
        assert(has_id(after.rows(), id));
        let seen = choose|seen: int| #[trigger]
            first_with_id(after.rows(), id, seen) && found->0 == after.rows()[seen];
        if seen != at {
            assert(after.rows()[seen] == store.rows()[seen]);
        }
    }
}

/// Changing a user that no record stands for fails and leaves the store as it
/// was.
pub proof fn lemma_update_user_needs_record(store: InMemoryUserRepository, payload: UserDto)
    requires
        payload.id is Some,
        !has_id(store.rows(), payload.id->0),
    ensures
        forall|row: Option<User>, after: InMemoryUserRepository| #[trigger]
            store.updated(User::from_dto_spec(&payload), row, after) ==> {
                &&& update_outcome(row) == Err::<UserDto, UserErrorView>(
                    UserErrorView::FailedRequest("Failed to update user"@),
                )
                &&& after.rows() == store.rows()
            },
{
}

/// Removing a stored user reports success once. Removing it again reports not
/// found and changes nothing: the second call has the effect of the first and
/// another status.
pub proof fn lemma_delete_user_twice(store: InMemoryUserRepository, id: i32)
    requires
        store.wf(),
        has_id(store.rows(), id),
    ensures
        forall|first: u64, between: InMemoryUserRepository, second: u64, after: InMemoryUserRepository|
            #![trigger store.deleted(id, first, between), between.deleted(id, second, after)]
            store.deleted(id, first, between) && between.deleted(id, second, after) ==> {
                &&& delete_outcome(first) == OK
                &&& delete_outcome(second) == NOT_FOUND
                &&& !has_id(between.rows(), id)
                &&& between.rows().len() == store.rows().len() - 1
                &&& after.rows() == between.rows()
            },
{
    assert forall|
        first: u64,
        between: InMemoryUserRepository,
        second: u64,
        after: InMemoryUserRepository,
    |
        #![trigger store.deleted(id, first, between), between.deleted(id, second, after)]
        store.deleted(id, first, between) && between.deleted(id, second, after) implies {
        &&& delete_outcome(first) == OK
        &&& delete_outcome(second) == NOT_FOUND
        &&& !has_id(between.rows(), id)
        &&& between.rows().len() == store.rows().len() - 1
        &&& after.rows() == between.rows()
    } by {
        let at = choose|at: int|
            {
                &&& #[trigger] first_with_id(store.rows(), id, at)
                &&& between.rows() == store.rows().remove(at)
            };
        assert forall|k: int| 0 <= k < between.rows().len() implies #[trigger] between.rows()[k].id
            != Some(id) by {
            if k < at {
                assert(between.rows()[k] == store.rows()[k]);
            } else {
                assert(between.rows()[k] == store.rows()[k + 1]);
                assert(store.rows()[at].id->0 < store.rows()[k + 1].id->0);
            }
        }
    }
}

/// Removing a user that no record stands for reports not found and changes
/// nothing.
pub proof fn lemma_delete_user_missing(store: InMemoryUserRepository, id: i32)
    requires
        !has_id(store.rows(), id),
    ensures
        forall|count: u64, after: InMemoryUserRepository| #[trigger]
            store.deleted(id, count, after) ==> {
                &&& delete_outcome(count) == NOT_FOUND
                &&& after.rows() == store.rows()
            },
{
}

/// Listing the users of an empty store gives an empty list.
pub proof fn lemma_get_users_of_empty_store(store: InMemoryUserRepository)
    requires
        store.rows().len() == 0,
    ensures
        forall|rows: Seq<User>| #[trigger]
            store.listed(rows) ==> list_outcome(rows) == Seq::<UserDto>::empty(),
{
}

/// Listing the users gives one wire shape for each record, in ascending
/// order of id.
pub proof fn lemma_get_users_in_id_order(store: InMemoryUserRepository)
    requires
        store.wf(),
    ensures
        forall|rows: Seq<User>| #[trigger]
            store.listed(rows) ==> {
                &&& list_outcome(rows).len() == store.rows().len()
                &&& forall|k: int|
                    0 <= k < store.rows().len() ==> #[trigger] list_outcome(rows)[k]
                        == store.rows()[k].as_dto_spec()
                &&& forall|j: int, k: int|
                    0 <= j < k < store.rows().len() ==> (#[trigger] list_outcome(rows)[j]).id->0
                        < (#[trigger] list_outcome(rows)[k]).id->0
            },
{
    assert forall|j: int, k: int| 0 <= j < k < store.rows().len() implies (
    #[trigger] list_outcome(store.rows())[j]).id->0 < (
    #[trigger] list_outcome(store.rows())[k]).id->0 by {
        assert(store.rows()[j].id->0 < store.rows()[k].id->0);
    }
}

} // verus!
