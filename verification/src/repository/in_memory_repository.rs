//! A store of users that lives in memory.

use crate::model::user::{clone_name, User};
use crate::repository::repository_traits::{
    ReadRepository, Repository, TruncateRepository, WriteRepository,
};
use crate::util::now_epoch;
use vstd::prelude::*;

verus! {

/// `chrono::DateTime::from_timestamp` with no nanoseconds, read without its
/// zone by `naive_utc`: the date and time in UTC that is `seconds` after the
/// start of 1970, or nothing where chrono has no date that far away. Nothing
/// is claimed of the answer.
#[verifier::external_body]
fn timestamp_at(seconds: i64) -> Option<chrono::NaiveDateTime> {
    chrono::DateTime::from_timestamp(seconds, 0).map(|time| time.naive_utc())
}

/// `chrono::NaiveDateTime::default`, which chrono documents as the start of
/// 1970. Nothing is claimed of the answer.
#[verifier::external_body]
fn first_timestamp() -> chrono::NaiveDateTime {
    chrono::NaiveDateTime::default()
}

/// The date and time that the machine's clock shows, to the second. A
/// reading that chrono has no date for is stamped as the start of 1970. The
/// stamp is chrono's own value for what the clock shows, so nothing is
/// promised of it.
fn current_timestamp() -> chrono::NaiveDateTime {
    let seconds: i64 = date_seconds(now_epoch());
    timestamp_at(seconds).unwrap_or(first_timestamp())
}

/// The seconds after the start of 1970 that chrono is asked a date for when
/// the clock reads `now`: the reading itself, or the largest count that
/// chrono takes where the reading is past it.
spec fn seconds_asked(now: usize) -> i64 {
    if now <= i64::MAX {
        now as i64
    } else {
        i64::MAX
    }
}

/// The seconds that chrono is asked a date for when the clock reads `now`.
fn date_seconds(now: usize) -> (seconds: i64)
    ensures
        seconds == seconds_asked(now),
        0 <= seconds,
        now <= i64::MAX ==> seconds == now,
{
    let now: u64 = now as u64;
    if now <= i64::MAX as u64 {
        now as i64
    } else {
        i64::MAX
    }
}

/// Whether `row` has everything that a stored record has.
pub open spec fn is_stored(row: User) -> bool {
    &&& row.id is Some
    &&& row.user_name is Some
    &&& row.created_timestamp is Some
    &&& row.updated_timestamp is Some
}

/// Whether `at` is the first place in `rows` that holds a record with `id`.
pub open spec fn first_with_id(rows: Seq<User>, id: i32, at: int) -> bool {
    &&& 0 <= at < rows.len()
    &&& rows[at].id == Some(id)
    &&& forall|k: int| 0 <= k < at ==> rows[k].id != Some(id)
}

/// Whether some record in `rows` has `id`.
pub open spec fn has_id(rows: Seq<User>, id: i32) -> bool {
    exists|k: int| 0 <= k < rows.len() && #[trigger] rows[k].id == Some(id)
}

/// Whether `rows` can be the records of a store that will hand out `next_id`
/// next: complete records, in ascending order of ids that were handed out
/// before.
pub open spec fn rows_valid(rows: Seq<User>, next_id: i32) -> bool {
    &&& 1 <= next_id
    &&& forall|k: int| 0 <= k < rows.len() ==> is_stored(#[trigger] rows[k])
    &&& forall|k: int| 0 <= k < rows.len() ==> 1 <= (#[trigger] rows[k]).id->0 < next_id
    &&& forall|j: int, k: int|
        0 <= j < k < rows.len() ==> (#[trigger] rows[j]).id->0 < (#[trigger] rows[k]).id->0
}

/// A store of users in memory. Ids are handed out in ascending order, from 1,
/// and never twice.
pub struct InMemoryUserRepository {
    rows: Vec<User>,
    next_id: i32,
}

impl InMemoryUserRepository {
    /// The stored records, in the order in which `find_all` lists them.
    pub closed spec fn rows(&self) -> Seq<User> {
        self.rows@
    }

    /// The id that the next stored record gets.
    pub closed spec fn next_id(&self) -> i32 {
        self.next_id
    }

    /// Whether the store is in a state that its operations can leave it in.
    pub open spec fn wf(&self) -> bool {
        rows_valid(self.rows(), self.next_id())
    }

    /// An empty store.
    pub fn new() -> (store: Self)
        ensures
            store.wf(),
            store.rows() == Seq::<User>::empty(),
            store.next_id() == 1,
    {
        InMemoryUserRepository { rows: Vec::new(), next_id: 1 }
    }

    /// The place of the first record with `id`, or the number of records
    /// where there is none.
    fn position(&self, id: i32) -> (at: usize)
        ensures
            at <= self.rows().len(),
            at < self.rows().len() ==> first_with_id(self.rows(), id, at as int),
            at == self.rows().len() ==> !has_id(self.rows(), id),
    {
        let mut at: usize = 0;
        while at < self.rows.len()
            invariant
                at <= self.rows@.len(),
                forall|k: int| 0 <= k < at ==> self.rows@[k].id != Some(id),
            decreases self.rows@.len() - at,
        {
            match self.rows[at].id {
                Some(found) => {
                    if found == id {
                        return at;
                    }
                },
                None => {},
            }
            at += 1;
        }
        at
    }
}

impl ReadRepository<User, i32> for InMemoryUserRepository {
    open spec fn found(&self, id: i32, row: Option<User>) -> bool {
        match row {
            Some(user) => exists|at: int|
                #[trigger] first_with_id(self.rows(), id, at) && user == self.rows()[at],
            None => !has_id(self.rows(), id),
        }
    }

    open spec fn listed(&self, rows: Seq<User>) -> bool {
        rows == self.rows()
    }

    fn find_by_id(&self, id: &i32) -> (row: Option<User>) {
        let at: usize = self.position(*id);
        if at < self.rows.len() {
            assert(first_with_id(self.rows(), *id, at as int));
            Some(self.rows[at].clone())
        } else {
            None
        }
    }

    fn find_all(&self) -> (rows: Vec<User>) {
        let mut rows: Vec<User> = Vec::new();
        let mut at: usize = 0;
        while at < self.rows.len()
            invariant
                at <= self.rows@.len(),
                rows@ == self.rows@.subrange(0, at as int),
            decreases self.rows@.len() - at,
        {
            rows.push(self.rows[at].clone());
            at += 1;
        }
        assert(self.rows@.subrange(0, at as int) == self.rows@);
        rows
    }
}

impl WriteRepository<User, i32> for InMemoryUserRepository {
    open spec fn created(&self, entity: User, row: Option<User>, after: Self) -> bool {
        &&& self.wf() ==> after.wf()
        &&& if entity.user_name is Some && self.next_id() < i32::MAX {
            &&& row matches Some(user)
            &&& is_stored(user)
            &&& user.id == Some(self.next_id())
            &&& user.user_name == entity.user_name
            &&& user.updated_timestamp == user.created_timestamp
            &&& after.rows() == self.rows().push(user)
            &&& after.next_id() == self.next_id() + 1
        } else {
            &&& row is None
            &&& after.rows() == self.rows()
            &&& after.next_id() == self.next_id()
        }
    }

    open spec fn updated(&self, entity: User, row: Option<User>, after: Self) -> bool {
        &&& self.wf() ==> after.wf()
        &&& after.next_id() == self.next_id()
        &&& if entity.id is Some && entity.user_name is Some && has_id(
            self.rows(),
            entity.id->0,
        ) {
            &&& row matches Some(user)
            &&& user.id == entity.id
            &&& user.user_name == entity.user_name
            &&& user.updated_timestamp is Some
            &&& exists|at: int|
                {
                    &&& #[trigger] first_with_id(self.rows(), entity.id->0, at)
                    &&& user.created_timestamp == self.rows()[at].created_timestamp
                    &&& after.rows() == self.rows().update(at, user)
                }
        } else {
            &&& row is None
            &&& after.rows() == self.rows()
        }
    }

    open spec fn deleted(&self, id: i32, count: u64, after: Self) -> bool {
        &&& self.wf() ==> after.wf()
        &&& after.next_id() == self.next_id()
        &&& if has_id(self.rows(), id) {
            &&& count == 1
            &&& exists|at: int|
                {
                    &&& #[trigger] first_with_id(self.rows(), id, at)
                    &&& after.rows() == self.rows().remove(at)
                }
        } else {
            &&& count == 0
            &&& after.rows() == self.rows()
        }
    }

    fn create(&mut self, entity: &User) -> (row: Option<User>) {
        if entity.user_name.is_none() || self.next_id == i32::MAX {
            return None;
        }
        let now = current_timestamp();
        let user = User {
            id: Some(self.next_id),
            user_name: clone_name(&entity.user_name),
            created_timestamp: Some(now),
            updated_timestamp: Some(now),
        };
        self.rows.push(user.clone());
        self.next_id = self.next_id + 1;
        Some(user)
    }

    fn update(&mut self, entity: &User) -> (row: Option<User>) {
        let id: i32 = match entity.id {
            Some(id) => id,
            None => {
                return None;
            },
        };
        if entity.user_name.is_none() {
            return None;
        }
        let at: usize = self.position(id);
        if at == self.rows.len() {
            return None;
        }
        let user = User {
            id: Some(id),
            user_name: clone_name(&entity.user_name),
            created_timestamp: self.rows[at].created_timestamp,
            updated_timestamp: Some(current_timestamp()),
        };
        self.rows.set(at, user.clone());
        Some(user)
    }

    fn delete_by_id(&mut self, id: &i32) -> (count: u64) {
        let at: usize = self.position(*id);
        if at == self.rows.len() {
            return 0;
        }
        self.rows.remove(at);
        1
    }
}

impl TruncateRepository for InMemoryUserRepository {
    open spec fn truncated(&self, count: u64, after: Self) -> bool {
        &&& self.wf() ==> after.wf()
        &&& count == self.rows().len()
        &&& after.rows() == Seq::<User>::empty()
        &&& after.next_id() == self.next_id()
    }

    fn truncate(&mut self) -> (count: u64) {
        let count: usize = self.rows.len();
        self.rows.clear();
        count as u64
    }
}

impl Repository<User, i32> for InMemoryUserRepository {
}

} // verus!
