//! The stored user record and its wire shape.

use crate::util::AsDtoEnabled;
use vstd::prelude::*;

verus! {

/// `chrono::NaiveDateTime`, a calendar date and time of day without a zone.
/// The service only carries such values; nothing is claimed of what one holds.
#[verifier::external_type_specification]
#[verifier::external_body]
pub struct ExNaiveDateTime(chrono::NaiveDateTime);

/// A user as the store keeps it. A record that has not been stored yet has no
/// `id` and no timestamps.
#[derive(Debug, PartialEq, Eq)]
pub struct User {
    pub id: Option<i32>,
    pub user_name: Option<String>,
    pub created_timestamp: Option<chrono::NaiveDateTime>,
    pub updated_timestamp: Option<chrono::NaiveDateTime>,
}

/// A user as it travels on the wire: the record without its timestamps.
#[derive(Debug, PartialEq, Eq)]
pub struct UserDto {
    pub id: Option<i32>,
    pub user_name: Option<String>,
}

/// A copy of an optional string.
pub fn clone_name(name: &Option<String>) -> (copy: Option<String>)
    ensures
        copy == *name,
{
    match name {
        Some(text) => Some(text.clone()),
        None => None,
    }
}

impl Clone for UserDto {
    fn clone(&self) -> (copy: Self)
        ensures
            copy == *self,
    {
        UserDto { id: self.id, user_name: clone_name(&self.user_name) }
    }
}

impl Clone for User {
    fn clone(&self) -> (copy: Self)
        ensures
            copy == *self,
    {
        User {
            id: self.id,
            user_name: clone_name(&self.user_name),
            created_timestamp: self.created_timestamp,
            updated_timestamp: self.updated_timestamp,
        }
    }
}

impl User {
    /// A record that is yet to be stored, under the given name.
    pub fn new(user_name: &str) -> (user: Self)
        ensures
            user.id is None,
            user.user_name matches Some(name) && name@ == user_name@,
            user.created_timestamp is None,
            user.updated_timestamp is None,
    {
        User {
            id: None,
            user_name: Some(user_name.to_owned()),
            created_timestamp: None,
            updated_timestamp: None,
        }
    }

    /// A record with nothing in it.
    pub fn empty() -> (user: Self)
        ensures
            user == (User {
                id: None,
                user_name: None,
                created_timestamp: None,
                updated_timestamp: None,
            }),
    {
        User { id: None, user_name: None, created_timestamp: None, updated_timestamp: None }
    }
}

impl AsDtoEnabled<UserDto> for User {
    open spec fn as_dto_spec(&self) -> UserDto {
        UserDto { id: self.id, user_name: self.user_name }
    }

    open spec fn from_dto_spec(dto: &UserDto) -> User {
        User {
            id: dto.id,
            user_name: dto.user_name,
            created_timestamp: None,
            updated_timestamp: None,
        }
    }

    fn as_dto(&self) -> (dto: UserDto) {
        UserDto { id: self.id, user_name: clone_name(&self.user_name) }
    }

    fn from_dto(dto: &UserDto) -> (entity: User) {
        User {
            id: dto.id,
            user_name: clone_name(&dto.user_name),
            created_timestamp: None,
            updated_timestamp: None,
        }
    }
}

/// Going to the record and back gives the wire shape that one started from:
/// the timestamps are the only thing a record has that the wire shape lacks.
pub proof fn lemma_dto_round_trip(dto: UserDto)
    ensures
        User::from_dto_spec(&dto).as_dto_spec() == dto,
{
}

/// Going to the wire and back keeps the id and the name and drops the
/// timestamps.
pub proof fn lemma_entity_round_trip(user: User)
    ensures
        User::from_dto_spec(&user.as_dto_spec()).id == user.id,
        User::from_dto_spec(&user.as_dto_spec()).user_name == user.user_name,
        User::from_dto_spec(&user.as_dto_spec()).created_timestamp is None,
        User::from_dto_spec(&user.as_dto_spec()).updated_timestamp is None,
{
}

} // verus!
