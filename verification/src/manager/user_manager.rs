//! The manager of the user resource: it checks what the rules ask of a
//! request, hands the request to the repository, and turns what the repository
//! answers into a result of the service.

use crate::model::api_response::{ApiError, AsApiError, ResponseError};
use crate::model::status::{BAD_REQUEST, CONFLICT, INTERNAL_SERVER_ERROR, NOT_FOUND, OK};
use crate::model::user::{User, UserDto};
use crate::repository::repository_traits::Repository;
use crate::util::AsDtoEnabled;
use vstd::prelude::*;

verus! {

/// Why a request on the user resource failed.
#[derive(Debug, PartialEq, Eq)]
pub enum UserError {
    /// A user with an id was handed in to be created.
    CannotCreateExistingUser,
    /// A user without an id was handed in to be changed.
    MissingId,
    /// No user has the id that was asked for.
    NotFound,
    /// The repository could not do what was asked; the text says what.
    FailedRequest(String),
}

impl Clone for UserError {
    fn clone(&self) -> (copy: Self)
        ensures
            copy == *self,
    {
        match self {
            UserError::CannotCreateExistingUser => UserError::CannotCreateExistingUser,
            UserError::MissingId => UserError::MissingId,
            UserError::NotFound => UserError::NotFound,
            UserError::FailedRequest(detail) => UserError::FailedRequest(detail.clone()),
        }
    }
}

/// A `UserError` with its text as a sequence of characters.
pub enum UserErrorView {
    CannotCreateExistingUser,
    MissingId,
    NotFound,
    FailedRequest(Seq<char>),
}

impl View for UserError {
    type V = UserErrorView;

    open spec fn view(&self) -> UserErrorView {
        match *self {
            UserError::CannotCreateExistingUser => UserErrorView::CannotCreateExistingUser,
            UserError::MissingId => UserErrorView::MissingId,
            UserError::NotFound => UserErrorView::NotFound,
            UserError::FailedRequest(detail) => UserErrorView::FailedRequest(detail@),
        }
    }
}

impl UserErrorView {
    /// The status that a request answers with when it fails with this error.
    pub open spec fn status_code(self) -> u16 {
        match self {
            UserErrorView::CannotCreateExistingUser => CONFLICT,
            UserErrorView::MissingId => BAD_REQUEST,
            UserErrorView::NotFound => NOT_FOUND,
            UserErrorView::FailedRequest(_) => INTERNAL_SERVER_ERROR,
        }
    }

    /// The name of this kind of error.
    pub open spec fn code(self) -> Seq<char> {
        match self {
            UserErrorView::CannotCreateExistingUser => "CannotCreateExistingUser"@,
            UserErrorView::MissingId => "MissingId"@,
            UserErrorView::NotFound => "NotFound"@,
            UserErrorView::FailedRequest(_) => "FailedRequest"@,
        }
    }

    /// The message for a human reader.
    pub open spec fn message(self) -> Seq<char> {
        match self {
            UserErrorView::CannotCreateExistingUser => {
                "Cannot create a user that already has an id"@
            },
            UserErrorView::MissingId => "Missing id"@,
            UserErrorView::NotFound => "User not found"@,
            UserErrorView::FailedRequest(detail) => detail,
        }
    }
}

impl AsApiError for UserError {
    open spec fn message_spec(&self) -> Seq<char> {
        self@.message()
    }

    fn message(&self) -> (message: String) {
        match self {
            UserError::CannotCreateExistingUser => {
                "Cannot create a user that already has an id".to_owned()
            },
            UserError::MissingId => "Missing id".to_owned(),
            UserError::NotFound => "User not found".to_owned(),
            UserError::FailedRequest(detail) => detail.clone(),
        }
    }
}

impl ResponseError for UserError {
    open spec fn status_code_spec(&self) -> u16 {
        self@.status_code()
    }

    open spec fn code_spec(&self) -> Seq<char> {
        self@.code()
    }

    fn to_status_code(&self) -> (status: u16) {
        match self {
            UserError::CannotCreateExistingUser => CONFLICT,
            UserError::MissingId => BAD_REQUEST,
            UserError::NotFound => NOT_FOUND,
            UserError::FailedRequest(_) => INTERNAL_SERVER_ERROR,
        }
    }

    fn to_api_err_response(&self) -> (response: (u16, ApiError)) {
        let status = self.to_status_code();
        match self {
            UserError::CannotCreateExistingUser => {
                self.as_api_error(status, "CannotCreateExistingUser")
            },
            UserError::MissingId => self.as_api_error(status, "MissingId"),
            UserError::NotFound => self.as_api_error(status, "NotFound"),
            UserError::FailedRequest(_) => self.as_api_error(status, "FailedRequest"),
        }
    }
}

/// A result of the manager with its error seen as a `UserErrorView`.
pub open spec fn result_view(res: Result<UserDto, UserError>) -> Result<UserDto, UserErrorView> {
    match res {
        Ok(dto) => Ok(dto),
        Err(error) => Err(error@),
    }
}

/// What `create_user` returns when the repository answered `row`.
pub open spec fn create_outcome(row: Option<User>) -> Result<UserDto, UserErrorView> {
    match row {
        Some(user) => Ok(user.as_dto_spec()),
        None => Err(UserErrorView::FailedRequest("Failed to create user"@)),
    }
}

/// What `update_user` returns when the repository answered `row`.
pub open spec fn update_outcome(row: Option<User>) -> Result<UserDto, UserErrorView> {
    match row {
        Some(user) => Ok(user.as_dto_spec()),
        None => Err(UserErrorView::FailedRequest("Failed to update user"@)),
    }
}

/// What `get_user` returns when the repository answered `row`.
pub open spec fn get_outcome(row: Option<User>) -> Result<UserDto, UserErrorView> {
    match row {
        Some(user) => Ok(user.as_dto_spec()),
        None => Err(UserErrorView::NotFound),
    }
}

/// What `get_users` returns when the repository answered `rows`.
pub open spec fn list_outcome(rows: Seq<User>) -> Seq<UserDto> {
    rows.map_values(|user: User| user.as_dto_spec())
}

/// The status that `delete_user` reports when the repository removed `count`
/// records: not found where it removed none.
pub open spec fn delete_outcome(count: u64) -> u16 {
    if count == 0 {
        NOT_FOUND
    } else {
        OK
    }
}

/// Turns the repository's answer to `create` into the result of
/// `create_user`.
pub fn created_response(row: Option<User>) -> (res: Result<UserDto, UserError>)
    ensures
        result_view(res) == create_outcome(row),
{
    match row {
        Some(user) => Ok(user.as_dto()),
        None => Err(UserError::FailedRequest("Failed to create user".to_owned())),
    }
}

/// Turns the repository's answer to `update` into the result of
/// `update_user`.
pub fn updated_response(row: Option<User>) -> (res: Result<UserDto, UserError>)
    ensures
        result_view(res) == update_outcome(row),
{
    match row {
        Some(user) => Ok(user.as_dto()),
        None => Err(UserError::FailedRequest("Failed to update user".to_owned())),
    }
}

/// Turns the repository's answer to `find_by_id` into the result of
/// `get_user`.
pub fn found_response(row: Option<User>) -> (res: Result<UserDto, UserError>)
    ensures
        result_view(res) == get_outcome(row),
{
    match row {
        Some(user) => Ok(user.as_dto()),
        None => Err(UserError::NotFound),
    }
}

/// Turns the repository's answer to `find_all` into the result of
/// `get_users`.
pub fn listed_response(rows: Vec<User>) -> (users: Vec<UserDto>)
    ensures
        users@ == list_outcome(rows@),
{
    let mut users: Vec<UserDto> = Vec::new();
    let mut at: usize = 0;
    while at < rows.len()
        invariant
            at <= rows@.len(),
            users@ == list_outcome(rows@.subrange(0, at as int)),
        decreases rows@.len() - at,
    {
        users.push(rows[at].as_dto());
        at += 1;
        assert(rows@.subrange(0, at as int) == rows@.subrange(0, at - 1).push(rows@[at - 1]));
    }
    assert(rows@.subrange(0, at as int) == rows@);
    users
}

/// Turns the repository's answer to `delete_by_id` into the status of
/// `delete_user`.
pub fn deleted_response(count: u64) -> (status: u16)
    ensures
        status == delete_outcome(count),
{
    if count == 0 {
        NOT_FOUND
    } else {
        OK
    }
}

/// The business rules of the user resource, over any repository of users.
pub struct UserManager<R: Repository<User, i32>> {
    user_repository: R,
}

impl<R: Repository<User, i32>> UserManager<R> {
    /// The repository that this manager works on.
    pub closed spec fn repository(&self) -> R {
        self.user_repository
    }

    /// A manager that works on `user_repository`.
    pub fn new(user_repository: R) -> (manager: Self)
        ensures
            manager.repository() == user_repository,
    {
        UserManager { user_repository }
    }

    /// Creates a user. A client may not choose the id: a payload that has one
    /// is refused before the repository is asked. Otherwise the repository is
    /// asked to store the payload's record, and its answer decides.
    pub fn create_user(&mut self, payload: &UserDto) -> (res: Result<UserDto, UserError>)
        ensures
            payload.id is Some ==> {
                &&& result_view(res) == Err::<UserDto, UserErrorView>(
                    UserErrorView::CannotCreateExistingUser,
                )
                &&& final(self).repository() == old(self).repository()
            },
            payload.id is None ==> exists|row: Option<User>|
                {
                    &&& #[trigger] old(self).repository().created(
                        User::from_dto_spec(payload),
                        row,
                        final(self).repository(),
                    )
                    &&& result_view(res) == create_outcome(row)
                },
    {
        if payload.id.is_some() {
            return Err(UserError::CannotCreateExistingUser);
        }
        let user = User::from_dto(payload);
        let row = self.user_repository.create(&user);
        assert(old(self).repository().created(
            User::from_dto_spec(payload),
            row,
            self.repository(),
        ));
        created_response(row)
    }

    /// Changes a user. The payload says which by its id: one without an id is
    /// refused before the repository is asked. Otherwise the repository is
    /// asked to change the payload's record, and its answer decides.
    pub fn update_user(&mut self, payload: &UserDto) -> (res: Result<UserDto, UserError>)
        ensures
            payload.id is None ==> {
                &&& result_view(res) == Err::<UserDto, UserErrorView>(UserErrorView::MissingId)
                &&& final(self).repository() == old(self).repository()
            },
            payload.id is Some ==> exists|row: Option<User>|
                {
                    &&& #[trigger] old(self).repository().updated(
                        User::from_dto_spec(payload),
                        row,
                        final(self).repository(),
                    )
                    &&& result_view(res) == update_outcome(row)
                },
    {
        if payload.id.is_none() {
            return Err(UserError::MissingId);
        }
        let user = User::from_dto(payload);
        let row = self.user_repository.update(&user);
        assert(old(self).repository().updated(
            User::from_dto_spec(payload),
            row,
            self.repository(),
        ));
        updated_response(row)
    }

    /// The user with the given id, as the repository finds it.
    pub fn get_user(&self, id: &i32) -> (res: Result<UserDto, UserError>)
        ensures
            exists|row: Option<User>|
                {
                    &&& #[trigger] self.repository().found(*id, row)
                    &&& result_view(res) == get_outcome(row)
                },
    {
        let row = self.user_repository.find_by_id(id);
        assert(self.repository().found(*id, row));
        found_response(row)
    }

    /// Every user, as the repository lists them. This cannot fail: a store
    /// without users gives an empty list.
    pub fn get_users(&self) -> (users: Vec<UserDto>)
        ensures
            exists|rows: Seq<User>|
                {
                    &&& #[trigger] self.repository().listed(rows)
                    &&& users@ == list_outcome(rows)
                },
    {
        let rows = self.user_repository.find_all();
        assert(self.repository().listed(rows@));
        listed_response(rows)
    }

    /// Removes the user with the given id and reports 200 where one was
    /// removed and 404 where none was.
    pub fn delete_user(&mut self, id: &i32) -> (status: u16)
        ensures
            exists|count: u64|
                {
                    &&& #[trigger] old(self).repository().deleted(
                        *id,
                        count,
                        final(self).repository(),
                    )
                    &&& status == delete_outcome(count)
                },
    {
        let count = self.user_repository.delete_by_id(id);
        assert(old(self).repository().deleted(*id, count, self.repository()));
        deleted_response(count)
    }
}

} // verus!
