//! The operations on the user resource.

use crate::manager::user_manager::{
    create_outcome, delete_outcome, get_outcome, list_outcome, update_outcome, UserError,
    UserErrorView, UserManager,
};
use crate::model::api_response::{response_view, ApiErrorView, ApiResponse, AsApiResponse};
use crate::model::status::{CREATED, OK};
use crate::model::user::{User, UserDto};
use crate::repository::repository_traits::Repository;
use crate::util::AsDtoEnabled;
use vstd::prelude::*;

verus! {

/// What renders an outcome of the manager when success answers with
/// `ok_status`.
pub open spec fn answer(outcome: Result<UserDto, UserErrorView>, ok_status: u16) -> (
    u16,
    Result<UserDto, ApiErrorView>,
) {
    match outcome {
        Ok(dto) => (ok_status, Ok(dto)),
        Err(error) => (
            error.status_code(),
            Err(ApiErrorView { code: error.code(), message: error.message() }),
        ),
    }
}

/// Creates the user in the body of the request; success answers with 201.
pub fn create_user<R: Repository<User, i32>>(
    user_manager: &mut UserManager<R>,
    payload: &UserDto,
) -> (response: ApiResponse<UserDto>)
    ensures
        payload.id is Some ==> {
            &&& response_view(response) == answer(
                Err(UserErrorView::CannotCreateExistingUser),
                CREATED,
            )
            &&& final(user_manager).repository() == old(user_manager).repository()
        },
        payload.id is None ==> exists|row: Option<User>|
            {
                &&& #[trigger] old(user_manager).repository().created(
                    User::from_dto_spec(payload),
                    row,
                    final(user_manager).repository(),
                )
                &&& response_view(response) == answer(create_outcome(row), CREATED)
            },
{
    user_manager.create_user(payload).as_api_response(CREATED)
}

/// Changes the user in the body of the request.
pub fn update_user<R: Repository<User, i32>>(
    user_manager: &mut UserManager<R>,
    payload: &UserDto,
) -> (response: ApiResponse<UserDto>)
    ensures
        payload.id is None ==> {
            &&& response_view(response) == answer(Err(UserErrorView::MissingId), OK)
            &&& final(user_manager).repository() == old(user_manager).repository()
        },
        payload.id is Some ==> exists|row: Option<User>|
            {
                &&& #[trigger] old(user_manager).repository().updated(
                    User::from_dto_spec(payload),
                    row,
                    final(user_manager).repository(),
                )
                &&& response_view(response) == answer(update_outcome(row), OK)
            },
{
    user_manager.update_user(payload).as_api_response_ok()
}

/// The user with the id in the path of the request.
pub fn get_user<R: Repository<User, i32>>(user_manager: &UserManager<R>, id: i32) -> (response:
    ApiResponse<UserDto>)
    ensures
        exists|row: Option<User>|
            {
                &&& #[trigger] user_manager.repository().found(id, row)
                &&& response_view(response) == answer(get_outcome(row), OK)
            },
{
    user_manager.get_user(&id).as_api_response_ok()
}

/// Every user. The answer is always 200.
pub fn get_users<R: Repository<User, i32>>(user_manager: &UserManager<R>) -> (response: (
    u16,
    Vec<UserDto>,
))
    ensures
        response.0 == OK,
        exists|rows: Seq<User>|
            {
                &&& #[trigger] user_manager.repository().listed(rows)
                &&& response.1@ == list_outcome(rows)
            },
{
    (OK, user_manager.get_users())
}

/// Removes the user with the id in the path of the request. The body of the
/// answer is empty; the status says whether a user was removed.
pub fn delete_user<R: Repository<User, i32>>(user_manager: &mut UserManager<R>, id: i32) -> (response:
    (u16, ()))
    ensures
        exists|count: u64|
            {
                &&& #[trigger] old(user_manager).repository().deleted(
                    id,
                    count,
                    final(user_manager).repository(),
                )
                &&& response.0 == delete_outcome(count)
            },
{
    (user_manager.delete_user(&id), ())
}

} // verus!
