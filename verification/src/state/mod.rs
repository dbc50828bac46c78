//! What the handlers share: the user resource and the token service.

pub mod users_api;

pub use self::users_api::UsersApi;

use crate::config::authentication::Keys;
use crate::model::user::User;
use crate::repository::repository_traits::Repository;
use crate::services::auth_service::AuthService;
use vstd::prelude::*;

verus! {

pub struct AppState<R: Repository<User, i32>> {
    pub users_api: UsersApi<R>,
    pub auth_service: AuthService,
}

impl<R: Repository<User, i32>> AppState<R> {
    /// The state of a service that keeps its users in `user_repository` and
    /// signs its tokens with `keys`.
    pub fn new(user_repository: R, keys: Keys) -> (state: Self)
        ensures
            state.users_api.user_manager.repository() == user_repository,
            state.auth_service.keys() == keys,
    {
        AppState { users_api: UsersApi::new(user_repository), auth_service: AuthService::new(keys) }
    }
}

} // verus!
