//! The user resource as the handlers see it.

use crate::manager::user_manager::UserManager;
use crate::model::user::User;
use crate::repository::repository_traits::Repository;
use vstd::prelude::*;

verus! {

pub struct UsersApi<R: Repository<User, i32>> {
    pub user_manager: UserManager<R>,
}

impl<R: Repository<User, i32>> UsersApi<R> {
    /// The user resource over `user_repository`.
    pub fn new(user_repository: R) -> (api: Self)
        ensures
            api.user_manager.repository() == user_repository,
    {
        UsersApi { user_manager: UserManager::new(user_repository) }
    }
}

} // verus!
