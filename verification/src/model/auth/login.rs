//! The credentials that a client hands in to log in.

use vstd::prelude::*;

verus! {

#[derive(Debug, PartialEq, Eq)]
pub struct LoginDto {
    pub user_name: String,
    pub password: String,
}

impl Clone for LoginDto {
    fn clone(&self) -> (copy: Self)
        ensures
            copy == *self,
    {
        LoginDto { user_name: self.user_name.clone(), password: self.password.clone() }
    }
}

/// A `LoginDto` with its texts as sequences of characters.
pub struct LoginDtoView {
    pub user_name: Seq<char>,
    pub password: Seq<char>,
}

impl View for LoginDto {
    type V = LoginDtoView;

    open spec fn view(&self) -> LoginDtoView {
        LoginDtoView { user_name: self.user_name@, password: self.password@ }
    }
}

} // verus!
