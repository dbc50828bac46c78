//! Why a request was not let in, or a token not handed out.

use crate::model::api_response::{ApiError, ApiErrorView, AsApiError, ResponseError};
use crate::model::status::{BAD_REQUEST, UNAUTHORIZED};
use vstd::prelude::*;

verus! {

#[derive(Debug, Clone, Copy, PartialEq, Eq, Structural)]
pub enum AuthError {
    /// The name and the password are not the ones that are let in.
    WrongCredentials,
    /// The name or the password is empty, or the request carries no bearer
    /// token.
    MissingCredentials,
    /// The token could not be signed.
    TokenCreation,
    /// The token is not one of ours, or is no longer good.
    InvalidToken,
}

impl AsApiError for AuthError {
    open spec fn message_spec(&self) -> Seq<char> {
        match *self {
            AuthError::WrongCredentials => "Wrong credentials"@,
            AuthError::MissingCredentials => "Missing credentials"@,
            AuthError::TokenCreation => "Token creation failed"@,
            AuthError::InvalidToken => "Invalid token"@,
        }
    }

    fn message(&self) -> (message: String) {
        match *self {
            AuthError::WrongCredentials => "Wrong credentials".to_owned(),
            AuthError::MissingCredentials => "Missing credentials".to_owned(),
            AuthError::TokenCreation => "Token creation failed".to_owned(),
            AuthError::InvalidToken => "Invalid token".to_owned(),
        }
    }
}

impl ResponseError for AuthError {
    open spec fn status_code_spec(&self) -> u16 {
        match *self {
            AuthError::WrongCredentials => BAD_REQUEST,
            AuthError::MissingCredentials => BAD_REQUEST,
            AuthError::TokenCreation => UNAUTHORIZED,
            AuthError::InvalidToken => UNAUTHORIZED,
        }
    }

    open spec fn code_spec(&self) -> Seq<char> {
        match *self {
            AuthError::WrongCredentials => "WrongCredentials"@,
            AuthError::MissingCredentials => "MissingCredentials"@,
            AuthError::TokenCreation => "TokenCreation"@,
            AuthError::InvalidToken => "InvalidToken"@,
        }
    }

    fn to_status_code(&self) -> (status: u16) {
        match *self {
            AuthError::WrongCredentials | AuthError::MissingCredentials => BAD_REQUEST,
            AuthError::InvalidToken | AuthError::TokenCreation => UNAUTHORIZED,
        }
    }

    fn to_api_err_response(&self) -> (response: (u16, ApiError)) {
        let status = self.to_status_code();
        match *self {
            AuthError::WrongCredentials => self.as_api_error(status, "WrongCredentials"),
            AuthError::MissingCredentials => self.as_api_error(status, "MissingCredentials"),
            AuthError::TokenCreation => self.as_api_error(status, "TokenCreation"),
            AuthError::InvalidToken => self.as_api_error(status, "InvalidToken"),
        }
    }
}

impl AuthError {
    /// The status and the body that answer a request that failed with this
    /// error.
    pub fn into_response(self) -> (response: (u16, ApiError))
        ensures
            response.0 == self.status_code_spec(),
            response.1@ == (ApiErrorView {
                code: self.code_spec(),
                message: self.message_spec(),
            }),
    {
        self.to_api_err_response()
    }
}

} // verus!
