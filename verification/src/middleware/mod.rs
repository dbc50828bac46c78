//! The guard in front of the protected operations.
//!
//! A request starts out unauthenticated. Reading its `Authorization` header
//! either gives the bearer token that it carries or turns it away with
//! `MissingCredentials`. Checking the token either lets the request in, with
//! the claims of its bearer, or turns it away with `InvalidToken`. Which
//! operations are protected is for the router to say.

pub mod bearer;

use crate::middleware::bearer::{bearer_token, bearer_token_spec, bytes_view};
use crate::model::auth::claims::JwtClaims;
use crate::model::auth_error::AuthError;
use crate::services::auth_service::AuthService;
use crate::util::now_epoch;
use vstd::prelude::*;

verus! {

/// Lets a request in at the second `now`, or turns it away. `authorization`
/// is the value of the request's `Authorization` header, if it has one. A
/// request without a bearer token is turned away with `MissingCredentials`,
/// one whose token is not accepted or is no longer good with `InvalidToken`.
/// A request that is let in gets the claims of its bearer, which the caller
/// attaches to it before it goes on.
pub fn authorize(service: &AuthService, authorization: Option<&[u8]>, now: usize) -> (res: Result<
    JwtClaims,
    AuthError,
>)
    ensures
        bearer_token_spec(bytes_view(authorization)) is None ==> res == Err::<
            JwtClaims,
            AuthError,
        >(AuthError::MissingCredentials),
        bearer_token_spec(bytes_view(authorization)) is Some ==> (res matches Err(error)
            ==> error == AuthError::InvalidToken),
        res matches Ok(claims) ==> claims.exp > now,
{
    match bearer_token(authorization) {
        Ok(token) => service.read_token(token, now),
        Err(error) => Err(error),
    }
}

/// Lets a request in now, or turns it away.
pub fn auth_layer(service: &AuthService, authorization: Option<&[u8]>) -> (res: Result<
    JwtClaims,
    AuthError,
>)
    ensures
        bearer_token_spec(bytes_view(authorization)) is None ==> res == Err::<
            JwtClaims,
            AuthError,
        >(AuthError::MissingCredentials),
        bearer_token_spec(bytes_view(authorization)) is Some ==> (res matches Err(error)
            ==> error == AuthError::InvalidToken),
{
    authorize(service, authorization, now_epoch())
}

impl JwtClaims {
    /// The claims of the bearer of a request, for a handler that asks for
    /// them itself. It answers as the guard does: a request without a bearer
    /// token fails with `MissingCredentials`, one whose token is not accepted
    /// or is no longer good with `InvalidToken`.
    pub fn from_request_parts(authorization: Option<&[u8]>, service: &AuthService) -> (res:
        Result<JwtClaims, AuthError>)
        ensures
            bearer_token_spec(bytes_view(authorization)) is None ==> res == Err::<
                JwtClaims,
                AuthError,
            >(AuthError::MissingCredentials),
            bearer_token_spec(bytes_view(authorization)) is Some ==> (res matches Err(error)
                ==> error == AuthError::InvalidToken),
    {
        match bearer_token(authorization) {
            Ok(token) => service.read_token(token, now_epoch()),
            Err(error) => Err(error),
        }
    }
}

} // verus!
