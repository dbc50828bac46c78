//! Logging in, and asking who one is.

use crate::model::api_response::{rendered, response_view, ApiResponse, AsApiResponse};
use crate::model::auth::claims::JwtClaims;
use crate::model::auth::login::{LoginDto, LoginDtoView};
use crate::model::auth_error::AuthError;
use crate::model::status::OK;
use crate::services::auth_service::{AuthBody, AuthService};
use vstd::prelude::*;

verus! {

/// What is wrong with the credentials that were handed in, if anything is:
/// they are missing where the name or the password is empty, and wrong where
/// they are not the one pair that is let in.
pub open spec fn credentials_fault(payload: LoginDtoView) -> Option<AuthError> {
    if payload.user_name.len() == 0 || payload.password.len() == 0 {
        Some(AuthError::MissingCredentials)
    } else if payload.user_name != "foo"@ || payload.password != "bar"@ {
        Some(AuthError::WrongCredentials)
    } else {
        None
    }
}

fn text_is(text: &String, expected: &str) -> (same: bool)
    ensures
        same == (text@ == expected@),
{
    let expected: String = expected.to_owned();
    *text == expected
}

/// Checks the credentials that were handed in.
pub fn check_credentials(payload: &LoginDto) -> (res: Result<(), AuthError>)
    ensures
        match credentials_fault(payload@) {
            Some(fault) => res == Err::<(), AuthError>(fault),
            None => res is Ok,
        },
{
    if payload.user_name.as_str().is_empty() || payload.password.as_str().is_empty() {
        return Err(AuthError::MissingCredentials);
    }
    if !text_is(&payload.user_name, "foo") || !text_is(&payload.password, "bar") {
        return Err(AuthError::WrongCredentials);
    }
    Ok(())
}

/// Logs a client in. Credentials that are missing or wrong are answered with
/// their error, and no token is made. For the right ones a token is issued to
/// the name that logged in; the answer is 200 with the token as a bearer
/// token, or the error that says the token could not be made.
pub fn login(state: &AuthService, payload: &LoginDto) -> (response: ApiResponse<AuthBody>)
    ensures
        match credentials_fault(payload@) {
            Some(fault) => response_view(response) == rendered(
                Err::<AuthBody, AuthError>(fault),
                OK,
            ),
            None => {
                ||| {
                    &&& response.0 == OK
                    &&& response.1 matches Ok(body)
                    &&& body@.token_type == "Bearer"@
                    &&& body@.access_token.len() > 0
                }
                ||| response_view(response) == rendered(
                    Err::<AuthBody, AuthError>(AuthError::TokenCreation),
                    OK,
                )
            },
        },
{
    match check_credentials(payload) {
        Err(fault) => Err::<AuthBody, AuthError>(fault).as_api_response_ok(),
        Ok(_) => state.generate_tokens(payload.user_name.as_str()).as_api_response_ok(),
    }
}

/// What the service tells a client about itself.
#[derive(Debug, PartialEq, Eq)]
pub struct GetUserInfo {
    pub username: String,
    pub email: String,
    pub info: String,
}

impl Clone for GetUserInfo {
    fn clone(&self) -> (copy: Self)
        ensures
            copy == *self,
    {
        GetUserInfo {
            username: self.username.clone(),
            email: self.email.clone(),
            info: self.info.clone(),
        }
    }
}

/// `GetUserInfo` with its texts as sequences of characters.
pub struct GetUserInfoView {
    pub username: Seq<char>,
    pub email: Seq<char>,
    pub info: Seq<char>,
}

impl View for GetUserInfo {
    type V = GetUserInfoView;

    open spec fn view(&self) -> GetUserInfoView {
        GetUserInfoView { username: self.username@, email: self.email@, info: self.info@ }
    }
}

/// Tells the bearer of `claims` who it is: the name is the subject that its
/// token was issued to.
pub fn get_info(claims: JwtClaims) -> (response: ApiResponse<GetUserInfo>)
    ensures
        response.0 == OK,
        response.1 matches Ok(info) && info@ == (GetUserInfoView {
            username: claims@.sub,
            email: "foo@foo.com"@,
            info: "Hello there!"@,
        }),
{
    let res: Result<GetUserInfo, AuthError> = Ok(
        GetUserInfo {
            username: claims.sub,
            email: "foo@foo.com".to_owned(),
            info: "Hello there!".to_owned(),
        },
    );
    res.as_api_response_ok()
}

} // verus!
