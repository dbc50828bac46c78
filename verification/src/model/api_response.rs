//! One way of turning every outcome into a status code and a body.
//!
//! A failure is rendered as an `ApiError`: a code that names the kind of
//! failure and never changes, and a message for a human reader.

use vstd::prelude::*;

verus! {

/// The body of a failed request.
#[derive(Debug, PartialEq, Eq)]
pub struct ApiError {
    pub code: String,
    pub message: String,
}

impl Clone for ApiError {
    fn clone(&self) -> (copy: Self)
        ensures
            copy == *self,
    {
        ApiError { code: self.code.clone(), message: self.message.clone() }
    }
}

/// An `ApiError` with its texts as sequences of characters.
pub struct ApiErrorView {
    pub code: Seq<char>,
    pub message: Seq<char>,
}

impl View for ApiError {
    type V = ApiErrorView;

    open spec fn view(&self) -> ApiErrorView {
        ApiErrorView { code: self.code@, message: self.message@ }
    }
}

/// What a handler answers: a status code, and the value or the failure.
pub type ApiResponse<T> = (u16, Result<T, ApiError>);

/// An answer with its failure seen as an `ApiErrorView`.
pub open spec fn response_view<T>(response: ApiResponse<T>) -> (u16, Result<T, ApiErrorView>) {
    match response.1 {
        Ok(value) => (response.0, Ok(value)),
        Err(error) => (response.0, Err(error@)),
    }
}

/// Something that has a message for a human reader, and so can be made into
/// the body of a failed request.
pub trait AsApiError {
    /// The message for a human reader.
    spec fn message_spec(&self) -> Seq<char>;

    fn message(&self) -> (message: String)
        ensures
            message@ == self.message_spec(),
    ;

    /// The failure body with the given code and this value's message, beside
    /// the given status.
    fn as_api_error(&self, status_code: u16, code: &str) -> (response: (u16, ApiError))
        ensures
            response.0 == status_code,
            response.1@ == (ApiErrorView { code: code@, message: self.message_spec() }),
    {
        let error = ApiError { code: code.to_owned(), message: self.message() };
        (status_code, error)
    }
}

/// An error of the service, which knows its status and its code.
pub trait ResponseError: AsApiError {
    /// The status that a request answers with when it fails with this error.
    spec fn status_code_spec(&self) -> u16;

    /// The name of this kind of error.
    spec fn code_spec(&self) -> Seq<char>;

    fn to_status_code(&self) -> (status: u16)
        ensures
            status == self.status_code_spec(),
    ;

    /// The status and the body that render this error.
    fn to_api_err_response(&self) -> (response: (u16, ApiError))
        ensures
            response.0 == self.status_code_spec(),
            response.1@ == (ApiErrorView {
                code: self.code_spec(),
                message: self.message_spec(),
            }),
    ;
}

/// What renders the result `res` when success answers with `ok_status`.
pub open spec fn rendered<T, E: ResponseError>(res: Result<T, E>, ok_status: u16) -> (
    u16,
    Result<T, ApiErrorView>,
) {
    match res {
        Ok(value) => (ok_status, Ok(value)),
        Err(error) => (
            error.status_code_spec(),
            Err(ApiErrorView { code: error.code_spec(), message: error.message_spec() }),
        ),
    }
}

/// A result that can be rendered as an answer.
pub trait AsApiResponse<T>: Sized {
    /// What renders this result when success answers with `ok_status`.
    spec fn response_spec(self, ok_status: u16) -> (u16, Result<T, ApiErrorView>);

    /// Renders this result; success answers with 200.
    fn as_api_response_ok(self) -> (response: ApiResponse<T>)
        ensures
            response_view(response) == self.response_spec(crate::model::status::OK),
    {
        self.as_api_response(crate::model::status::OK)
    }

    /// Renders this result; success answers with `ok_status`.
    fn as_api_response(self, ok_status: u16) -> (response: ApiResponse<T>)
        ensures
            response_view(response) == self.response_spec(ok_status),
    ;
}

impl<T, E: ResponseError> AsApiResponse<T> for Result<T, E> {
    open spec fn response_spec(self, ok_status: u16) -> (u16, Result<T, ApiErrorView>) {
        rendered(self, ok_status)
    }

    fn as_api_response(self, ok_status: u16) -> (response: ApiResponse<T>) {
        match self {
            Ok(value) => (ok_status, Ok(value)),
            Err(error) => {
                let (status, body) = error.to_api_err_response();
                (status, Err(body))
            },
        }
    }
}

} // verus!
