//! The data that crosses the service: stored records, their wire shapes, and
//! the closed sets of errors.

pub mod api_response;
pub mod auth;
pub mod auth_error;
pub mod status;
pub mod user;
