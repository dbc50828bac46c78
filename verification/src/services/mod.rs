//! The services that the handlers call on.

pub mod auth_service;

pub use self::auth_service::{AuthBody, AuthService};
