//! The handlers: what each operation of the service answers to a request
//! whose body and path have been read.

pub mod auth_controller;
pub mod user_controller;
