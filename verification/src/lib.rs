//! A small user service: records kept behind a repository capability, a
//! manager that enforces the rules for creating and changing them, bearer
//! tokens that guard the protected operations, and one uniform way of turning
//! every outcome into a status code and a body.
//!
//! The logic here is verified. The calls into other crates are taken on
//! trust, each in a small function of its own that says what it relies on.

pub mod model;
pub mod util;
pub mod repository;
pub mod manager;
pub mod config;
pub mod services;
pub mod middleware;
pub mod controller;
pub mod state;
