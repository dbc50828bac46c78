//! What the service is set up with when it starts.

pub mod authentication;
