//! The business rules of the user resource.

pub mod guarantees;
pub mod user_manager;

pub use self::user_manager::{UserError, UserManager};
