//! The capability that stands between the business rules and the store, and a
//! store that lives in memory.

pub mod in_memory_repository;
pub mod repository_traits;

pub use self::in_memory_repository::InMemoryUserRepository;
