//! What a client hands in to log in, and what a token says.

pub mod claims;
pub mod login;

pub use self::claims::JwtClaims;
pub use self::login::LoginDto;
