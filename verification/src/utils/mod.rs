//! Password hashing, identifiers as text and the claims of a bearer credential.

pub mod ident;
pub mod jwt;
pub mod password;

pub use jwt::Claims;
pub use password::{hash_password, verify_password};
