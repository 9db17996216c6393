//! What stands between the transport and the handlers.

pub mod auth;

pub use auth::AuthUser;
