//! The rows of the store and the bodies of the requests that change them.
//!
//! Identifiers are 128-bit numbers. A point in time is a count of
//! microseconds since the Unix epoch.

pub mod document;
pub mod permission;
pub mod user;

pub use document::{Document, DocumentVersion, NewDocument};
pub use permission::{DocumentPermission, PermissionType, ShareLink};
pub use user::{NewUser, User, UserRole};
