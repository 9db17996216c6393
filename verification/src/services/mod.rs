//! The services behind the request handlers.

pub mod onlyoffice;
pub mod permission;
pub mod search;
pub mod storage;

pub use onlyoffice::OnlyOfficeService;
pub use permission::PermissionService;
