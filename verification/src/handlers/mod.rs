//! The operations that answer requests. Each takes the store, the principal
//! and what the request carries, decides under the resolver, and applies its
//! change to the store only where the decision allows it.

pub mod auth;
pub mod document;
pub mod onlyoffice;
pub mod permission;
pub mod search;

pub use auth::{get_current_user, login, register};
pub use document::{
    check_upload, create_folder, delete_document, download_document, get_document,
    list_documents, move_document, update_document, upload_document,
};
pub use onlyoffice::{accept_editor_save, get_editor_access, get_editor_config, onlyoffice_callback};
pub use permission::{
    create_share_link, delete_share_link, get_share_link, grant_permission, list_permissions,
    list_share_links, revoke_permission,
};
pub use search::search_documents;
