//! Authorization and sharing engine of a document management backend.
//!
//! The library decides whether a principal may act on a document, keeps the
//! grant tables, runs the life cycle of share links and applies the document
//! changes that must happen under such a decision. The persistent relations
//! are modelled by [`db::Database`]; every operation takes the store it works
//! on, the current time and the identifiers of new rows as arguments.

pub mod config;
pub mod db;
pub mod error;
pub mod handlers;
pub mod middleware;
pub mod models;
pub mod services;
pub mod text;
pub mod utils;
