//! The decisions of the HTTP handlers, apart from their I/O.
pub mod api;
pub mod auth;
pub mod auth_guard;
pub mod categories_admin;
pub mod flash;
pub mod listing;
pub mod posts_admin;
pub mod posts_guest;
