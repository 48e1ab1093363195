//! Page controllers built on shared pagination helpers: their decisions
//! between the database calls, and the helpers.
pub mod admin;
pub mod authentication;
pub mod guests;
pub mod helpers;
