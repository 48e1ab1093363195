//! The guest pages.
pub mod posts;
