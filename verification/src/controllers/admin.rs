//! The admin pages.
pub mod categories_controller;
pub mod posts_controller;
