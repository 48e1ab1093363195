//! Admin controllers.
pub mod category_controller;
