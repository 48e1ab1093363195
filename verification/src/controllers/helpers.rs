//! Helpers shared by the page controllers.
pub mod pagination_logic;
