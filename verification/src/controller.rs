//! Page controllers that compute their page counts inline: their pagination
//! bars and the decisions they take between their database calls.
#[allow(non_snake_case)]
pub mod General_pagination;
pub mod admin;
pub mod admin_function;
pub mod admin_pagination;
pub mod authentication;
pub mod category_controller;
pub mod common_controller;
pub mod constants;
pub mod pagination_controller;
pub mod pagination_logic;
pub mod posts_controller;
