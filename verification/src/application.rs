//! Use cases: the decisions the services take between their repository calls.
pub mod auth_service;
pub mod categories_service;
pub mod ports;
pub mod posts_service;
