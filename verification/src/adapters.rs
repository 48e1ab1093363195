//! Adapters: the password cipher and the decisions of the HTTP handlers.
pub mod crypto;
pub mod http;
