//! Domain types and rules, free of I/O and framework types.
pub mod category;
pub mod pagination;
pub mod post;
