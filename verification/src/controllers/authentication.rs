//! The login and registration pages, with Argon2 password hashes.
pub mod password_hashing;
pub mod register;
pub mod session;
