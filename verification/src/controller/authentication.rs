//! Login pages checked against encrypted passwords.
pub mod login;
