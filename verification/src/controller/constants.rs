//! Configuration read at start-up.
use vstd::prelude::*;

verus! {

/// The configuration read at start-up: the secret passwords are encrypted with.
#[derive(Debug, Clone, PartialEq)]
pub struct Config {
    pub magic_key: String,
}

} // verus!
