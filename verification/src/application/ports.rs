//! Ports that the application core computes through.
//!
//! The repositories are asynchronous and stay with the HTTP layer; the
//! password cipher computes, so it is a port of the core.
use vstd::prelude::*;

verus! {

/// Turns a plain password into the text that the user store keeps.
pub trait PasswordCipher {
    /// The text that `encrypt` gives for `plain`.
    spec fn spec_encrypt(&self, plain: Seq<char>) -> Seq<char>;

    fn encrypt(&self, plain: &str) -> (r: String)
        ensures
            r@ == self.spec_encrypt(plain@),
    ;
}

} // verus!
