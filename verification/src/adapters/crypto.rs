//! `magic-crypt`-backed adapter implementing the [`PasswordCipher`] port.
use vstd::prelude::*;
use magic_crypt::{MagicCrypt256, MagicCryptTrait};
use crate::application::ports::PasswordCipher;

verus! {

/// The Base64 text of the AES-256-CBC encryption of `plain` under the key
/// that `magic-crypt` derives from `secret`, with no initialisation vector.
pub uninterp spec fn magic_crypt256_base64(secret: Seq<char>, plain: Seq<char>) -> Seq<char>;

/// Calls `MagicCrypt256::new(secret, None)` and then
/// `MagicCryptTrait::encrypt_str_to_base64(plain)`. The key is the SHA-256 of
/// the secret and the IV is zero, so the result is a function of the two
/// texts alone; the contract names it and says nothing more.
#[verifier::external_body]
fn encrypt_str_to_base64(secret: &str, plain: &str) -> (r: String)
    ensures
        r@ == magic_crypt256_base64(secret@, plain@),
{
    MagicCrypt256::new(secret, None::<String>).encrypt_str_to_base64(plain)
}

/// `magic-crypt`-backed adapter implementing the [`PasswordCipher`] port.
#[derive(Clone)]
pub struct MagicCryptCipher {
    secret: String,
}

impl MagicCryptCipher {
    /// The secret that the key is derived from.
    pub closed spec fn secret(&self) -> Seq<char> {
        self.secret@
    }

    pub fn new(secret: &str) -> (r: Self)
        ensures
            r.secret() == secret@,
    {
        MagicCryptCipher { secret: String::from_str(secret) }
    }
}

/// A cipher made from `secret` turns each password into magic-crypt's
/// encryption of that password under the key derived from `secret`: the
/// password is what is encrypted and the secret is the key material, never
/// the other way round, and the secret is the one the cipher was made with.
pub proof fn lemma_cipher_encrypts_under_its_secret(
    cipher: MagicCryptCipher,
    secret: Seq<char>,
    password: Seq<char>,
)
    requires
        cipher.secret() == secret,
    ensures
        cipher.spec_encrypt(password) == magic_crypt256_base64(secret, password),
{
}

impl PasswordCipher for MagicCryptCipher {
    open spec fn spec_encrypt(&self, plain: Seq<char>) -> Seq<char> {
        magic_crypt256_base64(self.secret(), plain)
    }

    fn encrypt(&self, plain: &str) -> (r: String) {
        encrypt_str_to_base64(self.secret.as_str(), plain)
    }
}

} // verus!
