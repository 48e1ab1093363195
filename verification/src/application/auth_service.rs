//! Registration/authentication use cases.
use vstd::prelude::*;
use crate::application::ports::PasswordCipher;

verus! {

/// A username and the cipher text of its password: what the user store is
/// asked to keep on registration, or to match on authentication.
#[derive(Debug, Clone, PartialEq)]
pub struct HashedCredentials {
    pub username: String,
    pub password_hash: String,
}

/// The account that registering `username`/`password` stores.
pub fn register<C: PasswordCipher>(cipher: &C, username: &str, password: &str) -> (r:
    HashedCredentials)
    ensures
        r.username@ == username@,
        r.password_hash@ == cipher.spec_encrypt(password@),
{
    let password_hash = cipher.encrypt(password);
    HashedCredentials { username: String::from_str(username), password_hash }
}

/// The credentials that the user store must match for `username`/`password`
/// to authenticate.
pub fn authenticate<C: PasswordCipher>(cipher: &C, username: &str, password: &str) -> (r:
    HashedCredentials)
    ensures
        r.username@ == username@,
        r.password_hash@ == cipher.spec_encrypt(password@),
{
    let password_hash = cipher.encrypt(password);
    HashedCredentials { username: String::from_str(username), password_hash }
}

/// A user store, as the account a registration leaves in it: each username
/// maps to the password hash stored for it last.
pub open spec fn store_with(
    store: Map<Seq<char>, Seq<char>>,
    registered: HashedCredentials,
) -> Map<Seq<char>, Seq<char>> {
    store.insert(registered.username@, registered.password_hash@)
}

/// A user store matches presented credentials when it keeps exactly the
/// presented hash for the presented username.
pub open spec fn store_matches(
    store: Map<Seq<char>, Seq<char>>,
    presented: HashedCredentials,
) -> bool {
    store.contains_key(presented.username@) && store[presented.username@]
        == presented.password_hash@
}

/// With a cipher that maps distinct passwords to distinct texts, once
/// `username` has been registered with `password`, authenticating
/// `username` with `attempt` matches the store exactly when `attempt` is
/// `password`, whatever the store held before.
pub proof fn lemma_authenticate_after_register<C: PasswordCipher>(
    cipher: &C,
    store: Map<Seq<char>, Seq<char>>,
    username: Seq<char>,
    password: Seq<char>,
    attempt: Seq<char>,
    registered: HashedCredentials,
    presented: HashedCredentials,
)
    requires
        forall|a: Seq<char>, b: Seq<char>|
            #[trigger] cipher.spec_encrypt(a) == #[trigger] cipher.spec_encrypt(b) ==> a == b,
        registered.username@ == username,
        registered.password_hash@ == cipher.spec_encrypt(password),
        presented.username@ == username,
        presented.password_hash@ == cipher.spec_encrypt(attempt),
    ensures
        store_matches(store_with(store, registered), presented) <==> attempt == password,
{
}

} // verus!
