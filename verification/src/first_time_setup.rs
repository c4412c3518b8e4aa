//! The secret that sets up the key passphrases of a new session.

use vstd::prelude::*;

verus! {

/// What the key passphrases of a new session are derived from: a passphrase
/// given as bytes, or the user's password.
#[derive(Debug)]
pub enum FirstTimeSetupKey {
    Passphrase(Vec<u8>),
    UserPassword(String),
}

} // verus!
