//! Decoding and decrypting OpenSSH private keys with the `ssh_key` crate.

use vstd::prelude::*;
use ssh_key::PrivateKey;

verus! {

/// The outside type of a parsed OpenSSH private key, possibly still
/// encrypted. Verus sees nothing inside it; it is carried through.
#[verifier::external_type_specification]
#[verifier::external_body]
pub struct ExPrivateKey(ssh_key::PrivateKey);

/// The error type of the `ssh_key` crate.
#[verifier::external_type_specification]
#[verifier::external_body]
pub struct ExSshKeyError(ssh_key::Error);

/// A parsed OpenSSH private key together with whether it is encrypted.
/// It also keeps the text it was decoded from and a copy of the key as it
/// was decoded, so that the key can be traced to its text; only the
/// decoding functions of this module can make one.
#[derive(Debug)]
pub struct OpensshKey {
    pub key: PrivateKey,
    pub encrypted: bool,
    source: String,
    decoded: PrivateKey,
}

impl OpensshKey {
    /// The OpenSSH text that this key was decoded from.
    pub closed spec fn source_text(&self) -> Seq<char> {
        self.source@
    }

    /// The key as it was decoded from `source_text`.
    pub closed spec fn source_key(&self) -> PrivateKey {
        self.decoded
    }

    /// Whether the key is encrypted.
    pub closed spec fn spec_encrypted(&self) -> bool {
        self.encrypted
    }

    /// The key held.
    pub closed spec fn spec_key(&self) -> PrivateKey {
        self.key
    }

    /// This holds the key decoded from `text`, unchanged.
    pub open spec fn decoded_from(&self, text: Seq<char>) -> bool {
        self.source_text() == text && self.spec_key() == self.source_key()
    }

    /// Whether the key is encrypted.
    pub fn is_encrypted(&self) -> (r: bool)
        ensures
            r == self.spec_encrypted(),
    {
        self.encrypted
    }
}

/// Whether `PrivateKey::from_openssh` accepts a text with these characters.
pub uninterp spec fn openssh_private_key_parses(text: Seq<char>) -> bool;

/// Whether `PrivateKey::is_encrypted` holds of the key that
/// `PrivateKey::from_openssh` decodes from a text with these characters.
pub uninterp spec fn openssh_private_key_encrypted(text: Seq<char>) -> bool;

/// Whether `PrivateKey::decrypt` with this passphrase succeeds on the key
/// that `PrivateKey::from_openssh` decodes from a text with these characters.
pub uninterp spec fn openssh_private_key_decrypts(text: Seq<char>, passphrase: Seq<char>) -> bool;

/// Calls `ssh_key::PrivateKey::from_openssh`, which decodes the PEM text of
/// an OpenSSH private key, and `is_encrypted` on the key it decodes. Both
/// depend on the text alone: the contract names when the text decodes and
/// whether the key is encrypted, and states that the key is the one decoded
/// from this text (it keeps the text and a clone of the key, which the
/// derived `Clone` of `PrivateKey` makes equal to it). What else the key
/// holds is not stated.
#[verifier::external_body]
pub(crate) fn parse_openssh_private_key(text: &str) -> (r: Result<OpensshKey, ssh_key::Error>)
    ensures
        r is Ok <==> openssh_private_key_parses(text@),
        r matches Ok(k) ==> k.spec_encrypted() == openssh_private_key_encrypted(text@),
        r matches Ok(k) ==> k.decoded_from(text@),
{
    match PrivateKey::from_openssh(text) {
        Ok(key) => {
            let encrypted = key.is_encrypted();
            let decoded = key.clone();
            Ok(OpensshKey { key, encrypted, source: text.to_owned(), decoded })
        },
        Err(e) => Err(e),
    }
}

/// Decodes `text` with `ssh_key::PrivateKey::from_openssh` and calls
/// `decrypt` with the passphrase on the key, then `is_encrypted` on the
/// result. The contract names when this succeeds, states that a decrypted
/// key is not encrypted (`decrypt` builds the key from the decrypted key
/// data with no cipher), and that the key is the one obtained from this
/// text. What else the key holds is not stated.
#[verifier::external_body]
pub(crate) fn decrypt_openssh_private_key(text: &str, passphrase: &str) -> (r: Result<OpensshKey, ssh_key::Error>)
    ensures
        r is Ok <==> (openssh_private_key_parses(text@) && openssh_private_key_decrypts(
            text@,
            passphrase@,
        )),
        r matches Ok(k) ==> !k.spec_encrypted(),
        r matches Ok(k) ==> k.decoded_from(text@),
{
    match PrivateKey::from_openssh(text) {
        Ok(key) => match key.decrypt(passphrase) {
            Ok(decrypted) => {
                let encrypted = decrypted.is_encrypted();
                let decoded = decrypted.clone();
                Ok(OpensshKey { key: decrypted, encrypted, source: text.to_owned(), decoded })
            },
            Err(e) => Err(e),
        },
        Err(e) => Err(e),
    }
}

} // verus!
