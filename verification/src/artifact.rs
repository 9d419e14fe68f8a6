//! The artifact that sealing produces: a salt and a token.

use vstd::prelude::*;
use crate::engine::{fernet_payload, url_safe_base64};
use crate::error::EncryptionError;
use crate::kdf::derived_key;
use crate::params::SALT_LEN;

verus! {

/// What an artifact holds, as mathematical values.
pub struct EncryptedView {
    /// The salt: always sixteen bytes.
    pub salt: Seq<u8>,
    /// The token, as text.
    pub token: Seq<char>,
}

/// The encrypted form of some bytes: the salt that the key was derived with
/// and the token that carries the bytes. An artifact is never changed after
/// it is made; it may be opened any number of times.
pub struct Encrypted {
    salt: [u8; 16],
    token: String,
}

impl View for Encrypted {
    type V = EncryptedView;

    closed spec fn view(&self) -> EncryptedView {
        EncryptedView { salt: self.salt@, token: self.token@ }
    }
}

impl Encrypted {
    /// The bytes that the token of this artifact carries under the key that
    /// belongs to `password` and the artifact's salt, if it carries any.
    pub open spec fn payload_under(&self, password: Seq<char>) -> Option<Seq<u8>> {
        fernet_payload(
            url_safe_base64(derived_key(vstd::utf8::encode_utf8(password), self@.salt)),
            self@.token,
        )
    }

    /// Whether this artifact holds exactly `plaintext`, sealed under
    /// `password`.
    pub open spec fn seals(&self, plaintext: Seq<u8>, password: Seq<char>) -> bool {
        self.payload_under(password) == Some(plaintext)
    }

    /// The salt of every artifact is sixteen bytes long.
    pub proof fn lemma_salt_len(self)
        ensures
            self@.salt.len() == SALT_LEN,
    {
    }

    /// Puts an artifact together from a salt and a token that were taken
    /// from one before, for a caller that stored or sent them. A salt that
    /// is not sixteen bytes long is refused.
    pub fn from_parts(salt: &[u8], token: String) -> (result: Result<Encrypted, EncryptionError>)
        ensures
            salt@.len() == SALT_LEN ==> (result matches Ok(artifact) && artifact@.salt == salt@
                && artifact@.token == token@),
            salt@.len() != SALT_LEN ==> result == Err::<Encrypted, EncryptionError>(
                EncryptionError::InvalidSaltLength,
            ),
    {
        if salt.len() != SALT_LEN {
            return Err(EncryptionError::InvalidSaltLength);
        }
        let mut copy = [0u8; 16];
        let mut i: usize = 0;
        while i < SALT_LEN
            invariant
                i <= SALT_LEN,
                salt@.len() == SALT_LEN,
                forall|j: int| 0 <= j < i ==> copy@[j] == salt@[j],
            decreases SALT_LEN - i,
        {
            copy[i] = salt[i];
            i += 1;
        }
        assert(copy@ =~= salt@);
        Ok(Encrypted::with_salt(copy, token))
    }

    /// An artifact of a salt and a token.
    pub(crate) fn with_salt(salt: [u8; 16], token: String) -> (artifact: Encrypted)
        ensures
            artifact@.salt == salt@,
            artifact@.token == token@,
    {
        Encrypted { salt, token }
    }

    /// The salt.
    pub fn salt(&self) -> (salt: &[u8; 16])
        ensures
            salt@ == self@.salt,
    {
        &self.salt
    }

    /// The token.
    pub fn token(&self) -> (token: &str)
        ensures
            token@ == self@.token,
    {
        self.token.as_str()
    }
}

} // verus!
