//! Key derivation: from a password and a salt to a 32-byte key.

use vstd::prelude::*;
use crate::params::{KEY_LEN, ROUNDS};

verus! {

/// The output of PBKDF2 with HMAC-SHA512 as its pseudo-random function:
/// the first `len` bytes derived from `password` and `salt` in `rounds`
/// rounds. The function is not written out here; it is the one that
/// `pbkdf2::pbkdf2_hmac::<sha2::Sha512>` computes.
pub uninterp spec fn pbkdf2_hmac_sha512(password: Seq<u8>, salt: Seq<u8>, rounds: u32, len: nat) -> Seq<u8>;

/// The key that belongs to a password and a salt.
pub open spec fn derived_key(password: Seq<u8>, salt: Seq<u8>) -> Seq<u8> {
    pbkdf2_hmac_sha512(password, salt, ROUNDS, KEY_LEN as nat)
}

/// A symmetric key: exactly 32 bytes, by construction.
pub struct Key {
    bytes: [u8; 32],
}

impl View for Key {
    type V = Seq<u8>;

    closed spec fn view(&self) -> Seq<u8> {
        self.bytes@
    }
}

impl Key {
    /// Makes a key of 32 raw bytes.
    pub fn from_bytes(bytes: [u8; 32]) -> (key: Key)
        ensures
            key@ == bytes@,
    {
        Key { bytes }
    }

    /// The 32 raw bytes of the key.
    pub fn as_bytes(&self) -> (bytes: &[u8; 32])
        ensures
            bytes@ == self@,
    {
        &self.bytes
    }

    /// Every key is 32 bytes long.
    pub proof fn lemma_len(self)
        ensures
            self@.len() == KEY_LEN,
    {
    }
}

/// Calls `pbkdf2::pbkdf2_hmac` with `sha2::Sha512` on a 32-byte buffer and
/// returns the buffer. Believed, not proved: the buffer then holds what
/// PBKDF2-HMAC-SHA512 derives from the password and the salt in that many
/// rounds. The call fails on no input: HMAC takes a key of any length.
#[verifier::external_body]
fn pbkdf2_hmac_sha512_key(password: &[u8], salt: &[u8], rounds: u32) -> (out: [u8; 32])
    ensures
        out@ == pbkdf2_hmac_sha512(password@, salt@, rounds, KEY_LEN as nat),
{
    let mut out = [0u8; 32];
    pbkdf2::pbkdf2_hmac::<sha2::Sha512>(password, salt, rounds, &mut out);
    out
}

/// Derives the key that belongs to `password` and `salt`.
///
/// The result depends on nothing but the two arguments, so the same
/// password and salt give the same key, whenever and wherever it is derived.
/// The derivation is slow on purpose.
pub fn derive_key(password: &[u8], salt: &[u8; 16]) -> (key: Key)
    ensures
        key@ == derived_key(password@, salt@),
        key@.len() == KEY_LEN,
{
    let out = pbkdf2_hmac_sha512_key(password, salt.as_slice(), ROUNDS);
    Key::from_bytes(out)
}

/// Derivation is deterministic: equal passwords and equal salts have equal
/// keys.
pub proof fn lemma_derivation_is_deterministic(
    password_a: Seq<u8>,
    salt_a: Seq<u8>,
    password_b: Seq<u8>,
    salt_b: Seq<u8>,
)
    requires
        password_a == password_b,
        salt_a == salt_b,
    ensures
        derived_key(password_a, salt_a) == derived_key(password_b, salt_b),
{
}

} // verus!
