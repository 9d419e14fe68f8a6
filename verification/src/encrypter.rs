//! Sealing bytes under a password, and opening what was sealed.

use vstd::prelude::*;
use crate::artifact::Encrypted;
use crate::engine;
use crate::engine::is_url_safe;
use crate::error::EncryptionError;
use crate::kdf::derive_key;

verus! {

/// The error of the `rand` crate's generators.
#[verifier::external_type_specification]
#[verifier::external_body]
pub struct ExRandError(rand::Error);

/// Calls `try_fill_bytes` of `rand::rngs::OsRng` on a 16-byte buffer and
/// returns the buffer, or the generator's error. Nothing is claimed of the
/// bytes: they are what the operating system's random source gave.
#[verifier::external_body]
fn draw_salt() -> (drawn: Result<[u8; 16], rand::Error>) {
    let mut salt = [0u8; 16];
    match rand::RngCore::try_fill_bytes(&mut rand::rngs::OsRng, &mut salt) {
        Ok(()) => Ok(salt),
        Err(e) => Err(e),
    }
}

/// Seals `data` under `password` with the salt that was drawn, or reports
/// that none could be drawn.
///
/// With a salt the artifact is owed: it has that salt, and its token is
/// printable text that holds exactly `data` under the key that belongs to
/// the password and the salt.
pub fn seal_with(drawn: Result<[u8; 16], rand::Error>, data: &[u8], password: &str) -> (result: Result<Encrypted, EncryptionError>)
    ensures
        drawn matches Ok(salt) ==> (result matches Ok(sealed) && sealed@.salt == salt@
            && sealed.seals(data@, password@) && is_url_safe(sealed@.token)),
        drawn is Err ==> result == Err::<Encrypted, EncryptionError>(
            EncryptionError::SecureRandomUnavailable,
        ),
{
    match drawn {
        Ok(salt) => {
            let key = derive_key(password.as_bytes(), &salt);
            let token = engine::encrypt(&key, data);
            Ok(Encrypted::with_salt(salt, token))
        },
        Err(_) => Err(EncryptionError::SecureRandomUnavailable),
    }
}

/// Encrypts and decrypts values of type `T` under a password.
///
/// An implementation says which bytes stand for a value, and seals and
/// opens those.
pub trait Encryptable<T> {
    /// The bytes that stand for a value.
    spec fn payload(data: &T) -> Seq<u8>;

    /// Encrypts `data` under `password`. The artifact returned holds the
    /// bytes that stand for `data`, sealed under `password`.
    fn encrypt(data: &T, password: &str) -> (result: Result<Encrypted, EncryptionError>)
        ensures
            result matches Ok(sealed) ==> sealed.seals(Self::payload(data), password@),
    ;

    /// Decrypts `data` under `password`. A value is returned only if the
    /// artifact holds the bytes that stand for it, sealed under `password`.
    fn decrypt(data: &Encrypted, password: &str) -> (result: Result<T, EncryptionError>)
        ensures
            result matches Ok(value) ==> data.seals(Self::payload(&value), password@),
    ;
}

/// Encrypts a `Vec<u8>` to an [`Encrypted`] and back. To encrypt a
/// structured value, turn it into bytes first.
///
/// The key is PBKDF2-HMAC-SHA512 of the password, with 480,000 rounds and a
/// salt of 16 random bytes; the token is a Fernet token under that key.
pub struct BytesEncrypter;

impl Encryptable<Vec<u8>> for BytesEncrypter {
    open spec fn payload(data: &Vec<u8>) -> Seq<u8> {
        data@
    }

    /// Seals `data` under `password` with a salt freshly drawn from the
    /// operating system's random source. It fails only where that source
    /// does.
    fn encrypt(data: &Vec<u8>, password: &str) -> (result: Result<Encrypted, EncryptionError>)
        ensures
            result matches Ok(sealed) ==> is_url_safe(sealed@.token),
            result matches Err(e) ==> e == EncryptionError::SecureRandomUnavailable,
    {
        seal_with(draw_salt(), data.as_slice(), password)
    }

    /// Opens `data` under `password`: derives the key from the password and
    /// the artifact's salt and has the token decrypted. The artifact is not
    /// changed. An artifact that holds nothing under `password` is refused.
    fn decrypt(data: &Encrypted, password: &str) -> (result: Result<Vec<u8>, EncryptionError>)
        ensures
            result matches Err(e) ==> e == EncryptionError::DecryptionFailed,
            data.payload_under(password@) is None ==> result is Err,
    {
        let key = derive_key(password.as_bytes(), data.salt());
        engine::decrypt(&key, data.token())
    }
}

/// Round trip: whatever opens from an artifact, under the password that
/// sealed a plaintext in it, is that plaintext.
pub proof fn lemma_opens_to_what_was_sealed(
    sealed: Encrypted,
    plaintext: Seq<u8>,
    password: Seq<char>,
    opened: Seq<u8>,
)
    requires
        sealed.seals(plaintext, password),
        sealed.seals(opened, password),
    ensures
        opened == plaintext,
{
}

} // verus!
