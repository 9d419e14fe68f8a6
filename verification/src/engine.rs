//! The authenticated encryption engine: Fernet tokens under a 32-byte key.
//!
//! A token is opaque text. It is made and read by the `fernet` crate alone;
//! nothing here looks inside one.

use vstd::prelude::*;
use crate::error::EncryptionError;
use crate::kdf::Key;
use crate::params::KEY_LEN;

verus! {

/// The text that `base64::Engine::encode` of
/// `base64::engine::general_purpose::URL_SAFE` gives for these bytes: their
/// base64 encoding in the URL-safe alphabet, with padding.
pub uninterp spec fn url_safe_base64(bytes: Seq<u8>) -> Seq<char>;

/// The bytes that a token carries under a key, where the key is given as
/// text. It is `Some` exactly for the tokens that are well formed and
/// authentic under the key, and then holds what
/// `fernet::Fernet::decrypt` hands out for such a token. It depends on the
/// key and the token alone, not on the time of day.
pub uninterp spec fn fernet_payload(key_text: Seq<char>, token: Seq<char>) -> Option<Seq<u8>>;

/// Whether a text is the encoding of some 32-byte key.
pub open spec fn is_key_text(text: Seq<char>) -> bool {
    exists|raw: Seq<u8>| raw.len() == KEY_LEN && text == #[trigger] url_safe_base64(raw)
}

/// Whether a character is one that a token is written in: a letter or a
/// digit of ASCII, `-`, `_`, or the padding `=`.
pub open spec fn is_url_safe_char(c: char) -> bool {
    ('A' <= c && c <= 'Z') || ('a' <= c && c <= 'z') || ('0' <= c && c <= '9') || c == '-'
        || c == '_' || c == '='
}

/// Whether a text is printable and safe in a URL throughout.
pub open spec fn is_url_safe(text: Seq<char>) -> bool {
    forall|i: int| 0 <= i < text.len() ==> is_url_safe_char(#[trigger] text[i])
}

/// Whether `token` carries exactly `plaintext` under the key with the raw
/// bytes `key`.
pub open spec fn token_holds(key: Seq<u8>, token: Seq<char>, plaintext: Seq<u8>) -> bool {
    fernet_payload(url_safe_base64(key), token) == Some(plaintext)
}

/// Calls `encode` of the `base64` crate's `URL_SAFE` engine on the 32 bytes
/// of a key. Believed, not proved: the text returned is that encoding.
#[verifier::external_body]
fn encode_key(raw: &[u8; 32]) -> (text: String)
    ensures
        text@ == url_safe_base64(raw@),
{
    base64::Engine::encode(&base64::engine::general_purpose::URL_SAFE, raw)
}

/// Calls `fernet::Fernet::new` on the key text and `encrypt` on what it
/// returns. Believed, not proved: `new` accepts the encoding of any 32
/// bytes; the token that `encrypt` makes carries `data` under that key,
/// whatever time and initialisation vector went into it; and the token is
/// base64 text in the URL-safe alphabet. `encrypt` panics where the
/// operating system gives no random bytes or the clock stands before 1970.
#[verifier::external_body]
fn fernet_encrypt(key_text: &str, data: &[u8]) -> (token: String)
    requires
        is_key_text(key_text@),
    ensures
        fernet_payload(key_text@, token@) == Some(data@),
        is_url_safe(token@),
{
    fernet::Fernet::new(key_text).unwrap().encrypt(data)
}

/// Calls `fernet::Fernet::new` on the key text and `decrypt` on what it
/// returns. Believed, not proved: `new` accepts the encoding of any 32
/// bytes, and where `decrypt` returns bytes, they are what the token carries
/// under that key. It may refuse a token that does carry bytes: one stamped
/// more than a minute ahead of the clock. `decrypt` panics where the clock
/// stands before 1970.
#[verifier::external_body]
fn fernet_decrypt(key_text: &str, token: &str) -> (outcome: Result<Vec<u8>, fernet::DecryptionError>)
    requires
        is_key_text(key_text@),
    ensures
        outcome matches Ok(bytes) ==> fernet_payload(key_text@, token@) == Some(bytes@),
{
    fernet::Fernet::new(key_text).unwrap().decrypt(token)
}

/// The error of `fernet::Fernet::decrypt`. It tells nothing of the cause.
#[verifier::external_type_specification]
#[verifier::external_body]
pub struct ExDecryptionError(fernet::DecryptionError);

/// The text form of a key, as the engine takes it.
fn key_text(key: &Key) -> (text: String)
    ensures
        text@ == url_safe_base64(key@),
        is_key_text(text@),
{
    let text = encode_key(key.as_bytes());
    proof {
        key.lemma_len();
    }
    text
}

/// Encrypts `plaintext` under `key` into a fresh token.
///
/// Two calls with the same arguments give different tokens: each token has
/// its own initialisation vector and time stamp. What every such token has
/// in common is stated: it carries exactly `plaintext` under `key`, and it
/// is printable text that is safe in a URL.
pub fn encrypt(key: &Key, plaintext: &[u8]) -> (token: String)
    ensures
        token_holds(key@, token@, plaintext@),
        is_url_safe(token@),
{
    let text = key_text(key);
    fernet_encrypt(text.as_str(), plaintext)
}

/// What the library returns for an outcome of the engine's decryption: the
/// bytes unchanged, or the one error that stands for every refusal.
pub fn plaintext_or_failure(outcome: Result<Vec<u8>, fernet::DecryptionError>) -> (result: Result<Vec<u8>, EncryptionError>)
    ensures
        outcome matches Ok(bytes) ==> result == Ok::<Vec<u8>, EncryptionError>(bytes),
        outcome is Err ==> result == Err::<Vec<u8>, EncryptionError>(EncryptionError::DecryptionFailed),
{
    match outcome {
        Ok(bytes) => Ok(bytes),
        Err(_) => Err(EncryptionError::DecryptionFailed),
    }
}

/// Decrypts `token` under `key`.
///
/// Bytes are returned only if the token carries them under `key`, and then
/// all of them, unchanged. A token that carries nothing under `key` (a
/// wrong key, an altered token, text that is no token) is refused, always
/// with the same error.
pub fn decrypt(key: &Key, token: &str) -> (result: Result<Vec<u8>, EncryptionError>)
    ensures
        result matches Ok(plaintext) ==> token_holds(key@, token@, plaintext@),
        result matches Err(e) ==> e == EncryptionError::DecryptionFailed,
        fernet_payload(url_safe_base64(key@), token@) is None ==> result is Err,
{
    let text = key_text(key);
    plaintext_or_failure(fernet_decrypt(text.as_str(), token))
}

} // verus!
