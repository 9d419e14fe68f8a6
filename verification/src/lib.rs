//! Password-based authenticated encryption of byte payloads.
//!
//! A payload is sealed under a password into an [`Encrypted`] artifact: a
//! fresh 16-byte salt and an opaque token. The key is derived from the
//! password and the salt with PBKDF2-HMAC-SHA512; the token is a Fernet
//! token made under that key. Opening an artifact derives the key again from
//! the stored salt and has the token authenticated and decrypted.
//!
//! The cryptographic primitives are those of the `pbkdf2`, `sha2`, `base64`,
//! `fernet` and `rand` crates. Each is reached through one small function
//! whose contract is believed, not proved; every such function says so in
//! its documentation. Everything else is verified against those contracts.

pub mod params;
pub mod error;
pub mod kdf;
pub mod engine;
pub mod artifact;
pub mod encrypter;

pub use artifact::Encrypted;
pub use encrypter::{seal_with, BytesEncrypter, Encryptable};
pub use error::EncryptionError;
pub use kdf::{derive_key, Key};
