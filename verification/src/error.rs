//! The failures that the library reports.

use vstd::prelude::*;

verus! {

/// Why an operation of this library failed.
#[derive(Clone, Copy, Debug, PartialEq, Eq, Structural)]
pub enum EncryptionError {
    /// The operating system's random source could not be read, so no salt
    /// could be drawn. Nothing is retried.
    SecureRandomUnavailable,
    /// The token was not accepted under the derived key: the password is
    /// wrong, the token was altered, or it is no token at all. Which of
    /// these happened is deliberately not told.
    DecryptionFailed,
    /// A salt was given that is not exactly sixteen bytes long.
    InvalidSaltLength,
}

impl EncryptionError {
    /// A short description, for people.
    pub fn message(&self) -> (text: &'static str)
        ensures
            text@ == (match *self {
                EncryptionError::SecureRandomUnavailable => "secure random source unavailable"@,
                EncryptionError::DecryptionFailed => "decryption failed"@,
                EncryptionError::InvalidSaltLength => "salt must be 16 bytes long"@,
            }),
    {
        match self {
            EncryptionError::SecureRandomUnavailable => "secure random source unavailable",
            EncryptionError::DecryptionFailed => "decryption failed",
            EncryptionError::InvalidSaltLength => "salt must be 16 bytes long",
        }
    }
}

} // verus!
