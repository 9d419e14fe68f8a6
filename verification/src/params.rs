//! The fixed parameters of the scheme.
//!
//! An artifact can only be opened with the parameters it was sealed with, so
//! they are defined once, here, and nowhere repeated.

use vstd::prelude::*;

verus! {

/// Length of the salt of an artifact, in bytes.
pub const SALT_LEN: usize = 16;

/// Length of a derived key, in bytes.
pub const KEY_LEN: usize = 32;

/// Number of PBKDF2 rounds spent on each derivation.
pub const ROUNDS: u32 = 480_000;

} // verus!
