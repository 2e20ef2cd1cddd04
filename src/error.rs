//! The errors of the library.

use vstd::prelude::*;

verus! {

/// What went wrong in an operation of the library.
///
/// Decryption and verification report only `AuthenticationFailure`, whatever
/// the reason, so that a failure tells an adversary nothing about the keys.
#[derive(Clone, Copy, Debug, PartialEq, Eq, Structural)]
pub enum TinkError {
    /// A type URL was registered again with a manager that behaves differently.
    Conflict,
    /// A type URL or key id that an operation names is unknown.
    NotFound,
    /// Key bytes were rejected: wrong size, bad version or a disallowed parameter.
    InvalidKey,
    /// Parameters for generating a key, or a keyset, are malformed.
    InvalidFormat,
    /// The operation would leave the keyset without a usable primary key.
    InvalidState,
    /// Turning the key with this id into a primitive failed.
    KeyRejected(u32),
    /// The ciphertext, tag or signature does not authenticate.
    AuthenticationFailure,
    /// A plaintext or associated data is longer than the cipher accepts.
    TooLong,
}

} // verus!
