//! Authenticated encryption with associated data.

use vstd::prelude::*;

use crate::error::TinkError;

verus! {

/// A primitive that encrypts and authenticates.
///
/// `spec_open` says what decrypting gives; `encrypt` produces only
/// ciphertexts that decrypt to the plaintext it was given.
pub trait Aead {
    /// The plaintext that `ct` decrypts to under `aad`, or `None` when it does
    /// not authenticate.
    spec fn spec_open(&self, ct: Seq<u8>, aad: Seq<u8>) -> Option<Seq<u8>>;

    /// Whether inputs of these lengths are within what the primitive encrypts.
    spec fn spec_accepts(&self, pt_len: nat, aad_len: nat) -> bool;

    /// Encrypts `pt` with `aad` as associated data.
    fn encrypt(&self, pt: &[u8], aad: &[u8]) -> (r: Result<Vec<u8>, TinkError>)
        ensures
            self.spec_accepts(pt@.len(), aad@.len()) ==> r is Ok,
            r matches Ok(ct) ==> self.spec_open(ct@, aad@) == Some(pt@),
    ;

    /// Decrypts `ct` with `aad` as associated data.
    fn decrypt(&self, ct: &[u8], aad: &[u8]) -> (r: Result<Vec<u8>, TinkError>)
        ensures
            match self.spec_open(ct@, aad@) {
                Some(pt) => r matches Ok(p) && p@ == pt,
                None => r is Err,
            },
    ;
}

} // verus!
