//! HMAC-SHA256 authentication codes.

use hmac::Mac as _;
use vstd::prelude::*;

use crate::error::TinkError;

verus! {

/// Length of an HMAC-SHA256 tag.
pub const HMAC_SHA256_TAG_SIZE: usize = 32;

/// The shortest key this library accepts for HMAC-SHA256.
pub const HMAC_MIN_KEY_SIZE: usize = 16;

/// The HMAC-SHA256 tag of `data` under `key`.
pub uninterp spec fn hmac_sha256_of(key: Seq<u8>, data: Seq<u8>) -> Seq<u8>;

/// Relies on `Mac::new_from_slice`, `Mac::update` and `Mac::finalize` of
/// `Hmac<Sha256>` (hmac, sha2): HMAC takes keys of any length, and the tag has
/// 32 bytes and depends on the key and the data alone.
#[verifier::external_body]
fn hmac_sha256(key: &[u8], data: &[u8]) -> (r: Result<Vec<u8>, hmac::digest::InvalidLength>)
    ensures
        r is Ok,
        r matches Ok(t) ==> t@ == hmac_sha256_of(key@, data@) && t@.len() == HMAC_SHA256_TAG_SIZE,
{
    let mac = <hmac::Hmac<sha2::Sha256> as hmac::Mac>::new_from_slice(key)?;
    Ok(mac.chain_update(data).finalize().into_bytes().to_vec())
}

/// Relies on `Mac::verify_slice` of `Hmac<Sha256>` (hmac, sha2): it compares, in
/// constant time, `tag` with the whole tag of `data` under `key`.
#[verifier::external_body]
fn hmac_sha256_matches(key: &[u8], data: &[u8], tag: &[u8]) -> (r: Result<bool, hmac::digest::InvalidLength>)
    ensures
        r is Ok,
        r matches Ok(b) ==> b == (tag@ == hmac_sha256_of(key@, data@)),
{
    let mac = <hmac::Hmac<sha2::Sha256> as hmac::Mac>::new_from_slice(key)?;
    Ok(mac.chain_update(data).verify_slice(tag).is_ok())
}

#[verifier::external_type_specification]
#[verifier::external_body]
pub struct ExInvalidLength(hmac::digest::InvalidLength);

/// HMAC-SHA256 with a key of at least 16 bytes and full 32-byte tags.
pub struct HmacSha256 {
    key: Vec<u8>,
}

impl View for HmacSha256 {
    type V = Seq<u8>;

    /// The HMAC key.
    closed spec fn view(&self) -> Seq<u8> {
        self.key@
    }
}

impl HmacSha256 {
    #[verifier::type_invariant]
    spec fn inv(self) -> bool {
        self.key@.len() >= HMAC_MIN_KEY_SIZE
    }

    /// An HMAC-SHA256 instance with this key; `InvalidKey` when the key is
    /// shorter than 16 bytes.
    pub fn new(key: &[u8]) -> (r: Result<HmacSha256, TinkError>)
        ensures
            r is Ok <==> key@.len() >= HMAC_MIN_KEY_SIZE,
            r matches Ok(m) ==> m@ == key@,
            r matches Err(e) ==> e == TinkError::InvalidKey,
    {
        if key.len() < HMAC_MIN_KEY_SIZE {
            return Err(TinkError::InvalidKey);
        }
        Ok(HmacSha256 { key: vstd::slice::slice_to_vec(key) })
    }

    /// The tag of `data`.
    pub fn compute_mac(&self, data: &[u8]) -> (r: Vec<u8>)
        ensures
            r@ == hmac_sha256_of(self@, data@),
            r@.len() == HMAC_SHA256_TAG_SIZE,
    {
        match hmac_sha256(self.key.as_slice(), data) {
            Ok(t) => t,
            Err(_) => Vec::new(),
        }
    }

    /// Whether `tag` is the tag of `data`.
    pub fn verify_mac(&self, tag: &[u8], data: &[u8]) -> (r: bool)
        ensures
            r == (tag@ == hmac_sha256_of(self@, data@)),
    {
        match hmac_sha256_matches(self.key.as_slice(), data, tag) {
            Ok(b) => b,
            Err(_) => false,
        }
    }
}

} // verus!
