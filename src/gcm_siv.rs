//! AES-GCM-SIV based implementation of the [`Aead`] trait.

use aes_gcm_siv::aead::rand_core::RngCore;
use aes_gcm_siv::aead::{Aead as _, AeadCore, KeyInit, OsRng, Payload};
use aes_gcm_siv::aead::generic_array::GenericArray;
use vstd::prelude::*;

use crate::aead::Aead;
use crate::error::TinkError;

verus! {

/// The only IV size that this implementation supports.
pub const AES_GCM_SIV_NONCE_SIZE: usize = 12;

/// The only tag size that this implementation supports.
pub const AES_GCM_SIV_TAG_SIZE: usize = 16;

/// The longest plaintext, and the longest associated data, that AES-GCM-SIV
/// encrypts: 2^36 bytes.
pub const AES_GCM_SIV_MAX_INPUT: u64 = 0x10_0000_0000;

#[verifier::external_type_specification]
#[verifier::external_body]
pub struct ExAeadError(aes_gcm_siv::Error);

/// What AES-GCM-SIV decryption gives for a key, a nonce, a ciphertext with its
/// tag, and associated data: the plaintext, or `None` when the tag does not match.
pub uninterp spec fn gcm_siv_open(key: Seq<u8>, nonce: Seq<u8>, ct: Seq<u8>, aad: Seq<u8>) -> Option<Seq<u8>>;

/// Relies on `AesGcmSiv::<Aes128>::encrypt` of aes-gcm-siv: it fails only when the
/// plaintext or the associated data is longer than 2^36 bytes; the ciphertext is the
/// plaintext's length plus a 16-byte tag and decrypts to the plaintext under the same
/// key, nonce and associated data. It allocates the plaintext's length plus 16 bytes
/// first, which must not exceed `isize::MAX`.
#[verifier::external_body]
fn seal_128(key: &[u8], nonce: &[u8], pt: &[u8], aad: &[u8]) -> (r: Result<Vec<u8>, aes_gcm_siv::Error>)
    requires
        key@.len() == 16,
        nonce@.len() == AES_GCM_SIV_NONCE_SIZE,
        pt@.len() + AES_GCM_SIV_TAG_SIZE <= isize::MAX,
    ensures
        r is Ok <==> (pt@.len() <= AES_GCM_SIV_MAX_INPUT && aad@.len() <= AES_GCM_SIV_MAX_INPUT),
        r matches Ok(ct) ==> ct@.len() == pt@.len() + AES_GCM_SIV_TAG_SIZE
            && gcm_siv_open(key@, nonce@, ct@, aad@) == Some(pt@),
{
    let cipher = aes_gcm_siv::Aes128GcmSiv::new(GenericArray::from_slice(key));
    cipher.encrypt(GenericArray::from_slice(nonce), Payload { msg: pt, aad })
}

/// Relies on `AesGcmSiv::<Aes256>::encrypt` of aes-gcm-siv: it fails only when the
/// plaintext or the associated data is longer than 2^36 bytes; the ciphertext is the
/// plaintext's length plus a 16-byte tag and decrypts to the plaintext under the same
/// key, nonce and associated data. It allocates the plaintext's length plus 16 bytes
/// first, which must not exceed `isize::MAX`.
#[verifier::external_body]
fn seal_256(key: &[u8], nonce: &[u8], pt: &[u8], aad: &[u8]) -> (r: Result<Vec<u8>, aes_gcm_siv::Error>)
    requires
        key@.len() == 32,
        nonce@.len() == AES_GCM_SIV_NONCE_SIZE,
        pt@.len() + AES_GCM_SIV_TAG_SIZE <= isize::MAX,
    ensures
        r is Ok <==> (pt@.len() <= AES_GCM_SIV_MAX_INPUT && aad@.len() <= AES_GCM_SIV_MAX_INPUT),
        r matches Ok(ct) ==> ct@.len() == pt@.len() + AES_GCM_SIV_TAG_SIZE
            && gcm_siv_open(key@, nonce@, ct@, aad@) == Some(pt@),
{
    let cipher = aes_gcm_siv::Aes256GcmSiv::new(GenericArray::from_slice(key));
    cipher.encrypt(GenericArray::from_slice(nonce), Payload { msg: pt, aad })
}

/// Relies on `AesGcmSiv::<Aes128>::decrypt` of aes-gcm-siv, whose result depends on
/// its arguments alone; a plaintext it returns is the ciphertext without its 16-byte tag.
#[verifier::external_body]
fn open_128(key: &[u8], nonce: &[u8], ct: &[u8], aad: &[u8]) -> (r: Result<Vec<u8>, aes_gcm_siv::Error>)
    requires
        key@.len() == 16,
        nonce@.len() == AES_GCM_SIV_NONCE_SIZE,
    ensures
        match gcm_siv_open(key@, nonce@, ct@, aad@) {
            Some(pt) => r matches Ok(p) && p@ == pt,
            None => r is Err,
        },
        r matches Ok(p) ==> p@.len() + AES_GCM_SIV_TAG_SIZE == ct@.len(),
{
    let cipher = aes_gcm_siv::Aes128GcmSiv::new(GenericArray::from_slice(key));
    cipher.decrypt(GenericArray::from_slice(nonce), Payload { msg: ct, aad })
}

/// Relies on `AesGcmSiv::<Aes256>::decrypt` of aes-gcm-siv, whose result depends on
/// its arguments alone; a plaintext it returns is the ciphertext without its 16-byte tag.
#[verifier::external_body]
fn open_256(key: &[u8], nonce: &[u8], ct: &[u8], aad: &[u8]) -> (r: Result<Vec<u8>, aes_gcm_siv::Error>)
    requires
        key@.len() == 32,
        nonce@.len() == AES_GCM_SIV_NONCE_SIZE,
    ensures
        match gcm_siv_open(key@, nonce@, ct@, aad@) {
            Some(pt) => r matches Ok(p) && p@ == pt,
            None => r is Err,
        },
        r matches Ok(p) ==> p@.len() + AES_GCM_SIV_TAG_SIZE == ct@.len(),
{
    let cipher = aes_gcm_siv::Aes256GcmSiv::new(GenericArray::from_slice(key));
    cipher.decrypt(GenericArray::from_slice(nonce), Payload { msg: ct, aad })
}

/// Relies on `AeadCore::generate_nonce` with the operating system's generator:
/// a fresh random nonce of 12 bytes.
#[verifier::external_body]
fn new_iv() -> (r: Vec<u8>)
    ensures
        r@.len() == AES_GCM_SIV_NONCE_SIZE,
{
    aes_gcm_siv::Aes128GcmSiv::generate_nonce(&mut OsRng).to_vec()
}

/// Relies on `KeyInit::generate_key` of `AesGcmSiv::<Aes128>`: 16 random bytes.
#[verifier::external_body]
pub(crate) fn generate_key_128() -> (r: Vec<u8>)
    ensures
        r@.len() == 16,
{
    aes_gcm_siv::Aes128GcmSiv::generate_key(&mut OsRng).to_vec()
}

/// Relies on `KeyInit::generate_key` of `AesGcmSiv::<Aes256>`: 32 random bytes.
#[verifier::external_body]
pub(crate) fn generate_key_256() -> (r: Vec<u8>)
    ensures
        r@.len() == 32,
{
    aes_gcm_siv::Aes256GcmSiv::generate_key(&mut OsRng).to_vec()
}

/// Relies on `RngCore::fill_bytes` of the operating system's generator:
/// `n` random bytes.
#[verifier::external_body]
pub(crate) fn random_bytes(n: usize) -> (r: Vec<u8>)
    ensures
        r@.len() == n,
{
    let mut b = vec![0u8; n];
    OsRng.fill_bytes(&mut b);
    b
}

/// Relies on `RngCore::next_u32` of the operating system's generator: any `u32`.
#[verifier::external_body]
pub(crate) fn random_u32() -> (r: u32) {
    OsRng.next_u32()
}

/// AES-GCM-SIV with a 16-byte (AES-128) or a 32-byte (AES-256) key.
pub struct AesGcmSiv {
    key: Vec<u8>,
}

impl Clone for AesGcmSiv {
    fn clone(&self) -> (r: Self)
        ensures
            r@ == self@,
    {
        proof {
            use_type_invariant(self);
        }
        AesGcmSiv { key: vstd::slice::slice_to_vec(self.key.as_slice()) }
    }
}

impl View for AesGcmSiv {
    type V = Seq<u8>;

    /// The AES key.
    closed spec fn view(&self) -> Seq<u8> {
        self.key@
    }
}

/// What decrypting `ct` under `key` and `aad` gives, where `ct` is a 12-byte
/// nonce followed by what AES-GCM-SIV produced under it.
pub open spec fn spec_gcm_siv_decrypt(key: Seq<u8>, ct: Seq<u8>, aad: Seq<u8>) -> Option<Seq<u8>> {
    if ct.len() < AES_GCM_SIV_NONCE_SIZE + AES_GCM_SIV_TAG_SIZE {
        None
    } else {
        gcm_siv_open(key, ct.take(AES_GCM_SIV_NONCE_SIZE as int), ct.skip(AES_GCM_SIV_NONCE_SIZE as int), aad)
    }
}

/// Whether AES-GCM-SIV encrypts a plaintext and associated data of these
/// lengths: each at most 2^36 bytes, and the nonce, ciphertext and tag together
/// at most `isize::MAX` bytes, the most a buffer can hold.
pub open spec fn gcm_siv_accepts(pt_len: nat, aad_len: nat) -> bool {
    &&& pt_len <= AES_GCM_SIV_MAX_INPUT
    &&& aad_len <= AES_GCM_SIV_MAX_INPUT
    &&& AES_GCM_SIV_NONCE_SIZE + pt_len + AES_GCM_SIV_TAG_SIZE <= isize::MAX
    &&& aad_len <= isize::MAX
}

/// Whether `key` has one of the sizes AES-GCM-SIV takes.
pub open spec fn valid_key_size(len: nat) -> bool {
    len == 16 || len == 32
}

impl AesGcmSiv {
    #[verifier::type_invariant]
    spec fn inv(self) -> bool {
        valid_key_size(self.key@.len())
    }

    /// Return an [`AesGcmSiv`] instance.
    /// The key argument should be the AES key, either 16 or 32 bytes to select
    /// AES-128 or AES-256.
    pub fn new(key: &[u8]) -> (r: Result<AesGcmSiv, TinkError>)
        ensures
            valid_key_size(key@.len()) <==> r is Ok,
            r matches Ok(c) ==> c@ == key@,
            r matches Err(e) ==> e == TinkError::InvalidKey,
    {
        if key.len() == 16 || key.len() == 32 {
            let key = vstd::slice::slice_to_vec(key);
            Ok(AesGcmSiv { key })
        } else {
            Err(TinkError::InvalidKey)
        }
    }

    /// The AES key size in bytes: 16 or 32.
    pub fn key_size(&self) -> (r: usize)
        ensures
            r == self@.len(),
            valid_key_size(r as nat),
    {
        proof {
            use_type_invariant(self);
        }
        self.key.len()
    }

    /// Encrypts `pt` with `aad` as associated data under the 12-byte `nonce`:
    /// the nonce, then the inner ciphertext and its 16-byte tag. A nonce must
    /// never be used twice under one key; `encrypt` draws a fresh one.
    /// Fails with `TooLong` on inputs AES-GCM-SIV does not accept.
    pub fn seal_with_nonce(&self, nonce: &[u8], pt: &[u8], aad: &[u8]) -> (r: Result<Vec<u8>, TinkError>)
        requires
            nonce@.len() == AES_GCM_SIV_NONCE_SIZE,
        ensures
            r is Ok <==> gcm_siv_accepts(pt@.len(), aad@.len()),
            r matches Ok(ct) ==> ct@.len() == AES_GCM_SIV_NONCE_SIZE + pt@.len() + AES_GCM_SIV_TAG_SIZE
                && ct@.take(AES_GCM_SIV_NONCE_SIZE as int) == nonce@
                && gcm_siv_open(self@, nonce@, ct@.skip(AES_GCM_SIV_NONCE_SIZE as int), aad@) == Some(pt@),
            r matches Ok(ct) ==> spec_gcm_siv_decrypt(self@, ct@, aad@) == Some(pt@),
            r matches Err(e) ==> e == TinkError::TooLong,
    {
        proof {
            use_type_invariant(self);
        }
        if pt.len() as u64 > AES_GCM_SIV_MAX_INPUT || aad.len() as u64 > AES_GCM_SIV_MAX_INPUT
            || pt.len() > (isize::MAX as usize) - (AES_GCM_SIV_NONCE_SIZE + AES_GCM_SIV_TAG_SIZE)
            || aad.len() > isize::MAX as usize {
            return Err(TinkError::TooLong);
        }
        let sealed = if self.key.len() == 16 {
            seal_128(self.key.as_slice(), nonce, pt, aad)
        } else {
            seal_256(self.key.as_slice(), nonce, pt, aad)
        };
        match sealed {
            Ok(ct) => {
                let mut ret: Vec<u8> = Vec::new();
                append_bytes(&mut ret, nonce);
                append_bytes(&mut ret, ct.as_slice());
                assert(ret@.take(AES_GCM_SIV_NONCE_SIZE as int) == nonce@);
                assert(ret@.skip(AES_GCM_SIV_NONCE_SIZE as int) == ct@);
                Ok(ret)
            },
            Err(_) => Err(TinkError::TooLong),
        }
    }
}

/// Appends the bytes of `s` to `v`.
pub(crate) fn append_bytes(v: &mut Vec<u8>, s: &[u8])
    ensures
        final(v)@ == old(v)@ + s@,
{
    let mut i: usize = 0;
    while i < s.len()
        invariant
            i <= s@.len(),
            v@ == old(v)@ + s@.take(i as int),
        decreases s@.len() - i,
    {
        v.push(s[i]);
        i = i + 1;
        assert(s@.take(i as int) == s@.take(i as int - 1).push(s@[i as int - 1]));
    }
    assert(s@.take(s@.len() as int) == s@);
}

impl Aead for AesGcmSiv {
    open spec fn spec_open(&self, ct: Seq<u8>, aad: Seq<u8>) -> Option<Seq<u8>> {
        spec_gcm_siv_decrypt(self@, ct, aad)
    }

    open spec fn spec_accepts(&self, pt_len: nat, aad_len: nat) -> bool {
        gcm_siv_accepts(pt_len, aad_len)
    }

    /// Encrypt `pt` with `aad` as additional authenticated data.
    ///
    /// The resulting ciphertext consists of two parts: (1) the IV used for encryption and (2) the
    /// actual ciphertext (which itself is built of two parts, the inner ciphertext followed by
    /// an authentication tag).
    fn encrypt(&self, pt: &[u8], aad: &[u8]) -> (r: Result<Vec<u8>, TinkError>)
        ensures
            r is Ok <==> self.spec_accepts(pt@.len(), aad@.len()),
            r matches Ok(ct) ==> ct@.len() == AES_GCM_SIV_NONCE_SIZE + pt@.len() + AES_GCM_SIV_TAG_SIZE,
            r matches Err(e) ==> e == TinkError::TooLong,
    {
        let iv = new_iv();
        self.seal_with_nonce(iv.as_slice(), pt, aad)
    }

    /// Decrypt `ct` with `aad` as the additional authenticated data.
    fn decrypt(&self, ct: &[u8], aad: &[u8]) -> (r: Result<Vec<u8>, TinkError>)
        ensures
            r matches Ok(p) ==> p@.len() + AES_GCM_SIV_NONCE_SIZE + AES_GCM_SIV_TAG_SIZE == ct@.len(),
            r matches Err(e) ==> e == TinkError::AuthenticationFailure,
    {
        proof {
            use_type_invariant(self);
        }
        if ct.len() < AES_GCM_SIV_NONCE_SIZE + AES_GCM_SIV_TAG_SIZE {
            return Err(TinkError::AuthenticationFailure);
        }
        let iv = vstd::slice::slice_subrange(ct, 0, AES_GCM_SIV_NONCE_SIZE);
        let body = vstd::slice::slice_subrange(ct, AES_GCM_SIV_NONCE_SIZE, ct.len());
        let opened = if self.key.len() == 16 {
            open_128(self.key.as_slice(), iv, body, aad)
        } else {
            open_256(self.key.as_slice(), iv, body, aad)
        };
        match opened {
            Ok(pt) => Ok(pt),
            Err(_) => Err(TinkError::AuthenticationFailure),
        }
    }
}

} // verus!
