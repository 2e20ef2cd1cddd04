//! The registry: which key manager handles keys of which type URL.

use vstd::prelude::*;

use crate::error::TinkError;
use crate::gcm_siv::{generate_key_128, generate_key_256, random_bytes, valid_key_size, AesGcmSiv};
use crate::mac::{HmacSha256, HMAC_MIN_KEY_SIZE};
use crate::primitive_set::FromKey;
use crate::signature::{Ed25519Signer, Ed25519Verifier, ED25519_KEY_SIZE};
use crate::proto::KeyMaterialType;

verus! {

/// Type URL of AES-GCM-SIV keys.
pub const AES_GCM_SIV_TYPE_URL: &'static str = "type.googleapis.com/google.crypto.tink.AesGcmSivKey";

/// Type URL of HMAC keys.
pub const HMAC_TYPE_URL: &'static str = "type.googleapis.com/google.crypto.tink.HmacKey";

/// Type URL of Ed25519 private keys.
pub const ED25519_PRIVATE_TYPE_URL: &'static str = "type.googleapis.com/google.crypto.tink.Ed25519PrivateKey";

/// Type URL of Ed25519 public keys.
pub const ED25519_PUBLIC_TYPE_URL: &'static str = "type.googleapis.com/google.crypto.tink.Ed25519PublicKey";

/// The key managers this library provides.
///
/// Each takes the key itself as serialized key, and as serialized key format
/// one byte holding the key size: 16 or 32 for AES-GCM-SIV, at least 16 for
/// HMAC-SHA256, 32 for Ed25519 private keys. Public keys are not generated but
/// derived from private ones.
#[derive(Clone, Copy, Debug, PartialEq, Eq, Structural)]
pub enum KeyManagerKind {
    AesGcmSiv,
    HmacSha256,
    Ed25519Private,
    Ed25519Public,
}

/// One registration: a type URL with the manager that handles it.
pub struct RegistryEntry {
    pub type_url: String,
    pub key_material_type: KeyMaterialType,
    pub kind: KeyManagerKind,
}

/// What a registration holds, as a mathematical value.
pub type EntryView = (Seq<char>, KeyMaterialType, KeyManagerKind);

/// Maps type URLs to key managers; each type URL is registered at most once.
pub struct Registry {
    entries: Vec<RegistryEntry>,
}

/// The serialized key formats that a manager accepts, and the key size each asks for.
pub open spec fn spec_key_size_of_format(kind: KeyManagerKind, format: Seq<u8>) -> Option<nat> {
    match kind {
        KeyManagerKind::AesGcmSiv => if format.len() == 1 && valid_key_size(format[0] as nat) {
            Some(format[0] as nat)
        } else {
            None
        },
        KeyManagerKind::HmacSha256 => if format.len() == 1 && format[0] >= HMAC_MIN_KEY_SIZE {
            Some(format[0] as nat)
        } else {
            None
        },
        KeyManagerKind::Ed25519Private => if format.len() == 1 && format[0] == ED25519_KEY_SIZE {
            Some(ED25519_KEY_SIZE as nat)
        } else {
            None
        },
        KeyManagerKind::Ed25519Public => None,
    }
}

impl View for Registry {
    type V = Seq<EntryView>;

    closed spec fn view(&self) -> Seq<EntryView> {
        self.entries@.map_values(|e: RegistryEntry| (e.type_url@, e.key_material_type, e.kind))
    }
}

/// No type URL appears twice.
pub open spec fn urls_unique(s: Seq<EntryView>) -> bool {
    forall|i: int, j: int| 0 <= i < s.len() && 0 <= j < s.len() && i != j ==> s[i].0 != s[j].0
}

/// The registration of `url` in `s`, if there is one.
pub open spec fn spec_lookup(s: Seq<EntryView>, url: Seq<char>) -> Option<EntryView> {
    if exists|i: int| 0 <= i < s.len() && s[i].0 == url {
        Some(s[choose|i: int| 0 <= i < s.len() && s[i].0 == url])
    } else {
        None
    }
}

impl Registry {
    /// Whether the registry is well formed.
    pub open spec fn wf(&self) -> bool {
        urls_unique(self@)
    }

    /// An empty registry.
    pub fn new() -> (r: Registry)
        ensures
            r.wf(),
            r@ == Seq::<EntryView>::empty(),
    {
        let r = Registry { entries: Vec::new() };
        assert(r@ =~= Seq::<EntryView>::empty());
        r
    }

    /// A registry that holds the managers of this library under their type URLs.
    pub fn with_defaults() -> (r: Registry)
        ensures
            r.wf(),
            r@ == seq![
                (AES_GCM_SIV_TYPE_URL@, KeyMaterialType::Symmetric, KeyManagerKind::AesGcmSiv),
                (HMAC_TYPE_URL@, KeyMaterialType::Symmetric, KeyManagerKind::HmacSha256),
                (ED25519_PRIVATE_TYPE_URL@, KeyMaterialType::AsymmetricPrivate, KeyManagerKind::Ed25519Private),
                (ED25519_PUBLIC_TYPE_URL@, KeyMaterialType::AsymmetricPublic, KeyManagerKind::Ed25519Public),
            ],
    {
        let mut entries: Vec<RegistryEntry> = Vec::new();
        let e = RegistryEntry {
            type_url: AES_GCM_SIV_TYPE_URL.to_owned(),
            key_material_type: KeyMaterialType::Symmetric,
            kind: KeyManagerKind::AesGcmSiv,
        };
        entries.push(e);
        let e = RegistryEntry {
            type_url: HMAC_TYPE_URL.to_owned(),
            key_material_type: KeyMaterialType::Symmetric,
            kind: KeyManagerKind::HmacSha256,
        };
        entries.push(e);
        let e = RegistryEntry {
            type_url: ED25519_PRIVATE_TYPE_URL.to_owned(),
            key_material_type: KeyMaterialType::AsymmetricPrivate,
            kind: KeyManagerKind::Ed25519Private,
        };
        entries.push(e);
        let e = RegistryEntry {
            type_url: ED25519_PUBLIC_TYPE_URL.to_owned(),
            key_material_type: KeyMaterialType::AsymmetricPublic,
            kind: KeyManagerKind::Ed25519Public,
        };
        entries.push(e);
        let r = Registry { entries };
        assert(r@.len() == 4);
        assert(r@[0] == (AES_GCM_SIV_TYPE_URL@, KeyMaterialType::Symmetric, KeyManagerKind::AesGcmSiv));
        assert(r@[1] == (HMAC_TYPE_URL@, KeyMaterialType::Symmetric, KeyManagerKind::HmacSha256));
        assert(r@[2] == (ED25519_PRIVATE_TYPE_URL@, KeyMaterialType::AsymmetricPrivate, KeyManagerKind::Ed25519Private));
        assert(r@[3] == (ED25519_PUBLIC_TYPE_URL@, KeyMaterialType::AsymmetricPublic, KeyManagerKind::Ed25519Public));
        proof {
            reveal_strlit("type.googleapis.com/google.crypto.tink.AesGcmSivKey");
            reveal_strlit("type.googleapis.com/google.crypto.tink.HmacKey");
            reveal_strlit("type.googleapis.com/google.crypto.tink.Ed25519PrivateKey");
            reveal_strlit("type.googleapis.com/google.crypto.tink.Ed25519PublicKey");
            assert(AES_GCM_SIV_TYPE_URL@[39] != HMAC_TYPE_URL@[39]);
            assert(AES_GCM_SIV_TYPE_URL@[39] != ED25519_PRIVATE_TYPE_URL@[39]);
            assert(AES_GCM_SIV_TYPE_URL@[39] != ED25519_PUBLIC_TYPE_URL@[39]);
            assert(HMAC_TYPE_URL@[39] != ED25519_PRIVATE_TYPE_URL@[39]);
            assert(HMAC_TYPE_URL@[39] != ED25519_PUBLIC_TYPE_URL@[39]);
            assert(ED25519_PRIVATE_TYPE_URL@[47] != ED25519_PUBLIC_TYPE_URL@[47]);
        }
        assert(r@ =~= seq![
            (AES_GCM_SIV_TYPE_URL@, KeyMaterialType::Symmetric, KeyManagerKind::AesGcmSiv),
            (HMAC_TYPE_URL@, KeyMaterialType::Symmetric, KeyManagerKind::HmacSha256),
            (ED25519_PRIVATE_TYPE_URL@, KeyMaterialType::AsymmetricPrivate, KeyManagerKind::Ed25519Private),
            (ED25519_PUBLIC_TYPE_URL@, KeyMaterialType::AsymmetricPublic, KeyManagerKind::Ed25519Public),
        ]);
        r
    }

    /// Finds the index of `type_url`'s registration.
    fn find(&self, type_url: &String) -> (r: Option<usize>)
        requires
            self.wf(),
        ensures
            match r {
                Some(i) => i < self@.len() && self@[i as int].0 == type_url@
                    && spec_lookup(self@, type_url@) == Some(self@[i as int]),
                None => spec_lookup(self@, type_url@) is None,
            },
    {
        let mut i: usize = 0;
        while i < self.entries.len()
            invariant
                i <= self.entries@.len(),
                self.wf(),
                forall|j: int| 0 <= j < i ==> self@[j].0 != type_url@,
            decreases self.entries@.len() - i,
        {
            if self.entries[i].type_url == *type_url {
                assert(self@[i as int].0 == type_url@);
                let ghost k = choose|k: int| 0 <= k < self@.len() && self@[k].0 == type_url@;
                assert(k == i);
                return Some(i);
            }
            i = i + 1;
        }
        None
    }

    /// Registers `kind` for `type_url` with keys of material class `material`.
    ///
    /// Registering the same manager again changes nothing; registering a type
    /// URL again with another manager or material class fails with `Conflict`.
    pub fn register(&mut self, type_url: &String, material: KeyMaterialType, kind: KeyManagerKind) -> (r: Result<(), TinkError>)
        requires
            old(self).wf(),
        ensures
            final(self).wf(),
            match spec_lookup(old(self)@, type_url@) {
                Some(e) => if e.1 == material && e.2 == kind {
                    r is Ok && final(self)@ == old(self)@
                } else {
                    r == Err::<(), TinkError>(TinkError::Conflict) && final(self)@ == old(self)@
                },
                None => r is Ok && final(self)@ == old(self)@.push((type_url@, material, kind)),
            },
    {
        match self.find(type_url) {
            Some(i) => {
                if self.entries[i].key_material_type == material && self.entries[i].kind == kind {
                    Ok(())
                } else {
                    Err(TinkError::Conflict)
                }
            },
            None => {
                let e = RegistryEntry { type_url: type_url.clone(), key_material_type: material, kind };
                self.entries.push(e);
                assert(self@ =~= old(self)@.push((type_url@, material, kind)));
                assert forall|a: int, b: int| 0 <= a < self@.len() && 0 <= b < self@.len() && a != b
                    implies self@[a].0 != self@[b].0 by {
                    if a < old(self)@.len() && b < old(self)@.len() {
                    } else if a == old(self)@.len() {
                        assert(old(self)@[b].0 != type_url@);
                    } else {
                        assert(old(self)@[a].0 != type_url@);
                    }
                };
                Ok(())
            },
        }
    }

    /// Returns the material class and manager registered for `type_url`.
    pub fn lookup(&self, type_url: &String) -> (r: Result<(KeyMaterialType, KeyManagerKind), TinkError>)
        requires
            self.wf(),
        ensures
            match spec_lookup(self@, type_url@) {
                Some(e) => r == Ok::<(KeyMaterialType, KeyManagerKind), TinkError>((e.1, e.2)),
                None => r == Err::<(KeyMaterialType, KeyManagerKind), TinkError>(TinkError::NotFound),
            },
    {
        match self.find(type_url) {
            Some(i) => Ok((self.entries[i].key_material_type, self.entries[i].kind)),
            None => Err(TinkError::NotFound),
        }
    }

    /// Generates a fresh serialized key of type `type_url` from a serialized key format.
    pub fn new_key(&self, type_url: &String, serialized_format: &[u8]) -> (r: Result<Vec<u8>, TinkError>)
        requires
            self.wf(),
        ensures
            match spec_lookup(self@, type_url@) {
                None => r == Err::<Vec<u8>, TinkError>(TinkError::NotFound),
                Some(e) => match spec_key_size_of_format(e.2, serialized_format@) {
                    Some(n) => r matches Ok(k) && k@.len() == n,
                    None => r == Err::<Vec<u8>, TinkError>(TinkError::InvalidFormat),
                },
            },
    {
        let (_, kind) = self.lookup(type_url)?;
        match kind {
            KeyManagerKind::AesGcmSiv => {
                if serialized_format.len() != 1 {
                    return Err(TinkError::InvalidFormat);
                }
                let size = serialized_format[0];
                if size == 16 {
                    Ok(generate_key_128())
                } else if size == 32 {
                    Ok(generate_key_256())
                } else {
                    Err(TinkError::InvalidFormat)
                }
            },
            KeyManagerKind::HmacSha256 => {
                if serialized_format.len() != 1 || (serialized_format[0] as usize) < HMAC_MIN_KEY_SIZE {
                    return Err(TinkError::InvalidFormat);
                }
                Ok(random_bytes(serialized_format[0] as usize))
            },
            KeyManagerKind::Ed25519Private => {
                if serialized_format.len() != 1 || serialized_format[0] as usize != ED25519_KEY_SIZE {
                    return Err(TinkError::InvalidFormat);
                }
                Ok(random_bytes(ED25519_KEY_SIZE))
            },
            KeyManagerKind::Ed25519Public => Err(TinkError::InvalidFormat),
        }
    }
}

impl FromKey for AesGcmSiv {
    open spec fn key_bytes(&self) -> Seq<u8> {
        self@
    }

    /// A key registered to the AES-GCM-SIV manager, of 16 or 32 bytes.
    open spec fn spec_accepts_key(reg: Seq<EntryView>, type_url: Seq<char>, key: Seq<u8>) -> bool {
        &&& spec_lookup(reg, type_url) matches Some(e)
        &&& e.2 == KeyManagerKind::AesGcmSiv
        &&& valid_key_size(key.len())
    }

    fn from_key(reg: &Registry, type_url: &String, key: &[u8]) -> (r: Result<AesGcmSiv, TinkError>) {
        let (_, kind) = reg.lookup(type_url)?;
        match kind {
            KeyManagerKind::AesGcmSiv => AesGcmSiv::new(key),
            _ => Err(TinkError::InvalidKey),
        }
    }
}

impl FromKey for HmacSha256 {
    open spec fn key_bytes(&self) -> Seq<u8> {
        self@
    }

    /// A key registered to the HMAC-SHA256 manager, of at least 16 bytes.
    open spec fn spec_accepts_key(reg: Seq<EntryView>, type_url: Seq<char>, key: Seq<u8>) -> bool {
        &&& spec_lookup(reg, type_url) matches Some(e)
        &&& e.2 == KeyManagerKind::HmacSha256
        &&& key.len() >= HMAC_MIN_KEY_SIZE
    }

    fn from_key(reg: &Registry, type_url: &String, key: &[u8]) -> (r: Result<HmacSha256, TinkError>) {
        let (_, kind) = reg.lookup(type_url)?;
        match kind {
            KeyManagerKind::HmacSha256 => HmacSha256::new(key),
            _ => Err(TinkError::InvalidKey),
        }
    }
}

} // verus!

verus! {

impl FromKey for Ed25519Signer {
    open spec fn key_bytes(&self) -> Seq<u8> {
        self@
    }

    /// A 32-byte key registered to the Ed25519 private key manager.
    open spec fn spec_accepts_key(reg: Seq<EntryView>, type_url: Seq<char>, key: Seq<u8>) -> bool {
        &&& spec_lookup(reg, type_url) matches Some(e)
        &&& e.2 == KeyManagerKind::Ed25519Private
        &&& key.len() == ED25519_KEY_SIZE
    }

    fn from_key(reg: &Registry, type_url: &String, key: &[u8]) -> (r: Result<Ed25519Signer, TinkError>) {
        let (_, kind) = reg.lookup(type_url)?;
        match kind {
            KeyManagerKind::Ed25519Private => Ed25519Signer::new(key),
            _ => Err(TinkError::InvalidKey),
        }
    }
}

impl FromKey for Ed25519Verifier {
    open spec fn key_bytes(&self) -> Seq<u8> {
        self@
    }

    /// A 32-byte key registered to the Ed25519 public key manager.
    open spec fn spec_accepts_key(reg: Seq<EntryView>, type_url: Seq<char>, key: Seq<u8>) -> bool {
        &&& spec_lookup(reg, type_url) matches Some(e)
        &&& e.2 == KeyManagerKind::Ed25519Public
        &&& key.len() == ED25519_KEY_SIZE
    }

    fn from_key(reg: &Registry, type_url: &String, key: &[u8]) -> (r: Result<Ed25519Verifier, TinkError>) {
        let (_, kind) = reg.lookup(type_url)?;
        match kind {
            KeyManagerKind::Ed25519Public => Ed25519Verifier::new(key),
            _ => Err(TinkError::InvalidKey),
        }
    }
}

} // verus!
