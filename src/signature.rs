//! Ed25519 signatures: the signing and verifying primitives, the public
//! keyset of a private one, and the signing and verifying wrappers.

use ed25519_dalek::{Signer as _, Verifier as _};
use vstd::prelude::*;

use crate::error::TinkError;
use crate::gcm_siv::append_bytes;
use crate::keyset::{key_well_formed, valid_keyset, validate_keyset, KeyDataModel, KeyModel, KeysetModel};
use crate::mac_wrapper::framed_data;
use crate::primitive_set::{
    enabled_keys, entries_of, entries_wf, entry_of, instantiable, selected, EntryModel, PrimitiveSet,
};
use crate::proto::{Key, KeyData, KeyMaterialType, Keyset, OutputPrefixType};
use crate::registry::{spec_lookup, KeyManagerKind, Registry, ED25519_PUBLIC_TYPE_URL};

verus! {

/// Length of an Ed25519 secret key, and of a public key.
pub const ED25519_KEY_SIZE: usize = 32;

/// Length of an Ed25519 signature.
pub const ED25519_SIGNATURE_SIZE: usize = 64;

/// The Ed25519 public key of a 32-byte secret key.
pub uninterp spec fn ed25519_public_of(sk: Seq<u8>) -> Seq<u8>;

/// Whether `sig` is a valid Ed25519 signature of `msg` under public key `pk`.
pub uninterp spec fn ed25519_verifies(pk: Seq<u8>, msg: Seq<u8>, sig: Seq<u8>) -> bool;

#[verifier::external_type_specification]
#[verifier::external_body]
pub struct ExSignatureError(ed25519_dalek::SignatureError);

/// Relies on `SigningKey::try_from` and `SigningKey::verifying_key` of
/// ed25519-dalek: a 32-byte secret key is accepted, and its public key has 32
/// bytes and depends on the secret key alone.
#[verifier::external_body]
fn ed25519_public_key(sk: &[u8]) -> (r: Result<Vec<u8>, ed25519_dalek::SignatureError>)
    requires
        sk@.len() == ED25519_KEY_SIZE,
    ensures
        r is Ok,
        r matches Ok(pk) ==> pk@ == ed25519_public_of(sk@) && pk@.len() == ED25519_KEY_SIZE,
{
    let key = ed25519_dalek::SigningKey::try_from(sk)?;
    Ok(key.verifying_key().to_bytes().to_vec())
}

/// Relies on `SigningKey::try_from` and `Signer::sign` of ed25519-dalek: a
/// 32-byte secret key is accepted, and the 64-byte signature verifies under its
/// public key.
#[verifier::external_body]
fn ed25519_sign(sk: &[u8], msg: &[u8]) -> (r: Result<Vec<u8>, ed25519_dalek::SignatureError>)
    requires
        sk@.len() == ED25519_KEY_SIZE,
    ensures
        r is Ok,
        r matches Ok(sig) ==> sig@.len() == ED25519_SIGNATURE_SIZE
            && ed25519_verifies(ed25519_public_of(sk@), msg@, sig@),
{
    let key = ed25519_dalek::SigningKey::try_from(sk)?;
    Ok(key.sign(msg).to_bytes().to_vec())
}

/// Relies on `VerifyingKey::try_from`, `Signature::from_slice` and
/// `Verifier::verify` of ed25519-dalek: a key or signature that does not decode
/// verifies nothing.
#[verifier::external_body]
fn ed25519_verify(pk: &[u8], msg: &[u8], sig: &[u8]) -> (r: bool)
    ensures
        r == ed25519_verifies(pk@, msg@, sig@),
{
    match (ed25519_dalek::VerifyingKey::try_from(pk), ed25519_dalek::Signature::from_slice(sig)) {
        (Ok(key), Ok(sig)) => key.verify(msg, &sig).is_ok(),
        _ => false,
    }
}

/// Signs with an Ed25519 secret key.
pub struct Ed25519Signer {
    sk: Vec<u8>,
}

impl View for Ed25519Signer {
    type V = Seq<u8>;

    /// The secret key.
    closed spec fn view(&self) -> Seq<u8> {
        self.sk@
    }
}

impl Ed25519Signer {
    #[verifier::type_invariant]
    spec fn inv(self) -> bool {
        self.sk@.len() == ED25519_KEY_SIZE
    }

    /// A signer with this 32-byte secret key; `InvalidKey` for any other length.
    pub fn new(sk: &[u8]) -> (r: Result<Ed25519Signer, TinkError>)
        ensures
            r is Ok <==> sk@.len() == ED25519_KEY_SIZE,
            r matches Ok(s) ==> s@ == sk@,
            r matches Err(e) ==> e == TinkError::InvalidKey,
    {
        if sk.len() != ED25519_KEY_SIZE {
            return Err(TinkError::InvalidKey);
        }
        Ok(Ed25519Signer { sk: vstd::slice::slice_to_vec(sk) })
    }

    /// The signature of `msg`: 64 bytes that verify under the public key.
    pub fn sign(&self, msg: &[u8]) -> (r: Vec<u8>)
        ensures
            r@.len() == ED25519_SIGNATURE_SIZE,
            ed25519_verifies(ed25519_public_of(self@), msg@, r@),
    {
        proof {
            use_type_invariant(self);
        }
        match ed25519_sign(self.sk.as_slice(), msg) {
            Ok(sig) => sig,
            Err(_) => Vec::new(),
        }
    }

    /// The public key.
    pub fn public_key(&self) -> (r: Vec<u8>)
        ensures
            r@ == ed25519_public_of(self@),
    {
        proof {
            use_type_invariant(self);
        }
        match ed25519_public_key(self.sk.as_slice()) {
            Ok(pk) => pk,
            Err(_) => Vec::new(),
        }
    }
}

/// Verifies Ed25519 signatures under a public key.
pub struct Ed25519Verifier {
    pk: Vec<u8>,
}

impl View for Ed25519Verifier {
    type V = Seq<u8>;

    /// The public key.
    closed spec fn view(&self) -> Seq<u8> {
        self.pk@
    }
}

impl Ed25519Verifier {
    /// A verifier with this 32-byte public key; `InvalidKey` for any other length.
    pub fn new(pk: &[u8]) -> (r: Result<Ed25519Verifier, TinkError>)
        ensures
            r is Ok <==> pk@.len() == ED25519_KEY_SIZE,
            r matches Ok(v) ==> v@ == pk@,
            r matches Err(e) ==> e == TinkError::InvalidKey,
    {
        if pk.len() != ED25519_KEY_SIZE {
            return Err(TinkError::InvalidKey);
        }
        Ok(Ed25519Verifier { pk: vstd::slice::slice_to_vec(pk) })
    }

    /// Whether `sig` is a valid signature of `msg`.
    pub fn verify(&self, sig: &[u8], msg: &[u8]) -> (r: bool)
        ensures
            r == ed25519_verifies(self@, msg@, sig@),
    {
        ed25519_verify(self.pk.as_slice(), msg, sig)
    }
}

/// The public counterpart of a key: destroyed keys stay as they are; other keys
/// get the public key of their secret key, under the public key type.
pub open spec fn public_key_of(k: KeyModel) -> KeyModel {
    match k.key_data {
        None => k,
        Some(d) => KeyModel {
            key_data: Some(KeyDataModel {
                type_url: ED25519_PUBLIC_TYPE_URL@,
                value: ed25519_public_of(d.value),
                key_material_type: KeyMaterialType::AsymmetricPublic.spec_value(),
            }),
            ..k
        },
    }
}

/// Whether a key has a public counterpart: it is destroyed, or it holds a
/// 32-byte key of a type registered to the Ed25519 private key manager.
pub open spec fn has_public_key(reg: Seq<crate::registry::EntryView>, k: KeyModel) -> bool {
    match k.key_data {
        None => true,
        Some(d) => {
            &&& spec_lookup(reg, d.type_url) matches Some(e)
            &&& e.2 == KeyManagerKind::Ed25519Private
            &&& d.value.len() == ED25519_KEY_SIZE
        },
    }
}

/// The keys of `ks` with each one's public counterpart in its place.
pub open spec fn spec_public_keys(keys: Seq<KeyModel>) -> Seq<KeyModel> {
    keys.map_values(|k: KeyModel| public_key_of(k))
}

/// The public keyset of a private keyset: same ids, statuses, prefix kinds and
/// primary, with each secret key replaced by its public key. Fails with
/// `InvalidFormat` on an invalid keyset and with `KeyRejected` naming the first
/// key that is not an Ed25519 private key.
pub fn public_keyset(ks: &Keyset, registry: &Registry) -> (r: Result<Keyset, TinkError>)
    requires
        registry.wf(),
    ensures
        !valid_keyset(ks@) ==> r == Err::<Keyset, TinkError>(TinkError::InvalidFormat),
        valid_keyset(ks@) ==> (r is Ok <==> forall|i: int| 0 <= i < ks@.keys.len()
            ==> has_public_key(registry@, #[trigger] ks@.keys[i])),
        r matches Ok(p) ==> p@ == (KeysetModel { keys: spec_public_keys(ks@.keys), ..ks@ }),
{
    validate_keyset(ks)?;
    let mut keys: Vec<Key> = Vec::new();
    let mut i: usize = 0;
    while i < ks.key.len()
        invariant
            i <= ks.key@.len(),
            registry.wf(),
            valid_keyset(ks@),
            keys@.len() == i,
            forall|j: int| 0 <= j < i ==> keys@[j]@ == public_key_of(ks@.keys[j]),
            forall|j: int| 0 <= j < i ==> has_public_key(registry@, #[trigger] ks@.keys[j]),
        decreases ks.key@.len() - i,
    {
        let k = &ks.key[i];
        assert(ks@.keys[i as int] == k@);
        let key_data = match &k.key_data {
            None => None,
            Some(d) => {
                let found = registry.lookup(&d.type_url);
                let ok = match found {
                    Ok((_, KeyManagerKind::Ed25519Private)) => d.value.len() == ED25519_KEY_SIZE,
                    _ => false,
                };
                if !ok {
                    return Err(TinkError::KeyRejected(k.key_id));
                }
                let signer = match Ed25519Signer::new(d.value.as_slice()) {
                    Ok(s) => s,
                    Err(e) => {
                        return Err(e);
                    },
                };
                Some(KeyData {
                    type_url: ED25519_PUBLIC_TYPE_URL.to_owned(),
                    value: signer.public_key(),
                    key_material_type: KeyMaterialType::AsymmetricPublic.value(),
                })
            },
        };
        keys.push(Key { key_data, status: k.status, key_id: k.key_id, output_prefix_type: k.output_prefix_type });
        i = i + 1;
    }
    let p = Keyset { primary_key_id: ks.primary_key_id, key: keys };
    assert(p@.keys =~= spec_public_keys(ks@.keys));
    Ok(p)
}

/// The enabled keys of the public keys are the public keys of the enabled keys.
proof fn lemma_enabled_public_keys(keys: Seq<KeyModel>)
    ensures
        enabled_keys(spec_public_keys(keys)) == spec_public_keys(enabled_keys(keys)),
    decreases keys.len(),
{
    if keys.len() > 0 {
        assert(spec_public_keys(keys).drop_last() =~= spec_public_keys(keys.drop_last()));
        lemma_enabled_public_keys(keys.drop_last());
        assert(spec_public_keys(enabled_keys(keys.drop_last()).push(keys.last()))
            =~= spec_public_keys(enabled_keys(keys.drop_last())).push(public_key_of(keys.last())));
    } else {
        assert(spec_public_keys(keys) =~= Seq::<KeyModel>::empty());
        assert(spec_public_keys(enabled_keys(keys)) =~= Seq::<KeyModel>::empty());
    }
}

/// Whether entry `e` accepts `sig` for `data`, once its prefix is stripped.
pub open spec fn entry_verifies(e: EntryModel, sig: Seq<u8>, data: Seq<u8>) -> bool {
    ed25519_verifies(e.key, framed_data(e, data), sig.skip(e.prefix.len() as int))
}

/// Whether some entry that verification tries accepts `sig` for `data`.
pub open spec fn spec_sig_verifies(es: Seq<EntryModel>, sig: Seq<u8>, data: Seq<u8>) -> bool {
    exists|i: int| 0 <= i < es.len() && (selected(es[i], sig, false) || selected(es[i], sig, true))
        && #[trigger] entry_verifies(es[i], sig, data)
}

/// `sig` is what the signing entry `e` gives `data`: its prefix, then a
/// signature of the framed data under its secret key.
pub open spec fn signed_by(e: EntryModel, data: Seq<u8>, sig: Seq<u8>) -> bool {
    &&& e.prefix.len() <= sig.len()
    &&& sig.take(e.prefix.len() as int) == e.prefix
    &&& ed25519_verifies(ed25519_public_of(e.key), framed_data(e, data), sig.skip(e.prefix.len() as int))
}

/// Round trip: what an enabled key of a private keyset signs verifies through
/// the entries of the public keyset.
pub proof fn lemma_sign_verify(keys: Seq<KeyModel>, p: int, data: Seq<u8>, sig: Seq<u8>)
    requires
        forall|i: int| 0 <= i < keys.len() ==> key_well_formed(#[trigger] keys[i]),
        0 <= p < entries_of(keys).len(),
        signed_by(entries_of(keys)[p], data, sig),
    ensures
        spec_sig_verifies(entries_of(spec_public_keys(keys)), sig, data),
{
    lemma_enabled_public_keys(keys);
    crate::primitive_set::lemma_usable_keys_from(keys, false);
    let en = enabled_keys(keys);
    let j = choose|j: int| 0 <= j < keys.len() && keys[j] == en[p];
    assert(key_well_formed(keys[j]));
    assert(en[p].key_data is Some);
    let pub_es = entries_of(spec_public_keys(keys));
    assert(pub_es[p] == entry_of(public_key_of(en[p])));
    assert(selected(pub_es[p], sig, false) || selected(pub_es[p], sig, true));
    assert(entry_verifies(pub_es[p], sig, data));
}

/// Signs with the primary key of a private keyset.
pub struct SignerWrapper {
    ps: PrimitiveSet<Ed25519Signer>,
}

impl View for SignerWrapper {
    type V = (Seq<EntryModel>, int);

    closed spec fn view(&self) -> (Seq<EntryModel>, int) {
        self.ps@
    }
}

impl SignerWrapper {
    /// Whether the wrapper's primitive set is well formed.
    pub open spec fn wf(&self) -> bool {
        entries_wf(self@.0, self@.1)
    }

    /// The signer of a private keyset. Fails with `InvalidFormat` on an invalid
    /// keyset, and with `KeyRejected` when a key is not an Ed25519 private key.
    pub fn from_keyset(ks: &Keyset, registry: &Registry) -> (r: Result<SignerWrapper, TinkError>)
        requires
            registry.wf(),
        ensures
            r matches Ok(w) ==> w.wf() && w@.0 == entries_of(ks@.keys) && w@.0[w@.1].key_id == ks@.primary_key_id,
            !valid_keyset(ks@) ==> r == Err::<SignerWrapper, TinkError>(TinkError::InvalidFormat),
            valid_keyset(ks@) ==> (r is Ok <==> forall|a: int| 0 <= a < enabled_keys(ks@.keys).len()
                ==> instantiable::<Ed25519Signer>(registry@, #[trigger] enabled_keys(ks@.keys)[a])),
    {
        validate_keyset(ks)?;
        let ps = PrimitiveSet::<Ed25519Signer>::new(ks, registry)?;
        Ok(SignerWrapper { ps })
    }

    /// The signature of `data`: the primary key's prefix, then its signature of
    /// `data` (with a zero byte appended when the primary key is of kind Legacy).
    pub fn sign(&self, data: &[u8]) -> (r: Vec<u8>)
        requires
            self.wf(),
        ensures
            signed_by(self@.0[self@.1], data@, r@),
            r@.len() == self@.0[self@.1].prefix.len() + ED25519_SIGNATURE_SIZE,
    {
        let e = self.ps.entry(self.ps.primary());
        assert(e@ == self@.0[self@.1]);
        let framed = crate::mac_wrapper::frame(data, e.prefix_type() == OutputPrefixType::Legacy);
        let sig = e.primitive().sign(framed.as_slice());
        let mut out: Vec<u8> = Vec::new();
        append_bytes(&mut out, e.prefix());
        append_bytes(&mut out, sig.as_slice());
        assert(out@.take(e@.prefix.len() as int) =~= e@.prefix);
        assert(out@.skip(e@.prefix.len() as int) =~= sig@);
        out
    }
}

/// Verifies signatures with the keys of a public keyset.
pub struct VerifierWrapper {
    ps: PrimitiveSet<Ed25519Verifier>,
}

impl View for VerifierWrapper {
    type V = (Seq<EntryModel>, int);

    closed spec fn view(&self) -> (Seq<EntryModel>, int) {
        self.ps@
    }
}

impl VerifierWrapper {
    /// The verifier of a public keyset. Fails with `InvalidFormat` on an invalid
    /// keyset, and with `KeyRejected` when a key is not an Ed25519 public key.
    pub fn from_keyset(ks: &Keyset, registry: &Registry) -> (r: Result<VerifierWrapper, TinkError>)
        requires
            registry.wf(),
        ensures
            r matches Ok(w) ==> entries_wf(w@.0, w@.1) && w@.0 == entries_of(ks@.keys),
            !valid_keyset(ks@) ==> r == Err::<VerifierWrapper, TinkError>(TinkError::InvalidFormat),
            valid_keyset(ks@) ==> (r is Ok <==> forall|a: int| 0 <= a < enabled_keys(ks@.keys).len()
                ==> instantiable::<Ed25519Verifier>(registry@, #[trigger] enabled_keys(ks@.keys)[a])),
    {
        validate_keyset(ks)?;
        let ps = PrimitiveSet::<Ed25519Verifier>::new(ks, registry)?;
        Ok(VerifierWrapper { ps })
    }

    /// One pass of verification: whether an entry that the pass tries accepts `sig`.
    fn verify_pass(&self, sig: &[u8], data: &[u8], raw: bool) -> (r: bool)
        ensures
            r == exists|i: int| 0 <= i < self@.0.len() && selected(self@.0[i], sig@, raw)
                && #[trigger] entry_verifies(self@.0[i], sig@, data@),
    {
        let ghost es = self@.0;
        let mut i: usize = 0;
        while i < self.ps.len()
            invariant
                es == self@.0,
                i <= es.len(),
                forall|j: int| 0 <= j < i ==> !(selected(es[j], sig@, raw) && #[trigger] entry_verifies(es[j], sig@, data@)),
            decreases es.len() - i,
        {
            let e = self.ps.entry(i);
            assert(e@ == es[i as int]);
            let tried = if raw {
                e.prefix().len() == 0
            } else {
                e.prefix().len() > 0 && crate::aead_wrapper::starts_with(sig, e.prefix())
            };
            if tried {
                let body = vstd::slice::slice_subrange(sig, e.prefix().len(), sig.len());
                let framed = crate::mac_wrapper::frame(data, e.prefix_type() == OutputPrefixType::Legacy);
                if e.primitive().verify(body, framed.as_slice()) {
                    assert(entry_verifies(es[i as int], sig@, data@));
                    return true;
                }
            }
            i = i + 1;
        }
        false
    }

    /// Verifies `sig` for `data`: first with every key whose prefix begins
    /// `sig`, then with every Raw key. Succeeds when one accepts it; else the
    /// only error is `AuthenticationFailure`.
    pub fn verify(&self, sig: &[u8], data: &[u8]) -> (r: Result<(), TinkError>)
        ensures
            r is Ok <==> spec_sig_verifies(self@.0, sig@, data@),
            r matches Err(e) ==> e == TinkError::AuthenticationFailure,
    {
        if self.verify_pass(sig, data, false) {
            return Ok(());
        }
        if self.verify_pass(sig, data, true) {
            return Ok(());
        }
        Err(TinkError::AuthenticationFailure)
    }
}

} // verus!
