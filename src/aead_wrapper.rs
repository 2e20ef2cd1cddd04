//! The cipher wrapper: encryption with the primary key and its prefix, and
//! decryption that tries every key whose prefix matches, then every Raw key.

use vstd::prelude::*;

use crate::aead::Aead;
use crate::error::TinkError;
use crate::gcm_siv::{
    append_bytes, gcm_siv_accepts, spec_gcm_siv_decrypt, AesGcmSiv, AES_GCM_SIV_MAX_INPUT, AES_GCM_SIV_NONCE_SIZE, AES_GCM_SIV_TAG_SIZE,
};
use crate::keyset::{
    added_from_template, ids_unique, key_well_formed, prefix_kind, template_prefix, validate_keyset, valid_keyset,
    KeysetModel,
};
use crate::prefix::{lemma_prefix_names_key, spec_output_prefix, NON_RAW_PREFIX_SIZE};
use crate::primitive_set::{entries_of, entries_wf, entry_of, lemma_entries_wf, selected, EntryModel, PrimitiveSet};
use crate::proto::{KeyTemplate, Keyset, OutputPrefixType};
use crate::registry::{EntryView, Registry};

verus! {

/// What entry `e` decrypts `ct` to, once its prefix is stripped.
pub open spec fn entry_open(e: EntryModel, ct: Seq<u8>, aad: Seq<u8>) -> Option<Seq<u8>> {
    spec_gcm_siv_decrypt(e.key, ct.skip(e.prefix.len() as int), aad)
}

/// The first success among the entries from `i` on that one pass tries.
pub open spec fn scan(es: Seq<EntryModel>, i: int, ct: Seq<u8>, aad: Seq<u8>, raw: bool) -> Option<Seq<u8>>
    decreases es.len() - i,
{
    if i < 0 || i >= es.len() {
        None
    } else if selected(es[i], ct, raw) && entry_open(es[i], ct, aad) is Some {
        entry_open(es[i], ct, aad)
    } else {
        scan(es, i + 1, ct, aad, raw)
    }
}

/// What decryption through the entries gives: the first success of the prefix
/// pass, else the first success of the Raw pass, else nothing.
pub open spec fn spec_dispatch_open(es: Seq<EntryModel>, ct: Seq<u8>, aad: Seq<u8>) -> Option<Seq<u8>> {
    match scan(es, 0, ct, aad, false) {
        Some(pt) => Some(pt),
        None => scan(es, 0, ct, aad, true),
    }
}

/// `ct` is what entry `e` makes of `pt` under `aad`: its prefix, followed by a
/// ciphertext that decrypts to `pt` under its key.
pub open spec fn sealed_by(e: EntryModel, pt: Seq<u8>, aad: Seq<u8>, ct: Seq<u8>) -> bool {
    &&& e.prefix.len() <= ct.len()
    &&& ct.take(e.prefix.len() as int) == e.prefix
    &&& spec_gcm_siv_decrypt(e.key, ct.skip(e.prefix.len() as int), aad) == Some(pt)
}

/// Whether sealing accepts a plaintext and associated data of these lengths
/// under a primary key whose prefix has `prefix_len` bytes: AES-GCM-SIV takes
/// them, and the prefixed output fits in a buffer.
pub open spec fn seal_accepts(prefix_len: nat, pt_len: nat, aad_len: nat) -> bool {
    &&& gcm_siv_accepts(pt_len, aad_len)
    &&& prefix_len + AES_GCM_SIV_NONCE_SIZE + pt_len + AES_GCM_SIV_TAG_SIZE <= isize::MAX
}

/// If entry `j` opens `ct` in a pass and no entry from `i` up to `j` does,
/// the pass from `i` gives what `j` gives.
proof fn lemma_scan_reaches(es: Seq<EntryModel>, i: int, j: int, ct: Seq<u8>, aad: Seq<u8>, raw: bool)
    requires
        0 <= i <= j < es.len(),
        selected(es[j], ct, raw),
        entry_open(es[j], ct, aad) is Some,
        forall|k: int| i <= k < j ==> !(selected(es[k], ct, raw) && (#[trigger] entry_open(es[k], ct, aad)) is Some),
    ensures
        scan(es, i, ct, aad, raw) == entry_open(es[j], ct, aad),
    decreases j - i,
{
    if i < j {
        lemma_scan_reaches(es, i + 1, j, ct, aad, raw);
    }
}

/// If some entry from `i` on opens `ct` in a pass, the pass from `i` succeeds.
proof fn lemma_scan_succeeds(es: Seq<EntryModel>, i: int, j: int, ct: Seq<u8>, aad: Seq<u8>, raw: bool)
    requires
        0 <= i <= j < es.len(),
        selected(es[j], ct, raw),
        entry_open(es[j], ct, aad) is Some,
    ensures
        scan(es, i, ct, aad, raw) is Some,
    decreases j - i,
{
    if i < j {
        lemma_scan_succeeds(es, i + 1, j, ct, aad, raw);
    }
}

/// A ciphertext that an entry with a non-empty prefix made decrypts to its
/// plaintext through any well-formed set of entries that holds that entry:
/// no other entry shares its prefix, so it is the first one tried that succeeds.
pub proof fn lemma_sealed_opens(es: Seq<EntryModel>, j: int, pt: Seq<u8>, aad: Seq<u8>, ct: Seq<u8>)
    requires
        entries_wf(es, j),
        es[j].prefix.len() > 0,
        sealed_by(es[j], pt, aad, ct),
    ensures
        spec_dispatch_open(es, ct, aad) == Some(pt),
{
    assert forall|k: int| 0 <= k < j implies !(selected(es[k], ct, false) && (#[trigger] entry_open(es[k], ct, aad)) is Some) by {
        if selected(es[k], ct, false) {
            assert(spec_output_prefix(es[k].prefix_type, es[k].key_id) == Some(es[k].prefix));
            assert(spec_output_prefix(es[j].prefix_type, es[j].key_id) == Some(es[j].prefix));
            assert(es[k].prefix.len() == 5 && es[j].prefix.len() == 5);
            assert(es[k].prefix == es[j].prefix);
            lemma_prefix_names_key(es[j].prefix_type, es[j].key_id, es[k].prefix_type, es[k].key_id);
        }
    };
    lemma_scan_reaches(es, 0, j, ct, aad, false);
}

/// Round trip: what the wrapper seals under a primary key with a non-empty
/// prefix opens again, under the same associated data, to the plaintext.
pub proof fn lemma_round_trip(es: Seq<EntryModel>, primary: int, pt: Seq<u8>, aad: Seq<u8>, ct: Seq<u8>)
    requires
        entries_wf(es, primary),
        es[primary].prefix.len() > 0,
        sealed_by(es[primary], pt, aad, ct),
    ensures
        spec_dispatch_open(es, ct, aad) == Some(pt),
{
    lemma_sealed_opens(es, primary, pt, aad, ct);
}

/// Rotation keeps old ciphertexts readable: after a new key is added from a
/// template (and made primary), a ciphertext that an enabled key with a
/// non-empty prefix made before still decrypts to its plaintext, and the new
/// key's entry carries the new key's id and prefix.
pub proof fn lemma_rotation_keeps_ciphertexts(
    reg: Seq<EntryView>,
    t: KeyTemplate,
    before: KeysetModel,
    added: KeysetModel,
    id: u32,
    p: int,
    pt: Seq<u8>,
    aad: Seq<u8>,
    ct: Seq<u8>,
)
    requires
        valid_keyset(before),
        added_from_template(before, added, reg, t, Ok(id)),
        0 <= p < entries_of(before.keys).len(),
        entries_of(before.keys)[p].prefix.len() > 0,
        sealed_by(entries_of(before.keys)[p], pt, aad, ct),
    ensures
        spec_dispatch_open(entries_of((KeysetModel { primary_key_id: id, ..added }).keys), ct, aad) == Some(pt),
        entries_of(added.keys).last().key_id == id,
        spec_output_prefix(template_prefix(t)->Some_0, id) == Some(entries_of(added.keys).last().prefix),
{
    let nk = added.keys.last();
    let prefix = template_prefix(t)->Some_0;
    assert(added.keys =~= before.keys.push(nk));
    assert(OutputPrefixType::spec_from_i32(prefix.spec_value()) == Some(prefix));
    assert(prefix_kind(nk) == Some(prefix));
    crate::primitive_set::lemma_usable_keys_push(before.keys, nk, false);
    assert(entries_of(added.keys) =~= entries_of(before.keys).push(entry_of(nk)));
    assert(ids_unique(added.keys)) by {
        assert forall|a: int, b: int| 0 <= a < added.keys.len() && 0 <= b < added.keys.len() && a != b
            implies added.keys[a].key_id != added.keys[b].key_id by {
            let n = before.keys.len() as int;
            if a < n && b < n {
            } else if a < n {
                assert(before.keys[a] == added.keys[a]);
            } else {
                assert(before.keys[b] == added.keys[b]);
            }
        };
    };
    assert forall|i: int| 0 <= i < added.keys.len() implies (#[trigger] prefix_kind(added.keys[i])) is Some by {
        if i < before.keys.len() {
            assert(added.keys[i] == before.keys[i]);
            assert(key_well_formed(before.keys[i]));
        }
    };
    lemma_entries_wf(added.keys, p);
    lemma_sealed_opens(entries_of(added.keys), p, pt, aad, ct);
}

/// Raw fallback: when a Raw entry decrypts `ct`, decryption succeeds, whatever
/// the prefix pass found.
pub proof fn lemma_raw_entries_tried(es: Seq<EntryModel>, j: int, ct: Seq<u8>, aad: Seq<u8>)
    requires
        0 <= j < es.len(),
        es[j].prefix.len() == 0,
        entry_open(es[j], ct, aad) is Some,
    ensures
        spec_dispatch_open(es, ct, aad) is Some,
{
    lemma_scan_succeeds(es, 0, j, ct, aad, true);
}

/// Whether `ct` begins with `p`.
pub(crate) fn starts_with(ct: &[u8], p: &[u8]) -> (r: bool)
    ensures
        r == (p@.len() <= ct@.len() && ct@.take(p@.len() as int) == p@),
{
    if p.len() > ct.len() {
        return false;
    }
    let mut i: usize = 0;
    while i < p.len()
        invariant
            p@.len() <= ct@.len(),
            i <= p@.len(),
            forall|k: int| 0 <= k < i ==> ct@[k] == p@[k],
        decreases p@.len() - i,
    {
        if ct[i] != p[i] {
            assert(ct@.take(p@.len() as int)[i as int] != p@[i as int]);
            return false;
        }
        i = i + 1;
    }
    assert(ct@.take(p@.len() as int) =~= p@);
    true
}

/// The cipher of a keyset: encrypts with the primary key and decrypts with
/// whichever enabled key the ciphertext's prefix, or the Raw fallback, leads to.
pub struct AeadWrapper {
    ps: PrimitiveSet<AesGcmSiv>,
}

impl View for AeadWrapper {
    type V = (Seq<EntryModel>, int);

    closed spec fn view(&self) -> (Seq<EntryModel>, int) {
        self.ps@
    }
}

impl AeadWrapper {
    /// Whether the wrapper's primitive set is well formed.
    pub open spec fn wf(&self) -> bool {
        entries_wf(self@.0, self@.1)
    }

    /// The wrapper over a well-formed primitive set.
    pub fn new(ps: PrimitiveSet<AesGcmSiv>) -> (r: AeadWrapper)
        requires
            ps.wf(),
        ensures
            r.wf(),
            r@ == ps@,
    {
        AeadWrapper { ps }
    }

    /// The wrapper of a keyset: checks the keyset, then builds its primitive set
    /// through `registry`. Fails with `InvalidFormat` on an invalid keyset, and
    /// with `KeyRejected` when a key cannot be turned into a primitive.
    pub fn from_keyset(ks: &Keyset, registry: &Registry) -> (r: Result<AeadWrapper, TinkError>)
        requires
            registry.wf(),
        ensures
            r matches Ok(w) ==> w.wf() && w@.0 == crate::primitive_set::entries_of(ks@.keys)
                && w@.0[w@.1].key_id == ks@.primary_key_id,
            !crate::keyset::valid_keyset(ks@) ==> r == Err::<AeadWrapper, TinkError>(TinkError::InvalidFormat),
            crate::keyset::valid_keyset(ks@) ==> (r is Ok <==> forall|a: int|
                0 <= a < crate::primitive_set::enabled_keys(ks@.keys).len()
                ==> crate::primitive_set::instantiable::<AesGcmSiv>(registry@, #[trigger] crate::primitive_set::enabled_keys(ks@.keys)[a])),
    {
        validate_keyset(ks)?;
        let ps = PrimitiveSet::<AesGcmSiv>::new(ks, registry)?;
        Ok(AeadWrapper { ps })
    }

    /// The key id of the primary key.
    pub fn primary_key_id(&self) -> (r: u32)
        requires
            self.wf(),
        ensures
            r == self@.0[self@.1].key_id,
    {
        self.ps.entry(self.ps.primary()).key_id()
    }

    /// Encrypts `pt` with `aad` as associated data under the primary key, and
    /// puts the primary key's prefix in front. Fails with `TooLong` when `pt` or
    /// `aad` is longer than 2^36 bytes, or the output would not fit in a buffer.
    pub fn seal(&self, pt: &[u8], aad: &[u8]) -> (r: Result<Vec<u8>, TinkError>)
        requires
            self.wf(),
        ensures
            r is Ok <==> seal_accepts(self@.0[self@.1].prefix.len(), pt@.len(), aad@.len()),
            r matches Ok(ct) ==> sealed_by(self@.0[self@.1], pt@, aad@, ct@),
            r matches Ok(ct) ==> ct@.len() == self@.0[self@.1].prefix.len() + AES_GCM_SIV_NONCE_SIZE + pt@.len()
                + AES_GCM_SIV_TAG_SIZE,
            r matches Ok(ct) ==> self@.0[self@.1].prefix.len() > 0 ==> spec_dispatch_open(self@.0, ct@, aad@) == Some(pt@),
            r matches Ok(ct) ==> self@.0[self@.1].prefix.len() == 0 ==> spec_dispatch_open(self@.0, ct@, aad@) is Some,
            r matches Err(e) ==> e == TinkError::TooLong,
    {
        let e = self.ps.entry(self.ps.primary());
        assert(e@ == self@.0[self@.1]);
        assert(e@.prefix.len() <= NON_RAW_PREFIX_SIZE) by {
            let pe = self@.0[self@.1];
            assert(spec_output_prefix(pe.prefix_type, pe.key_id) == Some(pe.prefix));
        };
        if pt.len() as u64 > AES_GCM_SIV_MAX_INPUT || aad.len() as u64 > AES_GCM_SIV_MAX_INPUT
            || pt.len() > (isize::MAX as usize) - (AES_GCM_SIV_NONCE_SIZE + AES_GCM_SIV_TAG_SIZE) - e.prefix().len()
            || aad.len() > isize::MAX as usize {
            return Err(TinkError::TooLong);
        }
        let body = e.primitive().encrypt(pt, aad)?;
        let mut out: Vec<u8> = Vec::new();
        append_bytes(&mut out, e.prefix());
        append_bytes(&mut out, body.as_slice());
        proof {
            assert(out@.take(e@.prefix.len() as int) =~= e@.prefix);
            assert(out@.skip(e@.prefix.len() as int) =~= body@);
            if e@.prefix.len() > 0 {
                lemma_round_trip(self@.0, self@.1, pt@, aad@, out@);
            } else {
                assert(out@.skip(0) =~= out@);
                lemma_raw_entries_tried(self@.0, self@.1, out@, aad@);
            }
        }
        Ok(out)
    }

    /// One pass of decryption: the first entry that the pass tries and that
    /// decrypts `ct` gives the plaintext.
    fn open_pass(&self, ct: &[u8], aad: &[u8], raw: bool) -> (r: Option<Vec<u8>>)
        ensures
            match scan(self@.0, 0, ct@, aad@, raw) {
                Some(pt) => r matches Some(v) && v@ == pt,
                None => r is None,
            },
    {
        let ghost es = self@.0;
        let mut i: usize = 0;
        while i < self.ps.len()
            invariant
                es == self@.0,
                i <= es.len(),
                scan(es, 0, ct@, aad@, raw) == scan(es, i as int, ct@, aad@, raw),
            decreases es.len() - i,
        {
            let e = self.ps.entry(i);
            assert(e@ == es[i as int]);
            let tried = if raw {
                e.prefix().len() == 0
            } else {
                e.prefix().len() > 0 && starts_with(ct, e.prefix())
            };
            if tried {
                let body = vstd::slice::slice_subrange(ct, e.prefix().len(), ct.len());
                assert(body@ == ct@.skip(e@.prefix.len() as int));
                match e.primitive().decrypt(body, aad) {
                    Ok(pt) => {
                        return Some(pt);
                    },
                    Err(_) => {},
                }
            }
            i = i + 1;
        }
        None
    }

    /// Decrypts `ct` with `aad` as associated data: first through every key
    /// whose prefix begins `ct`, in keyset order, then through every Raw key.
    /// The first key that succeeds gives the plaintext; when none does, the
    /// only error is `AuthenticationFailure`.
    pub fn open(&self, ct: &[u8], aad: &[u8]) -> (r: Result<Vec<u8>, TinkError>)
        ensures
            match spec_dispatch_open(self@.0, ct@, aad@) {
                Some(pt) => r matches Ok(v) && v@ == pt,
                None => r == Err::<Vec<u8>, TinkError>(TinkError::AuthenticationFailure),
            },
    {
        match self.open_pass(ct, aad, false) {
            Some(pt) => Ok(pt),
            None => match self.open_pass(ct, aad, true) {
                Some(pt) => Ok(pt),
                None => Err(TinkError::AuthenticationFailure),
            },
        }
    }
}

} // verus!
