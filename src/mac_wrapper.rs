//! The authentication-code wrapper: tags with the primary key and its prefix,
//! and checks a tag against every key whose prefix matches, then every Raw key.

use vstd::prelude::*;

use crate::error::TinkError;
use crate::gcm_siv::append_bytes;
use crate::keyset::{valid_keyset, validate_keyset};
use crate::mac::{hmac_sha256_of, HmacSha256};
use crate::primitive_set::{enabled_keys, entries_of, entries_wf, instantiable, selected, EntryModel, PrimitiveSet};
use crate::proto::{Keyset, OutputPrefixType};
use crate::registry::Registry;

verus! {

/// The data that entry `e` authenticates for `data`: keys of kind Legacy
/// append one zero byte.
pub open spec fn framed_data(e: EntryModel, data: Seq<u8>) -> Seq<u8> {
    if e.prefix_type == OutputPrefixType::Legacy {
        data.push(0u8)
    } else {
        data
    }
}

/// Whether entry `e` accepts `tag` for `data`, once its prefix is stripped.
pub open spec fn entry_accepts(e: EntryModel, tag: Seq<u8>, data: Seq<u8>) -> bool {
    tag.skip(e.prefix.len() as int) == hmac_sha256_of(e.key, framed_data(e, data))
}

/// Whether some entry that checking tries accepts `tag` for `data`.
pub open spec fn spec_mac_verifies(es: Seq<EntryModel>, tag: Seq<u8>, data: Seq<u8>) -> bool {
    exists|i: int| 0 <= i < es.len() && (selected(es[i], tag, false) || selected(es[i], tag, true))
        && #[trigger] entry_accepts(es[i], tag, data)
}

/// The tag that entry `e` gives `data`: its prefix, then the HMAC of the framed data.
pub open spec fn spec_tag(e: EntryModel, data: Seq<u8>) -> Seq<u8> {
    e.prefix + hmac_sha256_of(e.key, framed_data(e, data))
}

/// Round trip: a tag that the primary entry gives `data` is accepted for
/// `data` by the set it belongs to.
pub proof fn lemma_mac_round_trip(es: Seq<EntryModel>, primary: int, data: Seq<u8>)
    requires
        entries_wf(es, primary),
    ensures
        spec_mac_verifies(es, spec_tag(es[primary], data), data),
{
    let e = es[primary];
    let tag = spec_tag(e, data);
    assert(tag.take(e.prefix.len() as int) =~= e.prefix);
    assert(tag.skip(e.prefix.len() as int) =~= hmac_sha256_of(e.key, framed_data(e, data)));
    assert(entry_accepts(es[primary], tag, data));
}

/// `data`, with one zero byte appended when `legacy` holds.
pub(crate) fn frame(data: &[u8], legacy: bool) -> (r: Vec<u8>)
    ensures
        r@ == if legacy { data@.push(0u8) } else { data@ },
{
    let mut v = vstd::slice::slice_to_vec(data);
    if legacy {
        v.push(0u8);
    }
    v
}

/// The authentication code of a keyset: tags with the primary key and checks
/// with whichever enabled key the tag's prefix, or the Raw fallback, leads to.
pub struct MacWrapper {
    ps: PrimitiveSet<HmacSha256>,
}

impl View for MacWrapper {
    type V = (Seq<EntryModel>, int);

    closed spec fn view(&self) -> (Seq<EntryModel>, int) {
        self.ps@
    }
}

impl MacWrapper {
    /// Whether the wrapper's primitive set is well formed.
    pub open spec fn wf(&self) -> bool {
        entries_wf(self@.0, self@.1)
    }

    /// The wrapper over a well-formed primitive set.
    pub fn new(ps: PrimitiveSet<HmacSha256>) -> (r: MacWrapper)
        requires
            ps.wf(),
        ensures
            r.wf(),
            r@ == ps@,
    {
        MacWrapper { ps }
    }

    /// The wrapper of a keyset: checks the keyset, then builds its primitive set
    /// through `registry`. Fails with `InvalidFormat` on an invalid keyset, and
    /// with `KeyRejected` when a key cannot be turned into a primitive.
    pub fn from_keyset(ks: &Keyset, registry: &Registry) -> (r: Result<MacWrapper, TinkError>)
        requires
            registry.wf(),
        ensures
            r matches Ok(w) ==> w.wf() && w@.0 == entries_of(ks@.keys) && w@.0[w@.1].key_id == ks@.primary_key_id,
            !valid_keyset(ks@) ==> r == Err::<MacWrapper, TinkError>(TinkError::InvalidFormat),
            valid_keyset(ks@) ==> (r is Ok <==> forall|a: int| 0 <= a < enabled_keys(ks@.keys).len()
                ==> instantiable::<HmacSha256>(registry@, #[trigger] enabled_keys(ks@.keys)[a])),
    {
        validate_keyset(ks)?;
        let ps = PrimitiveSet::<HmacSha256>::new(ks, registry)?;
        Ok(MacWrapper { ps })
    }

    /// The tag of `data`: the primary key's prefix, then the HMAC of `data`
    /// (with a zero byte appended when the primary key is of kind Legacy).
    pub fn compute_mac(&self, data: &[u8]) -> (r: Vec<u8>)
        requires
            self.wf(),
        ensures
            r@ == spec_tag(self@.0[self@.1], data@),
            spec_mac_verifies(self@.0, r@, data@),
    {
        let e = self.ps.entry(self.ps.primary());
        assert(e@ == self@.0[self@.1]);
        let framed = frame(data, e.prefix_type() == OutputPrefixType::Legacy);
        let mac = e.primitive().compute_mac(framed.as_slice());
        let mut out: Vec<u8> = Vec::new();
        append_bytes(&mut out, e.prefix());
        append_bytes(&mut out, mac.as_slice());
        proof {
            lemma_mac_round_trip(self@.0, self@.1, data@);
        }
        out
    }

    /// One pass of checking: whether an entry that the pass tries accepts `tag`.
    fn verify_pass(&self, tag: &[u8], data: &[u8], raw: bool) -> (r: bool)
        ensures
            r == exists|i: int| 0 <= i < self@.0.len() && selected(self@.0[i], tag@, raw)
                && #[trigger] entry_accepts(self@.0[i], tag@, data@),
    {
        let ghost es = self@.0;
        let mut i: usize = 0;
        while i < self.ps.len()
            invariant
                es == self@.0,
                i <= es.len(),
                forall|j: int| 0 <= j < i ==> !(selected(es[j], tag@, raw) && #[trigger] entry_accepts(es[j], tag@, data@)),
            decreases es.len() - i,
        {
            let e = self.ps.entry(i);
            assert(e@ == es[i as int]);
            let tried = if raw {
                e.prefix().len() == 0
            } else {
                e.prefix().len() > 0 && e.prefix().len() <= tag.len() && crate::aead_wrapper::starts_with(tag, e.prefix())
            };
            if tried {
                let body = vstd::slice::slice_subrange(tag, e.prefix().len(), tag.len());
                let framed = frame(data, e.prefix_type() == OutputPrefixType::Legacy);
                if e.primitive().verify_mac(body, framed.as_slice()) {
                    assert(entry_accepts(es[i as int], tag@, data@));
                    return true;
                }
            }
            i = i + 1;
        }
        false
    }

    /// Checks `tag` for `data`: first against every key whose prefix begins
    /// `tag`, then against every Raw key. Succeeds when one accepts it; else the
    /// only error is `AuthenticationFailure`.
    pub fn verify_mac(&self, tag: &[u8], data: &[u8]) -> (r: Result<(), TinkError>)
        ensures
            r is Ok <==> spec_mac_verifies(self@.0, tag@, data@),
            r matches Err(e) ==> e == TinkError::AuthenticationFailure,
    {
        if self.verify_pass(tag, data, false) {
            return Ok(());
        }
        if self.verify_pass(tag, data, true) {
            return Ok(());
        }
        proof {
            let es = self@.0;
            assert forall|i: int| 0 <= i < es.len() && (selected(es[i], tag@, false) || selected(es[i], tag@, true))
                implies !#[trigger] entry_accepts(es[i], tag@, data@) by {
            };
        }
        Err(TinkError::AuthenticationFailure)
    }
}

} // verus!
