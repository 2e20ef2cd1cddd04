//! The primitive set: the primitives of a keyset's enabled keys, with the
//! output prefix of each, and the dispatch that produces and consumes
//! prefixed ciphertexts.

use vstd::prelude::*;

use crate::error::TinkError;
use crate::keyset::{
    ids_unique, is_enabled, key_well_formed, manageable, prefix_kind, spec_disable, valid_keyset, KeyModel,
    KeysetModel,
};
use crate::prefix::{output_prefix, spec_output_prefix};
use crate::proto::{KeyStatusType, Keyset, OutputPrefixType};
use crate::registry::{EntryView, Registry};

verus! {

/// A primitive that the registry makes from a key's type URL and bytes.
pub trait FromKey: Sized {
    /// The key bytes the primitive was made from.
    spec fn key_bytes(&self) -> Seq<u8>;

    /// Whether the registry makes a primitive of this kind from a key with this
    /// type URL and these bytes.
    spec fn spec_accepts_key(reg: Seq<EntryView>, type_url: Seq<char>, key: Seq<u8>) -> bool;

    /// Makes the primitive of a key with this type URL and these bytes.
    fn from_key(reg: &Registry, type_url: &String, key: &[u8]) -> (r: Result<Self, TinkError>)
        requires
            reg.wf(),
        ensures
            r is Ok <==> Self::spec_accepts_key(reg@, type_url@, key@),
            r matches Ok(p) ==> p.key_bytes() == key@,
    ;
}

/// One primitive of the set, with the key it came from.
pub struct Entry<P> {
    key_id: u32,
    prefix: Vec<u8>,
    prefix_type: OutputPrefixType,
    primitive: P,
}

/// What an entry holds: its key id, prefix, prefix kind and AES key.
pub ghost struct EntryModel {
    pub key_id: u32,
    pub prefix: Seq<u8>,
    pub prefix_type: OutputPrefixType,
    pub key: Seq<u8>,
}

impl<P: FromKey> View for Entry<P> {
    type V = EntryModel;

    closed spec fn view(&self) -> EntryModel {
        EntryModel { key_id: self.key_id, prefix: self.prefix@, prefix_type: self.prefix_type, key: self.primitive.key_bytes() }
    }
}

impl<P: FromKey> Entry<P> {
    /// The id of the key the entry came from.
    pub fn key_id(&self) -> (r: u32)
        ensures
            r == self@.key_id,
    {
        self.key_id
    }

    /// The output prefix of the entry's key.
    pub fn prefix(&self) -> (r: &[u8])
        ensures
            r@ == self@.prefix,
    {
        self.prefix.as_slice()
    }

    /// The output prefix kind of the entry's key.
    pub fn prefix_type(&self) -> (r: OutputPrefixType)
        ensures
            r == self@.prefix_type,
    {
        self.prefix_type
    }

    /// The entry's primitive.
    pub fn primitive(&self) -> (r: &P)
        ensures
            r.key_bytes() == self@.key,
    {
        &self.primitive
    }
}

/// What the entries hold.
pub open spec fn entry_views<P: FromKey>(s: Seq<Entry<P>>) -> Seq<EntryModel> {
    s.map_values(|e: Entry<P>| e@)
}

/// The primitives of a keyset's enabled keys, in keyset order, and which of
/// them is the primary one. Built once; read only after that.
pub struct PrimitiveSet<P> {
    entries: Vec<Entry<P>>,
    primary: usize,
}

/// Whether a primitive set takes key `k`: enabled keys always, disabled ones
/// when `with_disabled` holds, destroyed ones never.
pub open spec fn usable(k: KeyModel, with_disabled: bool) -> bool {
    is_enabled(k) || (with_disabled && k.status == KeyStatusType::Disabled.spec_value())
}

/// The keys of `keys` that a primitive set takes, in order.
pub open spec fn usable_keys(keys: Seq<KeyModel>, with_disabled: bool) -> Seq<KeyModel>
    decreases keys.len(),
{
    if keys.len() == 0 {
        Seq::empty()
    } else {
        let rest = usable_keys(keys.drop_last(), with_disabled);
        if usable(keys.last(), with_disabled) {
            rest.push(keys.last())
        } else {
            rest
        }
    }
}

/// The entry that a well-formed key gives.
pub open spec fn entry_of(k: KeyModel) -> EntryModel {
    let kind = prefix_kind(k)->Some_0;
    EntryModel {
        key_id: k.key_id,
        prefix: spec_output_prefix(kind, k.key_id)->Some_0,
        prefix_type: kind,
        key: k.key_data->Some_0.value,
    }
}

/// The enabled keys of `keys`, in order.
pub open spec fn enabled_keys(keys: Seq<KeyModel>) -> Seq<KeyModel> {
    usable_keys(keys, false)
}

/// The entries that the keys a primitive set takes give.
pub open spec fn entries_with(keys: Seq<KeyModel>, with_disabled: bool) -> Seq<EntryModel> {
    usable_keys(keys, with_disabled).map_values(|k: KeyModel| entry_of(k))
}

/// The entries that the enabled keys give.
pub open spec fn entries_of(keys: Seq<KeyModel>) -> Seq<EntryModel> {
    entries_with(keys, false)
}

/// Whether consuming `ct` tries entry `e`: in the first pass (`raw` false)
/// the entries whose non-empty prefix begins `ct`, in the second the Raw ones.
pub open spec fn selected(e: EntryModel, ct: Seq<u8>, raw: bool) -> bool {
    if raw {
        e.prefix.len() == 0
    } else {
        0 < e.prefix.len() <= ct.len() && ct.take(e.prefix.len() as int) == e.prefix
    }
}

/// Whether the registry turns the key into a primitive of kind `P`.
pub open spec fn instantiable<P: FromKey>(reg: Seq<EntryView>, k: KeyModel) -> bool {
    &&& k.key_data is Some
    &&& P::spec_accepts_key(reg, k.key_data->Some_0.type_url, k.key_data->Some_0.value)
}

/// A well-formed set of entries with a primary one: ids unique, each prefix the
/// one its kind and id give.
pub open spec fn entries_wf(es: Seq<EntryModel>, primary: int) -> bool {
    &&& 0 <= primary < es.len()
    &&& forall|i: int, j: int| 0 <= i < es.len() && 0 <= j < es.len() && i != j ==> es[i].key_id != es[j].key_id
    &&& forall|i: int| 0 <= i < es.len() ==> spec_output_prefix(es[i].prefix_type, es[i].key_id) == Some(#[trigger] es[i].prefix)
}

proof fn lemma_usable_keys_step(keys: Seq<KeyModel>, i: int, with_disabled: bool)
    requires
        0 <= i < keys.len(),
    ensures
        usable_keys(keys.take(i + 1), with_disabled) == if usable(keys[i], with_disabled) {
            usable_keys(keys.take(i), with_disabled).push(keys[i])
        } else {
            usable_keys(keys.take(i), with_disabled)
        },
{
    assert(keys.take(i + 1).drop_last() =~= keys.take(i));
}

/// The keys a set takes of a prefix of `keys` begin those it takes of `keys`.
proof fn lemma_usable_keys_prefix(keys: Seq<KeyModel>, i: int, with_disabled: bool)
    requires
        0 <= i <= keys.len(),
    ensures
        usable_keys(keys.take(i), with_disabled).len() <= usable_keys(keys, with_disabled).len(),
        forall|a: int| 0 <= a < usable_keys(keys.take(i), with_disabled).len()
            ==> #[trigger] usable_keys(keys.take(i), with_disabled)[a] == usable_keys(keys, with_disabled)[a],
    decreases keys.len(),
{
    if i == keys.len() {
        assert(keys.take(i) =~= keys);
    } else {
        let init = keys.drop_last();
        assert(keys.take(i) =~= init.take(i));
        lemma_usable_keys_prefix(init, i, with_disabled);
    }
}

/// Every key a set takes comes from the keys, and is one it may take.
pub proof fn lemma_usable_keys_from(keys: Seq<KeyModel>, with_disabled: bool)
    ensures
        forall|a: int| 0 <= a < usable_keys(keys, with_disabled).len() ==> usable(#[trigger] usable_keys(keys, with_disabled)[a], with_disabled)
            && exists|j: int| 0 <= j < keys.len() && keys[j] == usable_keys(keys, with_disabled)[a],
    decreases keys.len(),
{
    if keys.len() > 0 {
        lemma_usable_keys_from(keys.drop_last(), with_disabled);
        let rest = usable_keys(keys.drop_last(), with_disabled);
        assert forall|a: int| 0 <= a < usable_keys(keys, with_disabled).len() implies usable(#[trigger] usable_keys(keys, with_disabled)[a], with_disabled)
            && exists|j: int| 0 <= j < keys.len() && keys[j] == usable_keys(keys, with_disabled)[a] by {
            if a < rest.len() {
                let j = choose|j: int| 0 <= j < keys.drop_last().len() && keys.drop_last()[j] == rest[a];
                assert(keys[j] == usable_keys(keys, with_disabled)[a]);
            } else {
                assert(keys[keys.len() - 1] == usable_keys(keys, with_disabled)[a]);
            }
        };
    }
}

/// The keys a set takes of keys with unique ids have unique ids.
proof fn lemma_usable_ids_unique(keys: Seq<KeyModel>, with_disabled: bool)
    requires
        ids_unique(keys),
    ensures
        ids_unique(usable_keys(keys, with_disabled)),
    decreases keys.len(),
{
    if keys.len() > 0 {
        let init = keys.drop_last();
        assert(ids_unique(init)) by {
            assert forall|a: int, b: int| 0 <= a < init.len() && 0 <= b < init.len() && a != b
                implies init[a].key_id != init[b].key_id by {
                assert(init[a] == keys[a] && init[b] == keys[b]);
            };
        };
        lemma_usable_ids_unique(init, with_disabled);
        lemma_usable_keys_from(init, with_disabled);
        let rest = usable_keys(init, with_disabled);
        let en = usable_keys(keys, with_disabled);
        if usable(keys.last(), with_disabled) {
            assert forall|a: int, b: int| 0 <= a < en.len() && 0 <= b < en.len() && a != b
                implies en[a].key_id != en[b].key_id by {
                if a < rest.len() && b < rest.len() {
                } else if a < rest.len() {
                    let j = choose|j: int| 0 <= j < init.len() && init[j] == rest[a];
                    assert(keys[j] == rest[a]);
                } else {
                    let j = choose|j: int| 0 <= j < init.len() && init[j] == rest[b];
                    assert(keys[j] == rest[b]);
                }
            };
        }
    }
}

/// Appending a key appends it to those a set takes when it is one it may take.
pub proof fn lemma_usable_keys_push(keys: Seq<KeyModel>, k: KeyModel, with_disabled: bool)
    ensures
        usable_keys(keys.push(k), with_disabled) == if usable(k, with_disabled) {
            usable_keys(keys, with_disabled).push(k)
        } else {
            usable_keys(keys, with_disabled)
        },
{
    assert(keys.push(k).drop_last() =~= keys);
}

/// The entries of keys with unique ids and known prefix kinds are well formed,
/// with any of them as the primary one.
pub proof fn lemma_entries_wf(keys: Seq<KeyModel>, p: int)
    requires
        ids_unique(keys),
        forall|i: int| 0 <= i < keys.len() ==> (#[trigger] prefix_kind(keys[i])) is Some,
        0 <= p < enabled_keys(keys).len(),
    ensures
        entries_wf(entries_of(keys), p),
{
    lemma_usable_ids_unique(keys, false);
    lemma_usable_keys_from(keys, false);
    let en = enabled_keys(keys);
    let es = entries_of(keys);
    assert forall|a: int| 0 <= a < es.len() implies spec_output_prefix(es[a].prefix_type, es[a].key_id) == Some(#[trigger] es[a].prefix) by {
        let j = choose|j: int| 0 <= j < keys.len() && keys[j] == en[a];
        assert(prefix_kind(keys[j]) is Some);
    };
    assert forall|a: int, b: int| 0 <= a < es.len() && 0 <= b < es.len() && a != b implies es[a].key_id != es[b].key_id by {
        assert(en[a].key_id != en[b].key_id);
    };
}

/// Disabling a key takes it out of every primitive set built afterwards: no
/// entry has its id, so nothing is decrypted with it.
pub proof fn lemma_disabled_key_excluded(before: KeysetModel, id: u32)
    requires
        manageable(before),
        spec_disable(before, id) is Ok,
    ensures
        forall|a: int| 0 <= a < entries_of(spec_disable(before, id)->Ok_0.keys).len()
            ==> (#[trigger] entries_of(spec_disable(before, id)->Ok_0.keys)[a]).key_id != id,
{
    let after = spec_disable(before, id)->Ok_0;
    let i = crate::keyset::key_index(before.keys, id);
    let en = enabled_keys(after.keys);
    lemma_usable_keys_from(after.keys, false);
    assert forall|a: int| 0 <= a < entries_of(after.keys).len() implies (#[trigger] entries_of(after.keys)[a]).key_id != id by {
        let j = choose|j: int| 0 <= j < after.keys.len() && after.keys[j] == en[a];
        if en[a].key_id == id {
            assert(before.keys[j].key_id == after.keys[j].key_id);
            assert(j == i);
        }
    };
}

impl<P: FromKey> View for PrimitiveSet<P> {
    type V = (Seq<EntryModel>, int);

    closed spec fn view(&self) -> (Seq<EntryModel>, int) {
        (entry_views(self.entries@), self.primary as int)
    }
}

impl<P: FromKey> PrimitiveSet<P> {
    /// Whether the set is well formed.
    pub open spec fn wf(&self) -> bool {
        entries_wf(self@.0, self@.1)
    }

    /// How many entries the set holds.
    pub fn len(&self) -> (r: usize)
        ensures
            r == self@.0.len(),
    {
        self.entries.len()
    }

    /// The entry at position `i`, in keyset order.
    pub fn entry(&self, i: usize) -> (r: &Entry<P>)
        requires
            i < self@.0.len(),
        ensures
            r@ == self@.0[i as int],
    {
        &self.entries[i]
    }

    /// The position of the primary key's entry.
    pub fn primary(&self) -> (r: usize)
        ensures
            r == self@.1,
    {
        self.primary
    }

    /// Builds the primitive set of a valid keyset: one entry for each enabled key,
    /// in keyset order, made through `registry`; the set that decryption and
    /// verification use.
    ///
    /// Fails with `KeyRejected` naming the first enabled key that the registry
    /// does not turn into a primitive.
    pub fn new(ks: &Keyset, registry: &Registry) -> (r: Result<PrimitiveSet<P>, TinkError>)
        requires
            valid_keyset(ks@),
            registry.wf(),
        ensures
            r is Ok <==> forall|a: int| 0 <= a < enabled_keys(ks@.keys).len()
                ==> instantiable::<P>(registry@, #[trigger] enabled_keys(ks@.keys)[a]),
            r matches Ok(ps) ==> ps.wf() && ps@.0 == entries_of(ks@.keys)
                && ps@.0[ps@.1].key_id == ks@.primary_key_id,
            r matches Err(e) ==> exists|a: int| 0 <= a < enabled_keys(ks@.keys).len()
                && !instantiable::<P>(registry@, #[trigger] enabled_keys(ks@.keys)[a])
                && e == TinkError::KeyRejected(enabled_keys(ks@.keys)[a].key_id),
    {
        let r = PrimitiveSet::<P>::build(ks, registry, false);
        proof {
            let en = enabled_keys(ks@.keys);
            let us = usable_keys(ks@.keys, false);
            assert(en == us);
            if r is Ok {
                assert forall|a: int| 0 <= a < en.len() implies instantiable::<P>(registry@, #[trigger] en[a]) by {
                    assert(instantiable::<P>(registry@, us[a]));
                };
            } else {
                let a = choose|a: int| 0 <= a < us.len() && !instantiable::<P>(registry@, #[trigger] us[a])
                    && r == Err::<PrimitiveSet<P>, TinkError>(TinkError::KeyRejected(us[a].key_id));
                assert(!instantiable::<P>(registry@, en[a]));
            }
        }
        r
    }

    /// Builds the primitive set of a valid keyset with one entry for each
    /// enabled key and, when `with_disabled` holds, each disabled key too, in
    /// keyset order, made through `registry`. Destroyed keys never have one.
    ///
    /// Fails with `KeyRejected` naming the first key taken that the registry
    /// does not turn into a primitive.
    pub fn build(ks: &Keyset, registry: &Registry, with_disabled: bool) -> (r: Result<PrimitiveSet<P>, TinkError>)
        requires
            valid_keyset(ks@),
            registry.wf(),
        ensures
            r is Ok <==> forall|a: int| 0 <= a < usable_keys(ks@.keys, with_disabled).len()
                ==> instantiable::<P>(registry@, #[trigger] usable_keys(ks@.keys, with_disabled)[a]),
            r matches Ok(ps) ==> ps.wf() && ps@.0 == entries_with(ks@.keys, with_disabled)
                && ps@.0[ps@.1].key_id == ks@.primary_key_id,
            r matches Err(e) ==> exists|a: int| 0 <= a < usable_keys(ks@.keys, with_disabled).len()
                && !instantiable::<P>(registry@, #[trigger] usable_keys(ks@.keys, with_disabled)[a])
                && e == TinkError::KeyRejected(usable_keys(ks@.keys, with_disabled)[a].key_id),
    {
        let ghost keys = ks@.keys;
        let mut entries: Vec<Entry<P>> = Vec::new();
        let mut primary: Option<usize> = None;
        let mut i: usize = 0;
        proof {
            assert(keys.take(0) =~= Seq::<KeyModel>::empty());
        }
        while i < ks.key.len()
            invariant
                keys == ks@.keys,
                valid_keyset(ks@),
                registry.wf(),
                i <= keys.len(),
                entry_views(entries@) == entries_with(keys.take(i as int), with_disabled),
                forall|a: int| 0 <= a < usable_keys(keys.take(i as int), with_disabled).len()
                    ==> instantiable::<P>(registry@, #[trigger] usable_keys(keys.take(i as int), with_disabled)[a]),
                forall|a: int| 0 <= a < usable_keys(keys.take(i as int), with_disabled).len()
                    ==> exists|j: int| 0 <= j < i && keys[j] == #[trigger] usable_keys(keys.take(i as int), with_disabled)[a],
                match primary {
                    Some(p) => p < entries@.len() && entries@[p as int].key_id == ks.primary_key_id,
                    None => forall|j: int| 0 <= j < i ==> keys[j].key_id != ks.primary_key_id,
                },
            decreases keys.len() - i,
        {
            let k = &ks.key[i];
            proof {
                assert(keys[i as int] == k@);
                assert(key_well_formed(keys[i as int]));
                lemma_usable_keys_step(keys, i as int, with_disabled);
                lemma_usable_keys_from(keys.take(i as int), with_disabled);
            }
            if k.status == 1 || (with_disabled && k.status == 2) {
                let kind = match OutputPrefixType::from_i32(k.output_prefix_type) {
                    Some(kind) => kind,
                    None => {
                        return Err(TinkError::InvalidFormat);
                    },
                };
                let prefix = match output_prefix(kind, k.key_id) {
                    Ok(p) => p,
                    Err(e) => {
                        return Err(e);
                    },
                };
                let data = match &k.key_data {
                    Some(d) => d,
                    None => {
                        return Err(TinkError::InvalidFormat);
                    },
                };
                let primitive = match P::from_key(registry, &data.type_url, data.value.as_slice()) {
                    Ok(p) => p,
                    Err(_) => {
                        proof {
                            let en = usable_keys(keys.take(i as int + 1), with_disabled);
                            assert(en[en.len() - 1] == keys[i as int]);
                            lemma_usable_keys_prefix(keys, i as int + 1, with_disabled);
                            assert(usable_keys(keys, with_disabled)[en.len() - 1] == keys[i as int]);
                        }
                        return Err(TinkError::KeyRejected(k.key_id));
                    },
                };
                if k.key_id == ks.primary_key_id {
                    primary = Some(entries.len());
                }
                let ghost old_entries = entries@;
                entries.push(Entry { key_id: k.key_id, prefix, prefix_type: kind, primitive });
                proof {
                    let en = usable_keys(keys.take(i as int + 1), with_disabled);
                    let prev = usable_keys(keys.take(i as int), with_disabled);
                    assert(usable(keys[i as int], with_disabled));
                    assert(en == prev.push(keys[i as int]));
                    let ev_old = entry_views(old_entries);
                    let ev_new = entry_views(entries@);
                    assert(ev_old == entries_with(keys.take(i as int), with_disabled));
                    assert(ev_old.len() == prev.len());
                    assert(ev_new.len() == ev_old.len() + 1);
                    assert(ev_new[ev_new.len() - 1] == entry_of(keys[i as int]));
                    assert forall|a: int| 0 <= a < en.len() implies
                        #[trigger] ev_new[a] == entries_with(keys.take(i as int + 1), with_disabled)[a] by {
                        if a < en.len() - 1 {
                            assert(entries@[a] == old_entries[a]);
                            assert(ev_old[a] == entries_with(keys.take(i as int), with_disabled)[a]);
                            assert(en[a] == prev[a]);
                        }
                    };
                    assert(ev_new =~= entries_with(keys.take(i as int + 1), with_disabled));
                    assert forall|a: int| 0 <= a < en.len() implies exists|j: int| 0 <= j < i + 1 && keys[j] == #[trigger] en[a] by {
                        if a == en.len() - 1 {
                            assert(keys[i as int] == en[a]);
                        } else {
                            assert(en[a] == usable_keys(keys.take(i as int), with_disabled)[a]);
                        }
                    };
                    assert forall|a: int| 0 <= a < en.len() implies instantiable::<P>(registry@, #[trigger] en[a]) by {
                        if a < en.len() - 1 {
                            assert(en[a] == usable_keys(keys.take(i as int), with_disabled)[a]);
                        }
                    };
                }
            } else {
                proof {
                    let en = usable_keys(keys.take(i as int + 1), with_disabled);
                    assert forall|a: int| 0 <= a < en.len() implies exists|j: int| 0 <= j < i + 1 && keys[j] == #[trigger] en[a] by {
                        assert(en[a] == usable_keys(keys.take(i as int), with_disabled)[a]);
                    };
                }
            }
            i = i + 1;
        }
        proof {
            assert(keys.take(i as int) =~= keys);
        }
        let p = match primary {
            Some(p) => p,
            None => {
                proof {
                    assert(false);
                }
                return Err(TinkError::InvalidState);
            },
        };
        let ps = PrimitiveSet { entries, primary: p };
        proof {
            let es = ps@.0;
            let en = usable_keys(keys, with_disabled);
            lemma_usable_keys_from(keys, with_disabled);
            assert forall|a: int, b: int| 0 <= a < es.len() && 0 <= b < es.len() && a != b implies es[a].key_id != es[b].key_id by {
                lemma_usable_ids_unique(keys, with_disabled);
            };
            assert forall|a: int| 0 <= a < es.len() implies spec_output_prefix(es[a].prefix_type, es[a].key_id) == Some(#[trigger] es[a].prefix) by {
                let j = choose|j: int| 0 <= j < keys.len() && keys[j] == en[a];
                assert(key_well_formed(keys[j]));
            };
        }
        Ok(ps)
    }
}

} // verus!
