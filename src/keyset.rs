//! Keysets: their validity, and the manager that changes them.

use vstd::prelude::*;

use crate::error::TinkError;
use crate::gcm_siv::random_u32;
use crate::proto::{Key, KeyData, KeyMaterialType, KeyStatusType, KeyTemplate, Keyset, OutputPrefixType};
use crate::registry::{spec_key_size_of_format, spec_lookup, EntryView, Registry};

verus! {

/// What a `KeyData` holds.
pub ghost struct KeyDataModel {
    pub type_url: Seq<char>,
    pub value: Seq<u8>,
    pub key_material_type: i32,
}

/// What a `Key` holds.
pub ghost struct KeyModel {
    pub key_data: Option<KeyDataModel>,
    pub status: i32,
    pub key_id: u32,
    pub output_prefix_type: i32,
}

/// What a `Keyset` holds.
pub ghost struct KeysetModel {
    pub primary_key_id: u32,
    pub keys: Seq<KeyModel>,
}

impl View for KeyData {
    type V = KeyDataModel;

    open spec fn view(&self) -> KeyDataModel {
        KeyDataModel { type_url: self.type_url@, value: self.value@, key_material_type: self.key_material_type }
    }
}

impl View for Key {
    type V = KeyModel;

    open spec fn view(&self) -> KeyModel {
        KeyModel {
            key_data: match self.key_data {
                Some(d) => Some(d@),
                None => None,
            },
            status: self.status,
            key_id: self.key_id,
            output_prefix_type: self.output_prefix_type,
        }
    }
}

impl View for Keyset {
    type V = KeysetModel;

    open spec fn view(&self) -> KeysetModel {
        KeysetModel { primary_key_id: self.primary_key_id, keys: self.key@.map_values(|k: Key| k@) }
    }
}

/// The status number of an enabled key.
pub open spec fn enabled_status() -> i32 {
    KeyStatusType::Enabled.spec_value()
}

/// Whether `k` is enabled.
pub open spec fn is_enabled(k: KeyModel) -> bool {
    k.status == enabled_status()
}

/// Whether `k` is destroyed.
pub open spec fn is_destroyed(k: KeyModel) -> bool {
    k.status == KeyStatusType::Destroyed.spec_value()
}

/// The output prefix kind of `k`, where it names a known kind.
pub open spec fn prefix_kind(k: KeyModel) -> Option<OutputPrefixType> {
    match OutputPrefixType::spec_from_i32(k.output_prefix_type) {
        Some(OutputPrefixType::UnknownPrefix) => None,
        other => other,
    }
}

/// A key on its own is well formed: its status and prefix kind are known, and
/// it holds key data exactly when it is not destroyed.
pub open spec fn key_well_formed(k: KeyModel) -> bool {
    &&& (k.status == KeyStatusType::Enabled.spec_value() || k.status == KeyStatusType::Disabled.spec_value()
        || k.status == KeyStatusType::Destroyed.spec_value())
    &&& prefix_kind(k) is Some
    &&& (is_destroyed(k) <==> k.key_data is None)
}

/// No key id appears twice.
pub open spec fn ids_unique(keys: Seq<KeyModel>) -> bool {
    forall|i: int, j: int| 0 <= i < keys.len() && 0 <= j < keys.len() && i != j ==> keys[i].key_id != keys[j].key_id
}

/// Whether some key has this id.
pub open spec fn has_key(keys: Seq<KeyModel>, id: u32) -> bool {
    exists|i: int| 0 <= i < keys.len() && keys[i].key_id == id
}

/// The position of the key with this id.
pub open spec fn key_index(keys: Seq<KeyModel>, id: u32) -> int {
    choose|i: int| 0 <= i < keys.len() && keys[i].key_id == id
}

/// What a keyset manager keeps true at all times: ids are unique, every key is
/// well formed, and the primary id names no key or an enabled one.
pub open spec fn manageable(m: KeysetModel) -> bool {
    &&& ids_unique(m.keys)
    &&& forall|i: int| 0 <= i < m.keys.len() ==> key_well_formed(#[trigger] m.keys[i])
    &&& forall|i: int| 0 <= i < m.keys.len() && m.keys[i].key_id == m.primary_key_id ==> is_enabled(m.keys[i])
}

/// A keyset is valid: it is not empty, its ids are unique, every key is well
/// formed, and the primary id names an enabled key.
pub open spec fn valid_keyset(m: KeysetModel) -> bool {
    &&& m.keys.len() > 0
    &&& manageable(m)
    &&& has_key(m.keys, m.primary_key_id)
}

/// `k` with another status.
pub open spec fn with_status(k: KeyModel, status: i32) -> KeyModel {
    KeyModel { status, ..k }
}

/// Making `id` the primary key.
pub open spec fn spec_set_primary(m: KeysetModel, id: u32) -> Result<KeysetModel, TinkError> {
    if !has_key(m.keys, id) {
        Err(TinkError::NotFound)
    } else if !is_enabled(m.keys[key_index(m.keys, id)]) {
        Err(TinkError::InvalidState)
    } else {
        Ok(KeysetModel { primary_key_id: id, ..m })
    }
}

/// Enabling the key `id`.
pub open spec fn spec_enable(m: KeysetModel, id: u32) -> Result<KeysetModel, TinkError> {
    if !has_key(m.keys, id) {
        Err(TinkError::NotFound)
    } else if is_destroyed(m.keys[key_index(m.keys, id)]) {
        Err(TinkError::InvalidState)
    } else {
        let i = key_index(m.keys, id);
        Ok(KeysetModel { keys: m.keys.update(i, with_status(m.keys[i], enabled_status())), ..m })
    }
}

/// Disabling the key `id`.
pub open spec fn spec_disable(m: KeysetModel, id: u32) -> Result<KeysetModel, TinkError> {
    if !has_key(m.keys, id) {
        Err(TinkError::NotFound)
    } else if id == m.primary_key_id || is_destroyed(m.keys[key_index(m.keys, id)]) {
        Err(TinkError::InvalidState)
    } else {
        let i = key_index(m.keys, id);
        Ok(KeysetModel {
            keys: m.keys.update(i, with_status(m.keys[i], KeyStatusType::Disabled.spec_value())),
            ..m
        })
    }
}

/// Destroying the key `id`: its key data goes, its id and metadata stay.
pub open spec fn spec_destroy(m: KeysetModel, id: u32) -> Result<KeysetModel, TinkError> {
    if !has_key(m.keys, id) {
        Err(TinkError::NotFound)
    } else if id == m.primary_key_id {
        Err(TinkError::InvalidState)
    } else {
        let i = key_index(m.keys, id);
        let k = m.keys[i];
        Ok(KeysetModel {
            keys: m.keys.update(i, KeyModel { key_data: None, status: KeyStatusType::Destroyed.spec_value(), ..k }),
            ..m
        })
    }
}

/// Adding a new enabled key with this data, prefix kind and id.
pub open spec fn spec_add_key(m: KeysetModel, data: KeyDataModel, prefix: OutputPrefixType, id: u32) -> Result<KeysetModel, TinkError> {
    if prefix == OutputPrefixType::UnknownPrefix {
        Err(TinkError::InvalidFormat)
    } else if has_key(m.keys, id) {
        Err(TinkError::InvalidState)
    } else {
        Ok(KeysetModel {
            keys: m.keys.push(KeyModel {
                key_data: Some(data),
                status: enabled_status(),
                key_id: id,
                output_prefix_type: prefix.spec_value(),
            }),
            ..m
        })
    }
}

/// The prefix kind a template asks for, where it names a known kind.
pub open spec fn template_prefix(t: KeyTemplate) -> Option<OutputPrefixType> {
    match OutputPrefixType::spec_from_i32(t.output_prefix_type) {
        Some(OutputPrefixType::UnknownPrefix) => None,
        other => other,
    }
}

/// Checks a template against a registry, in the order `add` does: its prefix
/// kind must be known, its type URL registered, and its key format accepted.
/// Gives the material class, the key size and the prefix kind of the new key.
pub open spec fn spec_template_check(reg: Seq<EntryView>, t: KeyTemplate) -> Result<(KeyMaterialType, nat, OutputPrefixType), TinkError> {
    match template_prefix(t) {
        None => Err(TinkError::InvalidFormat),
        Some(prefix) => match spec_lookup(reg, t.type_url@) {
            None => Err(TinkError::NotFound),
            Some(e) => match spec_key_size_of_format(e.2, t.value@) {
                None => Err(TinkError::InvalidFormat),
                Some(size) => Ok((e.1, size, prefix)),
            },
        },
    }
}

/// `k` is a new key made from template `t`: enabled, with id `id`, the
/// template's type URL and prefix kind, `material` as material class, and a key
/// of `size` bytes.
pub open spec fn made_from_template(k: KeyModel, t: KeyTemplate, material: KeyMaterialType, size: nat, prefix: OutputPrefixType, id: u32) -> bool {
    &&& k.key_id == id
    &&& k.status == enabled_status()
    &&& k.output_prefix_type == prefix.spec_value()
    &&& k.key_data matches Some(d) && d.type_url == t.type_url@ && d.value.len() == size
        && d.key_material_type == material.spec_value()
}

/// What `add` may leave: the keys of `old` with one new key made from `t` after
/// them and the primary unchanged, or, when every id it drew was taken,
/// `InvalidState` and nothing changed.
pub open spec fn added_from_template(old: KeysetModel, new: KeysetModel, reg: Seq<EntryView>, t: KeyTemplate, r: Result<u32, TinkError>) -> bool {
    match spec_template_check(reg, t) {
        Err(e) => r == Err::<u32, TinkError>(e) && new == old,
        Ok((material, size, prefix)) => match r {
            Ok(id) => {
                &&& !has_key(old.keys, id)
                &&& new.primary_key_id == old.primary_key_id
                &&& new.keys.len() == old.keys.len() + 1
                &&& new.keys.drop_last() == old.keys
                &&& made_from_template(new.keys.last(), t, material, size, prefix, id)
            },
            Err(e) => e == TinkError::InvalidState && new == old,
        },
    }
}

/// Neither destroying nor disabling the primary key is allowed: both fail with
/// `InvalidState` and leave the keyset as it was.
pub proof fn lemma_primary_protected(m: KeysetModel)
    requires
        has_key(m.keys, m.primary_key_id),
    ensures
        spec_destroy(m, m.primary_key_id) == Err::<KeysetModel, TinkError>(TinkError::InvalidState),
        spec_disable(m, m.primary_key_id) == Err::<KeysetModel, TinkError>(TinkError::InvalidState),
{
}

/// A keyset without keys is never valid.
pub proof fn lemma_empty_keyset_invalid(m: KeysetModel)
    requires
        m.keys.len() == 0,
    ensures
        !valid_keyset(m),
{
}

proof fn lemma_key_index(keys: Seq<KeyModel>, i: int)
    requires
        ids_unique(keys),
        0 <= i < keys.len(),
    ensures
        has_key(keys, keys[i].key_id),
        key_index(keys, keys[i].key_id) == i,
{
    assert(has_key(keys, keys[i].key_id));
}

/// Finds the position of the key with id `id`.
fn find_key(keys: &Vec<Key>, id: u32) -> (r: Option<usize>)
    ensures
        match r {
            Some(i) => i < keys@.len() && keys@[i as int].key_id == id,
            None => forall|j: int| 0 <= j < keys@.len() ==> keys@[j].key_id != id,
        },
{
    let mut i: usize = 0;
    while i < keys.len()
        invariant
            i <= keys@.len(),
            forall|j: int| 0 <= j < i ==> keys@[j].key_id != id,
        decreases keys@.len() - i,
    {
        if keys[i].key_id == id {
            return Some(i);
        }
        i = i + 1;
    }
    None
}

/// Checks that `ks` is a valid keyset: not empty, with unique ids, well-formed
/// keys, and an enabled primary key.
pub fn validate_keyset(ks: &Keyset) -> (r: Result<(), TinkError>)
    ensures
        r is Ok <==> valid_keyset(ks@),
        r matches Err(e) ==> e == TinkError::InvalidFormat,
{
    let n = ks.key.len();
    if n == 0 {
        return Err(TinkError::InvalidFormat);
    }
    let ghost m = ks@;
    let mut primary_found = false;
    let mut i: usize = 0;
    while i < n
        invariant
            n == ks.key@.len(),
            m == ks@,
            i <= n,
            forall|a: int, b: int| 0 <= a < i && 0 <= b < n && a != b ==> m.keys[a].key_id != m.keys[b].key_id,
            forall|a: int| 0 <= a < i ==> key_well_formed(#[trigger] m.keys[a]),
            forall|a: int| 0 <= a < i && m.keys[a].key_id == m.primary_key_id ==> is_enabled(m.keys[a]),
            primary_found <==> exists|a: int| 0 <= a < i && m.keys[a].key_id == m.primary_key_id,
        decreases n - i,
    {
        let k = &ks.key[i];
        assert(m.keys[i as int] == k@);
        let status_ok = k.status == 1 || k.status == 2 || k.status == 3;
        let prefix_ok = match OutputPrefixType::from_i32(k.output_prefix_type) {
            Some(OutputPrefixType::UnknownPrefix) => false,
            Some(_) => true,
            None => false,
        };
        let data_ok = (k.status == 3) == k.key_data.is_none();
        if !(status_ok && prefix_ok && data_ok) {
            return Err(TinkError::InvalidFormat);
        }
        if k.key_id == ks.primary_key_id {
            if k.status != 1 {
                return Err(TinkError::InvalidFormat);
            }
            primary_found = true;
        }
        let mut j: usize = 0;
        while j < n
            invariant
                n == ks.key@.len(),
                m == ks@,
                i < n,
                j <= n,
                forall|b: int| 0 <= b < j && b != i ==> m.keys[i as int].key_id != m.keys[b].key_id,
            decreases n - j,
        {
            if j != i && ks.key[j].key_id == ks.key[i].key_id {
                assert(m.keys[j as int] == ks.key@[j as int]@);
                return Err(TinkError::InvalidFormat);
            }
            assert(m.keys[j as int] == ks.key@[j as int]@);
            j = j + 1;
        }
        i = i + 1;
    }
    if !primary_found {
        return Err(TinkError::InvalidFormat);
    }
    Ok(())
}

/// A copy of `d`.
pub fn copy_key_data(d: &KeyData) -> (r: KeyData)
    ensures
        r@ == d@,
{
    KeyData {
        type_url: d.type_url.clone(),
        value: vstd::slice::slice_to_vec(d.value.as_slice()),
        key_material_type: d.key_material_type,
    }
}

/// A copy of `k`.
pub fn copy_key(k: &Key) -> (r: Key)
    ensures
        r@ == k@,
{
    let key_data = match &k.key_data {
        Some(d) => Some(copy_key_data(d)),
        None => None,
    };
    Key { key_data, status: k.status, key_id: k.key_id, output_prefix_type: k.output_prefix_type }
}

/// A copy of `ks`.
pub fn copy_keyset(ks: &Keyset) -> (r: Keyset)
    ensures
        r@ == ks@,
{
    let mut keys: Vec<Key> = Vec::new();
    let mut i: usize = 0;
    while i < ks.key.len()
        invariant
            i <= ks.key@.len(),
            keys@.len() == i,
            forall|j: int| 0 <= j < i ==> keys@[j]@ == ks.key@[j]@,
        decreases ks.key@.len() - i,
    {
        keys.push(copy_key(&ks.key[i]));
        i = i + 1;
    }
    let r = Keyset { primary_key_id: ks.primary_key_id, key: keys };
    assert(r@.keys =~= ks@.keys);
    r
}

/// Sets the status of the key at `i`, and drops its key data when `clear` holds.
fn restate_key(keys: &mut Vec<Key>, i: usize, status: i32, clear: bool)
    requires
        i < old(keys)@.len(),
    ensures
        final(keys)@.map_values(|k: Key| k@) == old(keys)@.map_values(|k: Key| k@).update(
            i as int,
            KeyModel {
                key_data: if clear { None } else { old(keys)@[i as int]@.key_data },
                status,
                ..old(keys)@[i as int]@
            },
        ),
{
    let mut k = keys.remove(i);
    k.status = status;
    if clear {
        k.key_data = None;
    }
    keys.insert(i, k);
    assert(final(keys)@.map_values(|k: Key| k@) =~= old(keys)@.map_values(|k: Key| k@).update(
        i as int,
        KeyModel {
            key_data: if clear { None } else { old(keys)@[i as int]@.key_data },
            status,
            ..old(keys)@[i as int]@
        },
    ));
}

/// The only sanctioned way to change which keys a keyset holds and in which
/// state they are. Every operation either succeeds or changes nothing.
pub struct KeysetManager {
    keyset: Keyset,
}

impl View for KeysetManager {
    type V = KeysetModel;

    closed spec fn view(&self) -> KeysetModel {
        self.keyset@
    }
}

/// How many random key ids `add` draws, re-drawing when an id is taken,
/// before it gives up with `InvalidState`.
pub const KEY_ID_DRAWS: usize = 32;

impl KeysetManager {
    /// Whether the manager's keyset is manageable.
    pub open spec fn wf(&self) -> bool {
        manageable(self@)
    }

    /// A manager of an empty keyset.
    pub fn new() -> (r: KeysetManager)
        ensures
            r.wf(),
            r@.keys.len() == 0,
            r@.primary_key_id == 0,
    {
        let r = KeysetManager { keyset: Keyset { primary_key_id: 0, key: Vec::new() } };
        assert(r@.keys =~= Seq::<KeyModel>::empty());
        r
    }

    /// A manager of `ks`, which must be valid.
    pub fn from_keyset(ks: Keyset) -> (r: Result<KeysetManager, TinkError>)
        ensures
            r is Ok <==> valid_keyset(ks@),
            r matches Ok(m) ==> m.wf() && m@ == ks@,
            r matches Err(e) ==> e == TinkError::InvalidFormat,
    {
        validate_keyset(&ks)?;
        Ok(KeysetManager { keyset: ks })
    }

    /// A copy of the managed keyset, when it is valid; `InvalidFormat` when it is
    /// empty or has no primary key.
    pub fn keyset(&self) -> (r: Result<Keyset, TinkError>)
        requires
            self.wf(),
        ensures
            r is Ok <==> valid_keyset(self@),
            r matches Ok(ks) ==> ks@ == self@,
            r matches Err(e) ==> e == TinkError::InvalidFormat,
    {
        if self.keyset.key.len() == 0 {
            return Err(TinkError::InvalidFormat);
        }
        match find_key(&self.keyset.key, self.keyset.primary_key_id) {
            Some(i) => {
                assert(self@.keys[i as int].key_id == self@.primary_key_id);
                Ok(copy_keyset(&self.keyset))
            },
            None => {
                assert(!has_key(self@.keys, self@.primary_key_id)) by {
                    assert forall|j: int| 0 <= j < self@.keys.len() implies self@.keys[j].key_id != self@.primary_key_id by {
                        assert(self@.keys[j] == self.keyset.key@[j]@);
                    };
                };
                Err(TinkError::InvalidFormat)
            },
        }
    }

    /// Finds the key `id`, relating the result to `key_index`.
    fn locate(&self, id: u32) -> (r: Option<usize>)
        requires
            self.wf(),
        ensures
            r is Some <==> has_key(self@.keys, id),
            r matches Some(i) ==> i < self@.keys.len() && i == key_index(self@.keys, id),
    {
        let r = find_key(&self.keyset.key, id);
        proof {
            match r {
                Some(i) => {
                    assert(self@.keys[i as int].key_id == id);
                    lemma_key_index(self@.keys, i as int);
                },
                None => {
                    assert forall|j: int| 0 <= j < self@.keys.len() implies self@.keys[j].key_id != id by {
                        assert(self@.keys[j] == self.keyset.key@[j]@);
                    };
                },
            }
        }
        r
    }

    /// Adds an enabled key with this key data, prefix kind and id. Fails with
    /// `InvalidFormat` on the unknown prefix kind, and with `InvalidState` when the
    /// id is taken.
    pub fn add_key(&mut self, key_data: KeyData, prefix: OutputPrefixType, key_id: u32) -> (r: Result<u32, TinkError>)
        requires
            old(self).wf(),
        ensures
            final(self).wf(),
            match spec_add_key(old(self)@, key_data@, prefix, key_id) {
                Ok(m) => r == Ok::<u32, TinkError>(key_id) && final(self)@ == m,
                Err(e) => r == Err::<u32, TinkError>(e) && final(self)@ == old(self)@,
            },
    {
        if prefix == OutputPrefixType::UnknownPrefix {
            return Err(TinkError::InvalidFormat);
        }
        if self.locate(key_id).is_some() {
            return Err(TinkError::InvalidState);
        }
        let ghost d = key_data@;
        let k = Key { key_data: Some(key_data), status: 1, key_id, output_prefix_type: prefix.value() };
        self.keyset.key.push(k);
        proof {
            let m = spec_add_key(old(self)@, d, prefix, key_id)->Ok_0;
            assert(self@.keys =~= m.keys);
            let n = old(self)@.keys.len() as int;
            assert forall|a: int, b: int| 0 <= a < self@.keys.len() && 0 <= b < self@.keys.len() && a != b
                implies self@.keys[a].key_id != self@.keys[b].key_id by {
                if a < n && b < n {
                    assert(old(self)@.keys[a].key_id != old(self)@.keys[b].key_id);
                } else if a < n {
                    assert(old(self)@.keys[a].key_id != key_id);
                } else {
                    assert(old(self)@.keys[b].key_id != key_id);
                }
            };
            assert forall|j: int| 0 <= j < self@.keys.len() implies key_well_formed(#[trigger] self@.keys[j]) by {
                if j < n {
                    assert(key_well_formed(old(self)@.keys[j]));
                }
            };
        }
        Ok(key_id)
    }

    /// Draws random ids until one is free, at most `KEY_ID_DRAWS` times. With
    /// no keys yet, the first draw is free.
    fn fresh_key_id(&self) -> (r: Option<u32>)
        requires
            self.wf(),
        ensures
            r matches Some(id) ==> !has_key(self@.keys, id),
            self@.keys.len() == 0 ==> r is Some,
    {
        let mut draws: usize = 0;
        while draws < KEY_ID_DRAWS
            invariant
                self.wf(),
                self@.keys.len() == 0 ==> draws == 0,
            decreases KEY_ID_DRAWS - draws,
        {
            let id = random_u32();
            if self.locate(id).is_none() {
                return Some(id);
            }
            draws = draws + 1;
        }
        None
    }

    /// Generates a key from `template` through `registry` and adds it, enabled,
    /// under a fresh random id, which it returns.
    ///
    /// Fails with `InvalidFormat` when the template's prefix kind is unknown or
    /// its key format is rejected, and with `NotFound` when its type URL is not
    /// registered. A drawn id that is taken is drawn again, up to
    /// `KEY_ID_DRAWS` draws in all; when every draw was taken, `add` gives up
    /// with `InvalidState`. On a manager without keys the first draw is free,
    /// so a valid template always succeeds there.
    pub fn add(&mut self, registry: &Registry, template: &KeyTemplate) -> (r: Result<u32, TinkError>)
        requires
            old(self).wf(),
            registry.wf(),
        ensures
            final(self).wf(),
            added_from_template(old(self)@, final(self)@, registry@, *template, r),
            old(self)@.keys.len() == 0 && spec_template_check(registry@, *template) is Ok ==> r is Ok,
    {
        let prefix = match OutputPrefixType::from_i32(template.output_prefix_type) {
            None => {
                return Err(TinkError::InvalidFormat);
            },
            Some(OutputPrefixType::UnknownPrefix) => {
                return Err(TinkError::InvalidFormat);
            },
            Some(p) => p,
        };
        let (material, _) = registry.lookup(&template.type_url)?;
        let value = registry.new_key(&template.type_url, template.value.as_slice())?;
        let id = match self.fresh_key_id() {
            Some(id) => id,
            None => {
                return Err(TinkError::InvalidState);
            },
        };
        let key_data = KeyData { type_url: template.type_url.clone(), value, key_material_type: material.value() };
        let r = self.add_key(key_data, prefix, id);
        proof {
            assert(final(self)@.keys.drop_last() =~= old(self)@.keys);
        }
        r
    }

    /// Like `add`, and on success the new key also becomes the primary key.
    pub fn rotate(&mut self, registry: &Registry, template: &KeyTemplate) -> (r: Result<u32, TinkError>)
        requires
            old(self).wf(),
            registry.wf(),
        ensures
            final(self).wf(),
            old(self)@.keys.len() == 0 && spec_template_check(registry@, *template) is Ok ==> r is Ok,
            match r {
                Ok(id) => exists|m: KeysetModel| added_from_template(old(self)@, m, registry@, *template, r)
                    && final(self)@ == (KeysetModel { primary_key_id: id, ..m }),
                Err(_) => added_from_template(old(self)@, final(self)@, registry@, *template, r),
            },
    {
        let id = self.add(registry, template)?;
        let ghost mid = self@;
        proof {
            let n = mid.keys.len() - 1;
            assert(mid.keys[n].key_id == id);
            lemma_key_index(mid.keys, n);
        }
        let _ = self.set_primary(id);
        Ok(id)
    }

    /// Makes the key `id` the primary key. Fails with `NotFound` when there is no
    /// such key, and with `InvalidState` when it is not enabled.
    pub fn set_primary(&mut self, id: u32) -> (r: Result<(), TinkError>)
        requires
            old(self).wf(),
        ensures
            final(self).wf(),
            match spec_set_primary(old(self)@, id) {
                Ok(m) => r is Ok && final(self)@ == m,
                Err(e) => r == Err::<(), TinkError>(e) && final(self)@ == old(self)@,
            },
    {
        match self.locate(id) {
            None => Err(TinkError::NotFound),
            Some(i) => {
                if self.keyset.key[i].status != 1 {
                    return Err(TinkError::InvalidState);
                }
                self.keyset.primary_key_id = id;
                proof {
                    assert forall|j: int| 0 <= j < self@.keys.len() && self@.keys[j].key_id == self@.primary_key_id
                        implies is_enabled(self@.keys[j]) by {
                        if j != i {
                            assert(old(self)@.keys[j].key_id != old(self)@.keys[i as int].key_id);
                        }
                    };
                }
                Ok(())
            },
        }
    }

    /// Enables the key `id`. Fails with `NotFound` when there is no such key, and
    /// with `InvalidState` when it is destroyed.
    pub fn enable(&mut self, id: u32) -> (r: Result<(), TinkError>)
        requires
            old(self).wf(),
        ensures
            final(self).wf(),
            match spec_enable(old(self)@, id) {
                Ok(m) => r is Ok && final(self)@ == m,
                Err(e) => r == Err::<(), TinkError>(e) && final(self)@ == old(self)@,
            },
    {
        match self.locate(id) {
            None => Err(TinkError::NotFound),
            Some(i) => {
                if self.keyset.key[i].status == 3 {
                    return Err(TinkError::InvalidState);
                }
                restate_key(&mut self.keyset.key, i, 1, false);
                proof {
                    let m = spec_enable(old(self)@, id)->Ok_0;
                    assert(self@.keys =~= m.keys);
                    assert forall|a: int, b: int| 0 <= a < self@.keys.len() && 0 <= b < self@.keys.len() && a != b
                        implies self@.keys[a].key_id != self@.keys[b].key_id by {
                        assert(old(self)@.keys[a].key_id != old(self)@.keys[b].key_id);
                    };
                    assert forall|j: int| 0 <= j < self@.keys.len() implies key_well_formed(#[trigger] self@.keys[j]) by {
                        assert(key_well_formed(old(self)@.keys[j]));
                    };
                    assert forall|j: int| 0 <= j < self@.keys.len() && self@.keys[j].key_id == self@.primary_key_id
                        implies is_enabled(self@.keys[j]) by {
                        if j != i {
                            assert(old(self)@.keys[j] == self@.keys[j]);
                        }
                    };
                }
                Ok(())
            },
        }
    }

    /// Disables the key `id`. Fails with `NotFound` when there is no such key, and
    /// with `InvalidState` when it is the primary key or is destroyed.
    pub fn disable(&mut self, id: u32) -> (r: Result<(), TinkError>)
        requires
            old(self).wf(),
        ensures
            final(self).wf(),
            match spec_disable(old(self)@, id) {
                Ok(m) => r is Ok && final(self)@ == m,
                Err(e) => r == Err::<(), TinkError>(e) && final(self)@ == old(self)@,
            },
    {
        match self.locate(id) {
            None => Err(TinkError::NotFound),
            Some(i) => {
                if id == self.keyset.primary_key_id || self.keyset.key[i].status == 3 {
                    return Err(TinkError::InvalidState);
                }
                restate_key(&mut self.keyset.key, i, 2, false);
                proof {
                    let m = spec_disable(old(self)@, id)->Ok_0;
                    assert(self@.keys =~= m.keys);
                    assert forall|a: int, b: int| 0 <= a < self@.keys.len() && 0 <= b < self@.keys.len() && a != b
                        implies self@.keys[a].key_id != self@.keys[b].key_id by {
                        assert(old(self)@.keys[a].key_id != old(self)@.keys[b].key_id);
                    };
                    assert forall|j: int| 0 <= j < self@.keys.len() implies key_well_formed(#[trigger] self@.keys[j]) by {
                        assert(key_well_formed(old(self)@.keys[j]));
                    };
                    assert forall|j: int| 0 <= j < self@.keys.len() && self@.keys[j].key_id == self@.primary_key_id
                        implies is_enabled(self@.keys[j]) by {
                        assert(old(self)@.keys[j] == self@.keys[j]);
                    };
                }
                Ok(())
            },
        }
    }

    /// Destroys the key `id`: its key data is dropped and its status becomes
    /// destroyed. Fails with `NotFound` when there is no such key, and with
    /// `InvalidState` when it is the primary key.
    pub fn destroy(&mut self, id: u32) -> (r: Result<(), TinkError>)
        requires
            old(self).wf(),
        ensures
            final(self).wf(),
            match spec_destroy(old(self)@, id) {
                Ok(m) => r is Ok && final(self)@ == m,
                Err(e) => r == Err::<(), TinkError>(e) && final(self)@ == old(self)@,
            },
    {
        match self.locate(id) {
            None => Err(TinkError::NotFound),
            Some(i) => {
                if id == self.keyset.primary_key_id {
                    return Err(TinkError::InvalidState);
                }
                restate_key(&mut self.keyset.key, i, 3, true);
                proof {
                    let m = spec_destroy(old(self)@, id)->Ok_0;
                    assert(self@.keys =~= m.keys);
                    assert forall|a: int, b: int| 0 <= a < self@.keys.len() && 0 <= b < self@.keys.len() && a != b
                        implies self@.keys[a].key_id != self@.keys[b].key_id by {
                        assert(old(self)@.keys[a].key_id != old(self)@.keys[b].key_id);
                    };
                    assert forall|j: int| 0 <= j < self@.keys.len() implies key_well_formed(#[trigger] self@.keys[j]) by {
                        assert(key_well_formed(old(self)@.keys[j]));
                    };
                    assert forall|j: int| 0 <= j < self@.keys.len() && self@.keys[j].key_id == self@.primary_key_id
                        implies is_enabled(self@.keys[j]) by {
                        assert(old(self)@.keys[j] == self@.keys[j]);
                    };
                }
                Ok(())
            },
        }
    }
}

} // verus!
