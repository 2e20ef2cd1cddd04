use tink_keyset::error::TinkError;
use tink_keyset::gcm_siv::AesGcmSiv;
use tink_keyset::keyset::KeysetManager;
use tink_keyset::primitive_set::PrimitiveSet;
use tink_keyset::proto::{Key, KeyData, KeyMaterialType, KeyStatusType, KeyTemplate, Keyset, OutputPrefixType};
use tink_keyset::registry::{Registry, AES_GCM_SIV_TYPE_URL};
use tink_keyset::aead_wrapper::AeadWrapper;

fn key(id: u32, status: KeyStatusType, prefix: OutputPrefixType, fill: u8) -> Key {
    Key {
        key_data: Some(KeyData {
            type_url: AES_GCM_SIV_TYPE_URL.to_string(),
            value: vec![fill; 16],
            key_material_type: KeyMaterialType::Symmetric.value(),
        }),
        status: status.value(),
        key_id: id,
        output_prefix_type: prefix.value(),
    }
}

fn wrap(ks: &Keyset) -> AeadWrapper {
    AeadWrapper::from_keyset(ks, &Registry::with_defaults()).unwrap()
}

#[test]
fn tink_key_42_scenario() {
    let ks = Keyset { primary_key_id: 42, key: vec![key(42, KeyStatusType::Enabled, OutputPrefixType::Tink, 5)] };
    let w = wrap(&ks);
    let ct = w.seal(b"hello", b"").unwrap();
    assert_eq!(&ct[..5], &[0x01, 0x00, 0x00, 0x00, 0x2a]);
    assert_eq!(ct.len(), 5 + 12 + 5 + 16);
    assert_eq!(w.open(&ct, b"").unwrap(), b"hello".to_vec());
    for i in 0..ct.len() {
        for bit in 0..8 {
            let mut bad = ct.clone();
            bad[i] ^= 1 << bit;
            assert_eq!(w.open(&bad, b""), Err(TinkError::AuthenticationFailure));
        }
    }
}

#[test]
fn round_trip_for_each_prefix_kind() {
    for kind in [OutputPrefixType::Tink, OutputPrefixType::Legacy, OutputPrefixType::Crunchy, OutputPrefixType::Raw] {
        let ks = Keyset {
            primary_key_id: 7,
            key: vec![key(3, KeyStatusType::Enabled, OutputPrefixType::Raw, 1), key(7, KeyStatusType::Enabled, kind, 2)],
        };
        let w = wrap(&ks);
        for pt in [&b""[..], &b"x"[..], &[0xabu8; 300][..]] {
            let ct = w.seal(pt, b"ctx").unwrap();
            assert_eq!(w.open(&ct, b"ctx").unwrap(), pt.to_vec());
            assert_eq!(w.open(&ct, b"other"), Err(TinkError::AuthenticationFailure));
        }
    }
}

#[test]
fn legacy_prefix_starts_with_zero() {
    let ks = Keyset { primary_key_id: 0x01020304, key: vec![key(0x01020304, KeyStatusType::Enabled, OutputPrefixType::Legacy, 4)] };
    let ct = wrap(&ks).seal(b"m", b"").unwrap();
    assert_eq!(&ct[..5], &[0, 1, 2, 3, 4]);
}

#[test]
fn rotation_keeps_old_ciphertexts() {
    let r = Registry::with_defaults();
    let t = KeyTemplate { type_url: AES_GCM_SIV_TYPE_URL.to_string(), value: vec![16], output_prefix_type: OutputPrefixType::Tink.value() };
    let mut m = KeysetManager::new();
    let a = m.rotate(&r, &t).unwrap();
    let old = AeadWrapper::from_keyset(&m.keyset().unwrap(), &r).unwrap();
    let ct_a = old.seal(b"before", b"").unwrap();
    let b = m.rotate(&r, &t).unwrap();
    let new = AeadWrapper::from_keyset(&m.keyset().unwrap(), &r).unwrap();
    assert_eq!(new.primary_key_id(), b);
    assert_eq!(new.open(&ct_a, b"").unwrap(), b"before".to_vec());
    let ct_b = new.seal(b"after", b"").unwrap();
    assert_eq!(ct_b[0], 1);
    assert_eq!(&ct_b[1..5], &b.to_be_bytes());
    assert_eq!(&ct_a[1..5], &a.to_be_bytes());
    assert_eq!(old.open(&ct_b, b""), Err(TinkError::AuthenticationFailure));
}

#[test]
fn disabled_key_no_longer_opens() {
    let ks = Keyset {
        primary_key_id: 1,
        key: vec![key(1, KeyStatusType::Enabled, OutputPrefixType::Tink, 1), key(2, KeyStatusType::Enabled, OutputPrefixType::Tink, 2)],
    };
    let mut m = KeysetManager::from_keyset(ks).unwrap();
    m.set_primary(2).unwrap();
    let ct_2 = wrap(&m.keyset().unwrap()).seal(b"by two", b"").unwrap();
    m.set_primary(1).unwrap();
    let w = wrap(&m.keyset().unwrap());
    assert_eq!(w.open(&ct_2, b"").unwrap(), b"by two".to_vec());
    m.disable(2).unwrap();
    let w = wrap(&m.keyset().unwrap());
    assert_eq!(w.open(&ct_2, b""), Err(TinkError::AuthenticationFailure));
}

#[test]
fn raw_entries_are_tried_after_prefix_lookup() {
    let raw_only = Keyset { primary_key_id: 9, key: vec![key(9, KeyStatusType::Enabled, OutputPrefixType::Raw, 9)] };
    let ct = wrap(&raw_only).seal(b"raw data", b"").unwrap();
    let ks = Keyset {
        primary_key_id: 1,
        key: vec![
            key(1, KeyStatusType::Enabled, OutputPrefixType::Tink, 1),
            key(8, KeyStatusType::Enabled, OutputPrefixType::Raw, 8),
            key(9, KeyStatusType::Enabled, OutputPrefixType::Raw, 9),
        ],
    };
    assert_eq!(wrap(&ks).open(&ct, b"").unwrap(), b"raw data".to_vec());
}

#[test]
fn corrupted_ciphertexts_fail_generically() {
    let ks = Keyset { primary_key_id: 5, key: vec![key(5, KeyStatusType::Enabled, OutputPrefixType::Crunchy, 5)] };
    let w = wrap(&ks);
    let ct = w.seal(b"payload", b"ad").unwrap();
    assert_eq!(w.open(&ct[..ct.len() - 1], b"ad"), Err(TinkError::AuthenticationFailure));
    let mut longer = ct.clone();
    longer.push(0);
    assert_eq!(w.open(&longer, b"ad"), Err(TinkError::AuthenticationFailure));
    assert_eq!(w.open(&[], b"ad"), Err(TinkError::AuthenticationFailure));
    assert_eq!(w.open(&ct[..4], b"ad"), Err(TinkError::AuthenticationFailure));
}

#[test]
fn primitive_set_names_rejected_key() {
    let mut bad = key(6, KeyStatusType::Enabled, OutputPrefixType::Tink, 6);
    bad.key_data.as_mut().unwrap().value = vec![1u8; 20];
    let ks = Keyset { primary_key_id: 1, key: vec![key(1, KeyStatusType::Enabled, OutputPrefixType::Tink, 1), bad] };
    let r = Registry::with_defaults();
    assert_eq!(PrimitiveSet::<AesGcmSiv>::new(&ks, &r).err(), Some(TinkError::KeyRejected(6)));
    assert_eq!(AeadWrapper::from_keyset(&ks, &r).err(), Some(TinkError::KeyRejected(6)));
    let mut unknown = key(6, KeyStatusType::Enabled, OutputPrefixType::Tink, 6);
    unknown.key_data.as_mut().unwrap().type_url = "type.googleapis.com/unknown".to_string();
    let ks = Keyset { primary_key_id: 1, key: vec![key(1, KeyStatusType::Enabled, OutputPrefixType::Tink, 1), unknown] };
    assert_eq!(PrimitiveSet::<AesGcmSiv>::new(&ks, &r).err(), Some(TinkError::KeyRejected(6)));
}

#[test]
fn primitive_set_holds_enabled_keys_in_order() {
    let ks = Keyset {
        primary_key_id: 3,
        key: vec![
            key(1, KeyStatusType::Disabled, OutputPrefixType::Tink, 1),
            key(2, KeyStatusType::Enabled, OutputPrefixType::Raw, 2),
            key(3, KeyStatusType::Enabled, OutputPrefixType::Tink, 3),
        ],
    };
    let ps = PrimitiveSet::<AesGcmSiv>::new(&ks, &Registry::with_defaults()).unwrap();
    assert_eq!(ps.len(), 2);
    assert_eq!(ps.entry(0).key_id(), 2);
    assert_eq!(ps.entry(0).prefix(), &[] as &[u8]);
    assert_eq!(ps.entry(1).prefix(), &[1, 0, 0, 0, 3]);
    assert_eq!(ps.primary(), 1);
}

#[test]
fn invalid_keyset_gives_no_wrapper() {
    let ks = Keyset { primary_key_id: 1, key: vec![key(1, KeyStatusType::Disabled, OutputPrefixType::Tink, 1)] };
    assert_eq!(AeadWrapper::from_keyset(&ks, &Registry::with_defaults()).err(), Some(TinkError::InvalidFormat));
}

#[test]
fn primitive_set_may_take_disabled_keys() {
    let ks = Keyset {
        primary_key_id: 3,
        key: vec![
            key(1, KeyStatusType::Disabled, OutputPrefixType::Tink, 1),
            key(2, KeyStatusType::Enabled, OutputPrefixType::Raw, 2),
            key(3, KeyStatusType::Enabled, OutputPrefixType::Tink, 3),
        ],
    };
    let r = Registry::with_defaults();
    let all = PrimitiveSet::<AesGcmSiv>::build(&ks, &r, true).unwrap();
    assert_eq!(all.len(), 3);
    assert_eq!(all.entry(0).key_id(), 1);
    assert_eq!(all.entry(0).prefix(), &[1, 0, 0, 0, 1]);
    assert_eq!(all.primary(), 2);
    let enabled = PrimitiveSet::<AesGcmSiv>::build(&ks, &r, false).unwrap();
    assert_eq!(enabled.len(), 2);
    let mut bad = key(1, KeyStatusType::Disabled, OutputPrefixType::Tink, 1);
    bad.key_data.as_mut().unwrap().value = vec![0u8; 5];
    let ks = Keyset { primary_key_id: 3, key: vec![bad, key(3, KeyStatusType::Enabled, OutputPrefixType::Tink, 3)] };
    assert_eq!(PrimitiveSet::<AesGcmSiv>::build(&ks, &r, true).err(), Some(TinkError::KeyRejected(1)));
    assert!(PrimitiveSet::<AesGcmSiv>::build(&ks, &r, false).is_ok());
}

#[test]
fn sealed_length_is_prefix_nonce_plaintext_tag() {
    for (kind, prefix_len) in [(OutputPrefixType::Tink, 5usize), (OutputPrefixType::Raw, 0)] {
        let ks = Keyset { primary_key_id: 4, key: vec![key(4, KeyStatusType::Enabled, kind, 4)] };
        let w = wrap(&ks);
        for n in [0usize, 1, 17, 64] {
            let ct = w.seal(&vec![7u8; n], b"a").unwrap();
            assert_eq!(ct.len(), prefix_len + 12 + n + 16);
        }
    }
}
