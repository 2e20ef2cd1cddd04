use tink_keyset::error::TinkError;
use tink_keyset::keyset::{validate_keyset, KeysetManager};
use tink_keyset::proto::{Key, KeyData, KeyMaterialType, KeyStatusType, KeyTemplate, Keyset, OutputPrefixType};
use tink_keyset::gcm_siv::AesGcmSiv;
use tink_keyset::mac::HmacSha256;
use tink_keyset::primitive_set::FromKey;
use tink_keyset::registry::{KeyManagerKind, Registry, AES_GCM_SIV_TYPE_URL, HMAC_TYPE_URL};

fn key(id: u32, status: KeyStatusType, prefix: OutputPrefixType) -> Key {
    let key_data = if status == KeyStatusType::Destroyed {
        None
    } else {
        Some(KeyData {
            type_url: AES_GCM_SIV_TYPE_URL.to_string(),
            value: vec![id as u8; 16],
            key_material_type: KeyMaterialType::Symmetric.value(),
        })
    };
    Key { key_data, status: status.value(), key_id: id, output_prefix_type: prefix.value() }
}

fn template(size: u8, prefix: OutputPrefixType) -> KeyTemplate {
    KeyTemplate { type_url: AES_GCM_SIV_TYPE_URL.to_string(), value: vec![size], output_prefix_type: prefix.value() }
}

#[test]
fn valid_keyset_is_accepted() {
    let ks = Keyset {
        primary_key_id: 2,
        key: vec![
            key(1, KeyStatusType::Disabled, OutputPrefixType::Tink),
            key(2, KeyStatusType::Enabled, OutputPrefixType::Raw),
            key(3, KeyStatusType::Destroyed, OutputPrefixType::Legacy),
        ],
    };
    assert_eq!(validate_keyset(&ks), Ok(()));
}

#[test]
fn invalid_keysets_are_rejected() {
    let empty = Keyset { primary_key_id: 0, key: vec![] };
    assert_eq!(validate_keyset(&empty), Err(TinkError::InvalidFormat));
    let duplicate = Keyset {
        primary_key_id: 1,
        key: vec![key(1, KeyStatusType::Enabled, OutputPrefixType::Tink), key(1, KeyStatusType::Enabled, OutputPrefixType::Raw)],
    };
    assert_eq!(validate_keyset(&duplicate), Err(TinkError::InvalidFormat));
    let no_primary = Keyset { primary_key_id: 9, key: vec![key(1, KeyStatusType::Enabled, OutputPrefixType::Tink)] };
    assert_eq!(validate_keyset(&no_primary), Err(TinkError::InvalidFormat));
    let disabled_primary = Keyset { primary_key_id: 1, key: vec![key(1, KeyStatusType::Disabled, OutputPrefixType::Tink)] };
    assert_eq!(validate_keyset(&disabled_primary), Err(TinkError::InvalidFormat));
    let unknown_prefix = Keyset { primary_key_id: 1, key: vec![key(1, KeyStatusType::Enabled, OutputPrefixType::UnknownPrefix)] };
    assert_eq!(validate_keyset(&unknown_prefix), Err(TinkError::InvalidFormat));
    let mut no_data = key(1, KeyStatusType::Enabled, OutputPrefixType::Tink);
    no_data.key_data = None;
    assert_eq!(validate_keyset(&Keyset { primary_key_id: 1, key: vec![no_data] }), Err(TinkError::InvalidFormat));
}

#[test]
fn registry_register_and_lookup() {
    let mut r = Registry::new();
    let url = AES_GCM_SIV_TYPE_URL.to_string();
    assert_eq!(r.lookup(&url), Err(TinkError::NotFound));
    assert_eq!(r.register(&url, KeyMaterialType::Symmetric, KeyManagerKind::AesGcmSiv), Ok(()));
    assert_eq!(r.register(&url, KeyMaterialType::Symmetric, KeyManagerKind::AesGcmSiv), Ok(()));
    assert_eq!(r.register(&url, KeyMaterialType::Remote, KeyManagerKind::AesGcmSiv), Err(TinkError::Conflict));
    assert_eq!(r.lookup(&url), Ok((KeyMaterialType::Symmetric, KeyManagerKind::AesGcmSiv)));
    assert_eq!(r.lookup(&"type.googleapis.com/unknown".to_string()), Err(TinkError::NotFound));
}

#[test]
fn registry_instantiates_and_generates() {
    let r = Registry::with_defaults();
    let url = AES_GCM_SIV_TYPE_URL.to_string();
    assert_eq!(AesGcmSiv::from_key(&r, &url, &[1u8; 16]).unwrap().key_size(), 16);
    assert_eq!(AesGcmSiv::from_key(&r, &url, &[1u8; 20]).err(), Some(TinkError::InvalidKey));
    assert_eq!(AesGcmSiv::from_key(&r, &"nope".to_string(), &[1u8; 16]).err(), Some(TinkError::NotFound));
    let hmac_url = HMAC_TYPE_URL.to_string();
    assert_eq!(AesGcmSiv::from_key(&r, &hmac_url, &[1u8; 16]).err(), Some(TinkError::InvalidKey));
    assert!(HmacSha256::from_key(&r, &hmac_url, &[1u8; 16]).is_ok());
    assert_eq!(HmacSha256::from_key(&r, &hmac_url, &[1u8; 15]).err(), Some(TinkError::InvalidKey));
    assert_eq!(HmacSha256::from_key(&r, &url, &[1u8; 32]).err(), Some(TinkError::InvalidKey));
    assert_eq!(r.new_key(&hmac_url, &[40]).unwrap().len(), 40);
    assert_eq!(r.new_key(&hmac_url, &[15]), Err(TinkError::InvalidFormat));
    assert_eq!(r.new_key(&url, &[16]).unwrap().len(), 16);
    assert_eq!(r.new_key(&url, &[32]).unwrap().len(), 32);
    assert_eq!(r.new_key(&url, &[24]), Err(TinkError::InvalidFormat));
    assert_eq!(r.new_key(&url, &[]), Err(TinkError::InvalidFormat));
    assert_eq!(r.new_key(&"nope".to_string(), &[16]), Err(TinkError::NotFound));
}

#[test]
fn manager_rotate_and_snapshot() {
    let r = Registry::with_defaults();
    let mut m = KeysetManager::new();
    assert_eq!(m.keyset().err(), Some(TinkError::InvalidFormat));
    let a = m.rotate(&r, &template(16, OutputPrefixType::Tink)).unwrap();
    let b = m.add(&r, &template(32, OutputPrefixType::Raw)).unwrap();
    assert_ne!(a, b);
    let ks = m.keyset().unwrap();
    assert_eq!(ks.primary_key_id, a);
    assert_eq!(ks.key.len(), 2);
    assert_eq!(ks.key[0].key_id, a);
    assert_eq!(ks.key[1].key_id, b);
    assert_eq!(ks.key[1].status, KeyStatusType::Enabled.value());
    assert_eq!(ks.key[1].output_prefix_type, OutputPrefixType::Raw.value());
    assert_eq!(ks.key[1].key_data.as_ref().unwrap().value.len(), 32);
    assert_eq!(validate_keyset(&ks), Ok(()));
    let c = m.rotate(&r, &template(16, OutputPrefixType::Legacy)).unwrap();
    assert_eq!(m.keyset().unwrap().primary_key_id, c);
}

#[test]
fn manager_rejects_bad_templates() {
    let r = Registry::with_defaults();
    let mut m = KeysetManager::new();
    assert_eq!(m.add(&r, &template(16, OutputPrefixType::UnknownPrefix)), Err(TinkError::InvalidFormat));
    assert_eq!(m.add(&r, &template(20, OutputPrefixType::Tink)), Err(TinkError::InvalidFormat));
    let mut t = template(16, OutputPrefixType::Tink);
    t.type_url = "type.googleapis.com/unknown".to_string();
    assert_eq!(m.add(&r, &t), Err(TinkError::NotFound));
    assert_eq!(m.keyset().err(), Some(TinkError::InvalidFormat));
}

#[test]
fn manager_state_changes() {
    let ks = Keyset {
        primary_key_id: 1,
        key: vec![key(1, KeyStatusType::Enabled, OutputPrefixType::Tink), key(2, KeyStatusType::Enabled, OutputPrefixType::Tink)],
    };
    let mut m = KeysetManager::from_keyset(ks).unwrap();
    assert_eq!(m.disable(1), Err(TinkError::InvalidState));
    assert_eq!(m.destroy(1), Err(TinkError::InvalidState));
    assert_eq!(m.disable(7), Err(TinkError::NotFound));
    assert_eq!(m.set_primary(7), Err(TinkError::NotFound));
    assert_eq!(m.disable(2), Ok(()));
    assert_eq!(m.set_primary(2), Err(TinkError::InvalidState));
    assert_eq!(m.enable(2), Ok(()));
    assert_eq!(m.set_primary(2), Ok(()));
    assert_eq!(m.destroy(1), Ok(()));
    assert_eq!(m.enable(1), Err(TinkError::InvalidState));
    assert_eq!(m.disable(1), Err(TinkError::InvalidState));
    let snap = m.keyset().unwrap();
    assert_eq!(snap.primary_key_id, 2);
    assert_eq!(snap.key[0].status, KeyStatusType::Destroyed.value());
    assert!(snap.key[0].key_data.is_none());
    assert_eq!(snap.key[1].status, KeyStatusType::Enabled.value());
}

#[test]
fn manager_add_key_with_taken_id() {
    let mut m = KeysetManager::new();
    let data = KeyData { type_url: AES_GCM_SIV_TYPE_URL.to_string(), value: vec![0u8; 16], key_material_type: 1 };
    assert_eq!(m.add_key(data.clone(), OutputPrefixType::Tink, 5), Ok(5));
    assert_eq!(m.add_key(data.clone(), OutputPrefixType::Tink, 5), Err(TinkError::InvalidState));
    assert_eq!(m.add_key(data, OutputPrefixType::UnknownPrefix, 6), Err(TinkError::InvalidFormat));
    assert_eq!(m.keyset().err(), Some(TinkError::InvalidFormat));
    assert_eq!(m.set_primary(5), Ok(()));
    assert_eq!(m.keyset().unwrap().key.len(), 1);
}

#[test]
fn manager_from_invalid_keyset() {
    let ks = Keyset { primary_key_id: 3, key: vec![] };
    assert_eq!(KeysetManager::from_keyset(ks).err(), Some(TinkError::InvalidFormat));
}

#[test]
fn add_on_empty_manager_succeeds() {
    let r = Registry::with_defaults();
    for (size, prefix) in [(16u8, OutputPrefixType::Tink), (32, OutputPrefixType::Raw)] {
        let mut m = KeysetManager::new();
        let id = m.add(&r, &template(size, prefix)).unwrap();
        assert_eq!(m.set_primary(id), Ok(()));
        let mut m = KeysetManager::new();
        let id = m.rotate(&r, &template(size, prefix)).unwrap();
        assert_eq!(m.keyset().unwrap().primary_key_id, id);
    }
}
