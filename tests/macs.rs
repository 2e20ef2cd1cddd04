use tink_keyset::error::TinkError;
use tink_keyset::keyset::KeysetManager;
use tink_keyset::mac::HmacSha256;
use tink_keyset::mac_wrapper::MacWrapper;
use tink_keyset::proto::{Key, KeyData, KeyMaterialType, KeyStatusType, KeyTemplate, Keyset, OutputPrefixType};
use tink_keyset::registry::{Registry, AES_GCM_SIV_TYPE_URL, HMAC_TYPE_URL};

fn key(id: u32, status: KeyStatusType, prefix: OutputPrefixType, fill: u8) -> Key {
    Key {
        key_data: Some(KeyData {
            type_url: HMAC_TYPE_URL.to_string(),
            value: vec![fill; 32],
            key_material_type: KeyMaterialType::Symmetric.value(),
        }),
        status: status.value(),
        key_id: id,
        output_prefix_type: prefix.value(),
    }
}

fn wrap(ks: &Keyset) -> MacWrapper {
    MacWrapper::from_keyset(ks, &Registry::with_defaults()).unwrap()
}

// RFC 4231, test case 2.
#[test]
fn hmac_sha256_known_answer() {
    let m = HmacSha256::new(&[0x0bu8; 20]).unwrap();
    let tag = m.compute_mac(b"Hi There");
    let expected: [u8; 32] = [
        0xb0, 0x34, 0x4c, 0x61, 0xd8, 0xdb, 0x38, 0x53, 0x5c, 0xa8, 0xaf, 0xce, 0xaf, 0x0b, 0xf1, 0x2b, 0x88, 0x1d, 0xc2,
        0x00, 0xc9, 0x83, 0x3d, 0xa7, 0x26, 0xe9, 0x37, 0x6c, 0x2e, 0x32, 0xcf, 0xf7,
    ];
    assert_eq!(tag, expected.to_vec());
    assert!(m.verify_mac(&expected, b"Hi There"));
    assert!(!m.verify_mac(&expected[..31], b"Hi There"));
    assert!(!m.verify_mac(&expected, b"Hi there"));
}

#[test]
fn hmac_key_too_short() {
    assert_eq!(HmacSha256::new(&[1u8; 15]).err(), Some(TinkError::InvalidKey));
}

#[test]
fn tag_round_trip_for_each_prefix_kind() {
    for kind in [OutputPrefixType::Tink, OutputPrefixType::Legacy, OutputPrefixType::Crunchy, OutputPrefixType::Raw] {
        let ks = Keyset {
            primary_key_id: 7,
            key: vec![key(3, KeyStatusType::Enabled, OutputPrefixType::Tink, 1), key(7, KeyStatusType::Enabled, kind, 2)],
        };
        let w = wrap(&ks);
        let tag = w.compute_mac(b"data");
        let expected_len = if kind == OutputPrefixType::Raw { 32 } else { 37 };
        assert_eq!(tag.len(), expected_len);
        assert_eq!(w.verify_mac(&tag, b"data"), Ok(()));
        assert_eq!(w.verify_mac(&tag, b"datb"), Err(TinkError::AuthenticationFailure));
    }
}

#[test]
fn legacy_tag_covers_appended_zero() {
    let ks = Keyset { primary_key_id: 9, key: vec![key(9, KeyStatusType::Enabled, OutputPrefixType::Legacy, 4)] };
    let tag = wrap(&ks).compute_mac(b"abc");
    assert_eq!(&tag[..5], &[0, 0, 0, 0, 9]);
    let plain = HmacSha256::new(&[4u8; 32]).unwrap();
    assert_eq!(tag[5..].to_vec(), plain.compute_mac(b"abc\0"));
    assert_ne!(tag[5..].to_vec(), plain.compute_mac(b"abc"));
}

#[test]
fn tampered_tags_fail_generically() {
    let ks = Keyset { primary_key_id: 42, key: vec![key(42, KeyStatusType::Enabled, OutputPrefixType::Tink, 8)] };
    let w = wrap(&ks);
    let tag = w.compute_mac(b"message");
    assert_eq!(&tag[..5], &[1, 0, 0, 0, 42]);
    for i in 0..tag.len() {
        let mut bad = tag.clone();
        bad[i] ^= 0x80;
        assert_eq!(w.verify_mac(&bad, b"message"), Err(TinkError::AuthenticationFailure));
    }
    assert_eq!(w.verify_mac(&tag[..tag.len() - 1], b"message"), Err(TinkError::AuthenticationFailure));
    let mut longer = tag.clone();
    longer.push(0);
    assert_eq!(w.verify_mac(&longer, b"message"), Err(TinkError::AuthenticationFailure));
}

#[test]
fn raw_tag_checked_against_every_raw_key() {
    let single = Keyset { primary_key_id: 5, key: vec![key(5, KeyStatusType::Enabled, OutputPrefixType::Raw, 5)] };
    let tag = wrap(&single).compute_mac(b"m");
    let ks = Keyset {
        primary_key_id: 1,
        key: vec![
            key(1, KeyStatusType::Enabled, OutputPrefixType::Tink, 1),
            key(4, KeyStatusType::Enabled, OutputPrefixType::Raw, 4),
            key(5, KeyStatusType::Enabled, OutputPrefixType::Raw, 5),
        ],
    };
    assert_eq!(wrap(&ks).verify_mac(&tag, b"m"), Ok(()));
}

#[test]
fn mac_rotation_and_disable() {
    let r = Registry::with_defaults();
    let t = KeyTemplate { type_url: HMAC_TYPE_URL.to_string(), value: vec![32], output_prefix_type: OutputPrefixType::Tink.value() };
    let mut m = KeysetManager::new();
    let a = m.rotate(&r, &t).unwrap();
    let tag_a = MacWrapper::from_keyset(&m.keyset().unwrap(), &r).unwrap().compute_mac(b"x");
    let b = m.rotate(&r, &t).unwrap();
    let w = MacWrapper::from_keyset(&m.keyset().unwrap(), &r).unwrap();
    assert_eq!(w.verify_mac(&tag_a, b"x"), Ok(()));
    assert_eq!(&w.compute_mac(b"x")[1..5], &b.to_be_bytes());
    m.disable(a).unwrap();
    let w = MacWrapper::from_keyset(&m.keyset().unwrap(), &r).unwrap();
    assert_eq!(w.verify_mac(&tag_a, b"x"), Err(TinkError::AuthenticationFailure));
}

#[test]
fn cipher_keys_do_not_make_a_mac() {
    let mut k = key(1, KeyStatusType::Enabled, OutputPrefixType::Tink, 1);
    k.key_data.as_mut().unwrap().type_url = AES_GCM_SIV_TYPE_URL.to_string();
    let ks = Keyset { primary_key_id: 1, key: vec![k] };
    assert_eq!(MacWrapper::from_keyset(&ks, &Registry::with_defaults()).err(), Some(TinkError::KeyRejected(1)));
}
