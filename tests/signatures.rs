use tink_keyset::error::TinkError;
use tink_keyset::keyset::KeysetManager;
use tink_keyset::proto::{Key, KeyData, KeyMaterialType, KeyStatusType, KeyTemplate, Keyset, OutputPrefixType};
use tink_keyset::registry::{Registry, ED25519_PRIVATE_TYPE_URL, ED25519_PUBLIC_TYPE_URL, HMAC_TYPE_URL};
use tink_keyset::signature::{public_keyset, Ed25519Signer, Ed25519Verifier, SignerWrapper, VerifierWrapper};

fn hex(s: &str) -> Vec<u8> {
    (0..s.len()).step_by(2).map(|i| u8::from_str_radix(&s[i..i + 2], 16).unwrap()).collect()
}

fn private_key(id: u32, status: KeyStatusType, prefix: OutputPrefixType, fill: u8) -> Key {
    Key {
        key_data: Some(KeyData {
            type_url: ED25519_PRIVATE_TYPE_URL.to_string(),
            value: vec![fill; 32],
            key_material_type: KeyMaterialType::AsymmetricPrivate.value(),
        }),
        status: status.value(),
        key_id: id,
        output_prefix_type: prefix.value(),
    }
}

// RFC 8032, section 7.1, test 1.
#[test]
fn ed25519_known_answer() {
    let sk = hex("9d61b19deffd5a60ba844af492ec2cc44449c5697b326919703bac031cae7f60");
    let pk = hex("d75a980182b10ab7d54bfed3c964073a0ee172f3daa62325af021a68f707511a");
    let sig = hex("e5564300c360ac729086e2cc806e828a84877f1eb8e5d974d873e065224901555fb8821590a33bacc61e39701cf9b46bd25bf5f0595bbe24655141438e7a100b");
    let signer = Ed25519Signer::new(&sk).unwrap();
    assert_eq!(signer.public_key(), pk);
    assert_eq!(signer.sign(b""), sig);
    let verifier = Ed25519Verifier::new(&pk).unwrap();
    assert!(verifier.verify(&sig, b""));
    assert!(!verifier.verify(&sig, b"x"));
    assert!(!verifier.verify(&sig[..63], b""));
}

#[test]
fn ed25519_key_sizes() {
    assert_eq!(Ed25519Signer::new(&[1u8; 31]).err(), Some(TinkError::InvalidKey));
    assert_eq!(Ed25519Verifier::new(&[1u8; 33]).err(), Some(TinkError::InvalidKey));
}

#[test]
fn public_keyset_keeps_ids_and_statuses() {
    let ks = Keyset {
        primary_key_id: 2,
        key: vec![
            private_key(1, KeyStatusType::Disabled, OutputPrefixType::Tink, 1),
            private_key(2, KeyStatusType::Enabled, OutputPrefixType::Legacy, 2),
        ],
    };
    let r = Registry::with_defaults();
    let p = public_keyset(&ks, &r).unwrap();
    assert_eq!(p.primary_key_id, 2);
    assert_eq!(p.key.len(), 2);
    assert_eq!(p.key[0].status, KeyStatusType::Disabled.value());
    assert_eq!(p.key[1].output_prefix_type, OutputPrefixType::Legacy.value());
    let d = p.key[1].key_data.as_ref().unwrap();
    assert_eq!(d.type_url, ED25519_PUBLIC_TYPE_URL);
    assert_eq!(d.key_material_type, KeyMaterialType::AsymmetricPublic.value());
    assert_eq!(d.value, Ed25519Signer::new(&[2u8; 32]).unwrap().public_key());
}

#[test]
fn public_keyset_rejects_other_keys() {
    let mut k = private_key(3, KeyStatusType::Enabled, OutputPrefixType::Tink, 3);
    k.key_data.as_mut().unwrap().type_url = HMAC_TYPE_URL.to_string();
    let ks = Keyset { primary_key_id: 3, key: vec![k] };
    assert_eq!(public_keyset(&ks, &Registry::with_defaults()).err(), Some(TinkError::KeyRejected(3)));
    let empty = Keyset { primary_key_id: 3, key: vec![] };
    assert_eq!(public_keyset(&empty, &Registry::with_defaults()).err(), Some(TinkError::InvalidFormat));
}

#[test]
fn sign_verify_for_each_prefix_kind() {
    let r = Registry::with_defaults();
    for kind in [OutputPrefixType::Tink, OutputPrefixType::Legacy, OutputPrefixType::Crunchy, OutputPrefixType::Raw] {
        let ks = Keyset {
            primary_key_id: 7,
            key: vec![private_key(3, KeyStatusType::Enabled, OutputPrefixType::Tink, 1), private_key(7, KeyStatusType::Enabled, kind, 2)],
        };
        let signer = SignerWrapper::from_keyset(&ks, &r).unwrap();
        let verifier = VerifierWrapper::from_keyset(&public_keyset(&ks, &r).unwrap(), &r).unwrap();
        let sig = signer.sign(b"document");
        let expected_len = if kind == OutputPrefixType::Raw { 64 } else { 69 };
        assert_eq!(sig.len(), expected_len);
        assert_eq!(verifier.verify(&sig, b"document"), Ok(()));
        assert_eq!(verifier.verify(&sig, b"documenT"), Err(TinkError::AuthenticationFailure));
    }
}

#[test]
fn tampered_signatures_fail_generically() {
    let r = Registry::with_defaults();
    let ks = Keyset { primary_key_id: 42, key: vec![private_key(42, KeyStatusType::Enabled, OutputPrefixType::Tink, 9)] };
    let signer = SignerWrapper::from_keyset(&ks, &r).unwrap();
    let verifier = VerifierWrapper::from_keyset(&public_keyset(&ks, &r).unwrap(), &r).unwrap();
    let sig = signer.sign(b"m");
    assert_eq!(&sig[..5], &[1, 0, 0, 0, 42]);
    for i in 0..sig.len() {
        let mut bad = sig.clone();
        bad[i] ^= 0x04;
        assert_eq!(verifier.verify(&bad, b"m"), Err(TinkError::AuthenticationFailure));
    }
    assert_eq!(verifier.verify(&sig[..sig.len() - 1], b"m"), Err(TinkError::AuthenticationFailure));
}

#[test]
fn private_keysets_do_not_verify_and_public_ones_do_not_sign() {
    let r = Registry::with_defaults();
    let ks = Keyset { primary_key_id: 1, key: vec![private_key(1, KeyStatusType::Enabled, OutputPrefixType::Tink, 1)] };
    assert_eq!(VerifierWrapper::from_keyset(&ks, &r).err(), Some(TinkError::KeyRejected(1)));
    let p = public_keyset(&ks, &r).unwrap();
    assert_eq!(SignerWrapper::from_keyset(&p, &r).err(), Some(TinkError::KeyRejected(1)));
}

#[test]
fn signing_keys_rotate() {
    let r = Registry::with_defaults();
    let t = KeyTemplate { type_url: ED25519_PRIVATE_TYPE_URL.to_string(), value: vec![32], output_prefix_type: OutputPrefixType::Tink.value() };
    let mut m = KeysetManager::new();
    m.rotate(&r, &t).unwrap();
    let old_sig = SignerWrapper::from_keyset(&m.keyset().unwrap(), &r).unwrap().sign(b"d");
    let b = m.rotate(&r, &t).unwrap();
    let ks = m.keyset().unwrap();
    let verifier = VerifierWrapper::from_keyset(&public_keyset(&ks, &r).unwrap(), &r).unwrap();
    assert_eq!(verifier.verify(&old_sig, b"d"), Ok(()));
    let new_sig = SignerWrapper::from_keyset(&ks, &r).unwrap().sign(b"d");
    assert_eq!(&new_sig[1..5], &b.to_be_bytes());
    assert_eq!(verifier.verify(&new_sig, b"d"), Ok(()));
    let bad_t = KeyTemplate { type_url: ED25519_PUBLIC_TYPE_URL.to_string(), value: vec![32], output_prefix_type: 1 };
    assert_eq!(m.add(&r, &bad_t), Err(TinkError::InvalidFormat));
}
