use tink_keyset::aead::Aead;
use tink_keyset::error::TinkError;
use tink_keyset::gcm_siv::AesGcmSiv;
use tink_keyset::prefix::output_prefix;
use tink_keyset::proto::{
    EcPointFormat, EcdsaSignatureEncoding, EllipticCurveType, HashType, JwtHmacAlgorithm, KeyMaterialType,
    KeyStatusType, OutputPrefixType,
};

#[test]
fn enum_names_match_schema() {
    assert_eq!(EllipticCurveType::NistP256.as_str_name(), "NIST_P256");
    assert_eq!(EllipticCurveType::Curve25519.as_str_name(), "CURVE25519");
    assert_eq!(EcPointFormat::DoNotUseCrunchyUncompressed.as_str_name(), "DO_NOT_USE_CRUNCHY_UNCOMPRESSED");
    assert_eq!(HashType::Sha384.as_str_name(), "SHA384");
    assert_eq!(EcdsaSignatureEncoding::IeeeP1363.as_str_name(), "IEEE_P1363");
    assert_eq!(KeyMaterialType::AsymmetricPrivate.as_str_name(), "ASYMMETRIC_PRIVATE");
    assert_eq!(KeyStatusType::Destroyed.as_str_name(), "DESTROYED");
    assert_eq!(OutputPrefixType::Crunchy.as_str_name(), "CRUNCHY");
    assert_eq!(JwtHmacAlgorithm::HsUnknown.as_str_name(), "HS_UNKNOWN");
}

#[test]
fn enum_numbers_round_trip() {
    assert_eq!(EllipticCurveType::NistP256.value(), 2);
    assert_eq!(EllipticCurveType::from_i32(2), Some(EllipticCurveType::NistP256));
    assert_eq!(EllipticCurveType::from_i32(1), None);
    assert_eq!(HashType::from_i32(3), Some(HashType::Sha256));
    assert_eq!(OutputPrefixType::Raw.value(), 3);
    assert_eq!(OutputPrefixType::from_i32(4), Some(OutputPrefixType::Crunchy));
    assert_eq!(OutputPrefixType::from_i32(5), None);
    assert_eq!(KeyStatusType::from_i32(-1), None);
    assert_eq!(KeyMaterialType::Remote.value(), 4);
}

#[test]
fn prefixes_of_each_kind() {
    assert_eq!(output_prefix(OutputPrefixType::Tink, 42), Ok(vec![1, 0, 0, 0, 0x2a]));
    assert_eq!(output_prefix(OutputPrefixType::Legacy, 0x01020304), Ok(vec![0, 1, 2, 3, 4]));
    assert_eq!(output_prefix(OutputPrefixType::Crunchy, 0xffff_ffff), Ok(vec![0, 0xff, 0xff, 0xff, 0xff]));
    assert_eq!(output_prefix(OutputPrefixType::Raw, 42), Ok(vec![]));
    assert_eq!(output_prefix(OutputPrefixType::UnknownPrefix, 42), Err(TinkError::InvalidKey));
}

#[test]
fn tink_prefixes_differ_for_different_ids() {
    let ids = [0u32, 1, 42, 256, 0x0100_0000, u32::MAX];
    for a in ids {
        for b in ids {
            let pa = output_prefix(OutputPrefixType::Tink, a).unwrap();
            let pb = output_prefix(OutputPrefixType::Tink, b).unwrap();
            assert_eq!(pa == pb, a == b);
        }
    }
}

#[test]
fn gcm_siv_key_sizes() {
    assert!(AesGcmSiv::new(&[7u8; 16]).is_ok());
    assert!(AesGcmSiv::new(&[7u8; 32]).is_ok());
    assert_eq!(AesGcmSiv::new(&[7u8; 32]).unwrap().key_size(), 32);
    for n in [0usize, 1, 15, 17, 24, 31, 33, 64] {
        assert_eq!(AesGcmSiv::new(&vec![7u8; n]).err(), Some(TinkError::InvalidKey));
    }
}

#[test]
fn gcm_siv_round_trip() {
    for size in [16usize, 32] {
        let c = AesGcmSiv::new(&vec![3u8; size]).unwrap();
        for pt in [&b""[..], &b"hello"[..], &[0u8; 100][..]] {
            let ct = c.encrypt(pt, b"aad").unwrap();
            assert_eq!(ct.len(), pt.len() + 12 + 16);
            assert_eq!(c.decrypt(&ct, b"aad").unwrap(), pt.to_vec());
            assert!(c.decrypt(&ct, b"other").is_err());
        }
    }
}

#[test]
fn gcm_siv_rejects_short_and_tampered() {
    let c = AesGcmSiv::new(&[9u8; 16]).unwrap();
    assert_eq!(c.decrypt(&[0u8; 27], b""), Err(TinkError::AuthenticationFailure));
    let ct = c.encrypt(b"secret", b"").unwrap();
    for i in 0..ct.len() {
        let mut bad = ct.clone();
        bad[i] ^= 0x01;
        assert_eq!(c.decrypt(&bad, b""), Err(TinkError::AuthenticationFailure));
    }
    let other = AesGcmSiv::new(&[8u8; 16]).unwrap();
    assert!(other.decrypt(&ct, b"").is_err());
}

#[test]
fn gcm_siv_nonces_are_fresh() {
    let c = AesGcmSiv::new(&[1u8; 32]).unwrap();
    let a = c.encrypt(b"same", b"").unwrap();
    let b = c.encrypt(b"same", b"").unwrap();
    assert_ne!(a, b);
}

#[test]
fn gcm_siv_empty_input_gives_28_bytes() {
    let c = AesGcmSiv::new(&[0u8; 32]).unwrap();
    let ct = c.encrypt(b"", b"").unwrap();
    assert_eq!(ct.len(), 28);
    let pt = c.decrypt(&ct, b"").unwrap();
    assert_eq!(pt.len(), ct.len() - 28);
}

#[test]
fn gcm_siv_seal_with_nonce_shape() {
    let c = AesGcmSiv::new(&[5u8; 16]).unwrap();
    let nonce = [9u8; 12];
    let a = c.seal_with_nonce(&nonce, b"hello", b"ad").unwrap();
    assert_eq!(&a[..12], &nonce);
    assert_eq!(a.len(), 12 + 5 + 16);
    assert_eq!(c.seal_with_nonce(&nonce, b"hello", b"ad").unwrap(), a);
    assert_ne!(&a[12..17], b"hello");
    assert_eq!(c.decrypt(&a, b"ad").unwrap(), b"hello".to_vec());
    let other = c.seal_with_nonce(&[8u8; 12], b"hello", b"ad").unwrap();
    assert_ne!(other, a);
}
