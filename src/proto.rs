//! Schema types for keys, keysets and key formats, as plain data.

use vstd::prelude::*;

verus! {

#[derive(Clone, Debug, PartialEq, Eq, Default)]
pub struct AesCmacParams {
    pub tag_size: u32,
}
/// key_type: type.googleapis.com/google.crypto.tink.AesCmacKey
#[derive(Clone, Debug, PartialEq, Eq, Default)]
pub struct AesCmacKey {
    pub version: u32,
    pub key_value: Vec<u8>,
    pub params: Option<AesCmacParams>,
}
#[derive(Clone, Debug, PartialEq, Eq, Default)]
pub struct AesCmacKeyFormat {
    pub key_size: u32,
    pub params: Option<AesCmacParams>,
}
/// key_type: type.googleapis.com/google.crypto.tink.AesCmacPrfKey
#[derive(Clone, Debug, PartialEq, Eq, Default)]
pub struct AesCmacPrfKey {
    pub version: u32,
    pub key_value: Vec<u8>,
}
#[derive(Clone, Debug, PartialEq, Eq, Default)]
pub struct AesCmacPrfKeyFormat {
    pub version: u32,
    pub key_size: u32,
}
#[derive(Clone, Debug, PartialEq, Eq, Default)]
pub struct AesCtrParams {
    pub iv_size: u32,
}
#[derive(Clone, Debug, PartialEq, Eq, Default)]
pub struct AesCtrKeyFormat {
    pub params: Option<AesCtrParams>,
    pub key_size: u32,
}
/// key_type: type.googleapis.com/google.crypto.tink.AesCtrKey
#[derive(Clone, Debug, PartialEq, Eq, Default)]
pub struct AesCtrKey {
    pub version: u32,
    pub params: Option<AesCtrParams>,
    pub key_value: Vec<u8>,
}
#[derive(Clone, Copy, Debug, PartialEq, Eq, Hash, PartialOrd, Ord, Structural)]
pub enum EllipticCurveType {
    UnknownCurve,
    NistP256,
    NistP384,
    NistP521,
    Curve25519,
}
#[derive(Clone, Copy, Debug, PartialEq, Eq, Hash, PartialOrd, Ord, Structural)]
pub enum EcPointFormat {
    UnknownFormat,
    Uncompressed,
    Compressed,
    /// Like UNCOMPRESSED but without the \x04 prefix. Crunchy uses this format.
    /// DO NOT USE unless you are a Crunchy user moving to Tink.
    DoNotUseCrunchyUncompressed,
}
#[derive(Clone, Copy, Debug, PartialEq, Eq, Hash, PartialOrd, Ord, Structural)]
pub enum HashType {
    UnknownHash,
    /// Using SHA1 for digital signature is deprecated but HMAC-SHA1 is
    Sha1,
    /// fine.
    Sha384,
    Sha256,
    Sha512,
    Sha224,
}
#[derive(Clone, Debug, PartialEq, Eq, Default)]
pub struct HmacParams {
    /// HashType is an enum.
    pub hash: i32,
    pub tag_size: u32,
}
/// key_type: type.googleapis.com/google.crypto.tink.HmacKey
#[derive(Clone, Debug, PartialEq, Eq, Default)]
pub struct HmacKey {
    pub version: u32,
    pub params: Option<HmacParams>,
    pub key_value: Vec<u8>,
}
#[derive(Clone, Debug, PartialEq, Eq, Default)]
pub struct HmacKeyFormat {
    pub params: Option<HmacParams>,
    pub key_size: u32,
    pub version: u32,
}
#[derive(Clone, Debug, PartialEq, Eq, Default)]
pub struct AesCtrHmacAeadKeyFormat {
    pub aes_ctr_key_format: Option<AesCtrKeyFormat>,
    pub hmac_key_format: Option<HmacKeyFormat>,
}
/// key_type: type.googleapis.com/google.crypto.tink.AesCtrHmacAeadKey
#[derive(Clone, Debug, PartialEq, Eq, Default)]
pub struct AesCtrHmacAeadKey {
    pub version: u32,
    pub aes_ctr_key: Option<AesCtrKey>,
    pub hmac_key: Option<HmacKey>,
}
#[derive(Clone, Debug, PartialEq, Eq, Default)]
pub struct AesCtrHmacStreamingParams {
    pub ciphertext_segment_size: u32,
    /// size of AES-CTR keys derived for each segment
    pub derived_key_size: u32,
    /// hash function for key derivation via HKDF
    pub hkdf_hash_type: i32,
    /// params for authentication tags
    pub hmac_params: Option<HmacParams>,
}
#[derive(Clone, Debug, PartialEq, Eq, Default)]
pub struct AesCtrHmacStreamingKeyFormat {
    pub version: u32,
    pub params: Option<AesCtrHmacStreamingParams>,
    /// size of the main key (aka. "ikm", input key material)
    pub key_size: u32,
}
/// key_type: type.googleapis.com/google.crypto.tink.AesCtrHmacStreamingKey
#[derive(Clone, Debug, PartialEq, Eq, Default)]
pub struct AesCtrHmacStreamingKey {
    pub version: u32,
    pub params: Option<AesCtrHmacStreamingParams>,
    /// the main key, aka. "ikm", input key material
    pub key_value: Vec<u8>,
}
/// only allowing tag size in bytes = 16
#[derive(Clone, Debug, PartialEq, Eq, Default)]
pub struct AesEaxParams {
    /// possible value is 12 or 16 bytes.
    pub iv_size: u32,
}
#[derive(Clone, Debug, PartialEq, Eq, Default)]
pub struct AesEaxKeyFormat {
    pub params: Option<AesEaxParams>,
    pub key_size: u32,
}
/// key_type: type.googleapis.com/google.crypto.tink.AesEaxKey
#[derive(Clone, Debug, PartialEq, Eq, Default)]
pub struct AesEaxKey {
    pub version: u32,
    pub params: Option<AesEaxParams>,
    pub key_value: Vec<u8>,
}
/// only allowing IV size in bytes = 12 and tag size in bytes = 16
/// Thus, accept no params.
#[derive(Clone, Debug, PartialEq, Eq, Default)]
pub struct AesGcmKeyFormat {
    pub key_size: u32,
    pub version: u32,
}
/// key_type: type.googleapis.com/google.crypto.tink.AesGcmKey
#[derive(Clone, Debug, PartialEq, Eq, Default)]
pub struct AesGcmKey {
    pub version: u32,
    pub key_value: Vec<u8>,
}
#[derive(Clone, Debug, PartialEq, Eq, Default)]
pub struct AesGcmHkdfStreamingParams {
    pub ciphertext_segment_size: u32,
    /// size of AES-GCM keys derived for each segment
    pub derived_key_size: u32,
    pub hkdf_hash_type: i32,
}
#[derive(Clone, Debug, PartialEq, Eq, Default)]
pub struct AesGcmHkdfStreamingKeyFormat {
    pub version: u32,
    pub params: Option<AesGcmHkdfStreamingParams>,
    /// size of the main key (aka. "ikm", input key material)
    pub key_size: u32,
}
/// key_type: type.googleapis.com/google.crypto.tink.AesGcmHkdfStreamingKey
#[derive(Clone, Debug, PartialEq, Eq, Default)]
pub struct AesGcmHkdfStreamingKey {
    pub version: u32,
    pub params: Option<AesGcmHkdfStreamingParams>,
    pub key_value: Vec<u8>,
}
/// The only allowed IV size is 12 bytes and tag size is 16 bytes.
/// Thus, accept no params.
#[derive(Clone, Debug, PartialEq, Eq, Default)]
pub struct AesGcmSivKeyFormat {
    pub key_size: u32,
    pub version: u32,
}
/// key_type: type.googleapis.com/google.crypto.tink.AesGcmSivKey
#[derive(Clone, Debug, PartialEq, Eq, Default)]
pub struct AesGcmSivKey {
    pub version: u32,
    pub key_value: Vec<u8>,
}
#[derive(Clone, Debug, PartialEq, Eq, Default)]
pub struct AesSivKeyFormat {
    /// Only valid value is: 64.
    pub key_size: u32,
    pub version: u32,
}
/// key_type: type.googleapis.com/google.crypto.tink.AesSivKey
#[derive(Clone, Debug, PartialEq, Eq, Default)]
pub struct AesSivKey {
    pub version: u32,
    /// First half is AES-CTR key, second is AES-SIV.
    pub key_value: Vec<u8>,
}
#[derive(Clone, Debug, PartialEq, Eq, Default)]
pub struct ChaCha20Poly1305KeyFormat {}
/// key_type: type.googleapis.com/google.crypto.tink.ChaCha20Poly1305.
/// This key type actually implements ChaCha20Poly1305 as described
/// at <https://tools.ietf.org/html/rfc7539#section-2.8.>
#[derive(Clone, Debug, PartialEq, Eq, Default)]
pub struct ChaCha20Poly1305Key {
    pub version: u32,
    pub key_value: Vec<u8>,
}
/// An entry that describes a key type to be used with Tink library,
/// specifying the corresponding primitive, key manager, and deprecation status.
/// All fields are required.
#[derive(Clone, Debug, PartialEq, Eq, Default)]
pub struct KeyTypeEntry {
    /// E.g. “Aead”, “Mac”, ... (case-insensitive)
    pub primitive_name: String,
    /// Name of the key type.
    pub type_url: String,
    /// Minimum required version of key manager.
    pub key_manager_version: u32,
    /// Can the key manager create new keys?
    pub new_key_allowed: bool,
    /// Catalogue to be queried for key manager,
    pub catalogue_name: String,
}
/// A complete configuration of Tink library: a list of key types
/// to be available via the Registry after initialization.
/// All fields are required.
#[derive(Clone, Debug, PartialEq, Eq, Default)]
pub struct RegistryConfig {
    pub config_name: String,
    pub entry: Vec<KeyTypeEntry>,
}
/// Protos for Ecdsa.
#[derive(Clone, Debug, PartialEq, Eq, Default)]
pub struct EcdsaParams {
    /// Required.
    pub hash_type: i32,
    /// Required.
    pub curve: i32,
    /// Required.
    pub encoding: i32,
}
/// key_type: type.googleapis.com/google.crypto.tink.EcdsaPublicKey
#[derive(Clone, Debug, PartialEq, Eq, Default)]
pub struct EcdsaPublicKey {
    /// Required.
    pub version: u32,
    /// Required.
    pub params: Option<EcdsaParams>,
    /// Affine coordinates of the public key in bigendian representation. The
    /// public key is a point (x, y) on the curve defined by params.curve. For
    /// ECDH, it is crucial to verify whether the public key point (x, y) is on the
    /// private's key curve. For ECDSA, such verification is a defense in depth.
    /// Required.
    pub x: Vec<u8>,
    /// Required.
    pub y: Vec<u8>,
}
/// key_type: type.googleapis.com/google.crypto.tink.EcdsaPrivateKey
#[derive(Clone, Debug, PartialEq, Eq, Default)]
pub struct EcdsaPrivateKey {
    /// Required.
    pub version: u32,
    /// Required.
    pub public_key: Option<EcdsaPublicKey>,
    /// Unsigned big integer in bigendian representation.
    /// Required.
    pub key_value: Vec<u8>,
}
#[derive(Clone, Debug, PartialEq, Eq, Default)]
pub struct EcdsaKeyFormat {
    /// Required.
    pub params: Option<EcdsaParams>,
}
#[derive(Clone, Copy, Debug, PartialEq, Eq, Hash, PartialOrd, Ord, Structural)]
pub enum EcdsaSignatureEncoding {
    UnknownEncoding,
    /// The signature's format is r || s, where r and s are zero-padded and have
    /// the same size in bytes as the order of the curve. For example, for NIST
    /// P-256 curve, r and s are zero-padded to 32 bytes.
    IeeeP1363,
    /// The signature is encoded using ASN.1
    /// (<https://tools.ietf.org/html/rfc5480#appendix-A>):
    /// ECDSA-Sig-Value :: = SEQUENCE {
    ///   r INTEGER,
    ///   s INTEGER
    /// }
    Der,
}
#[derive(Clone, Debug, PartialEq, Eq, Default)]
pub struct KeyTemplate {
    /// Required. The type_url of the key type in format
    /// type.googleapis.com/packagename.messagename -- see above for details.
    /// This is typically the protobuf type URL of the *Key proto. In particular,
    /// this is different of the protobuf type URL of the *KeyFormat proto.
    pub type_url: String,
    /// Required. The serialized *KeyFormat proto.
    pub value: Vec<u8>,
    /// Required. The type of prefix used when computing some primitives to
    /// identify the ciphertext/signature, etc.
    pub output_prefix_type: i32,
}
/// The actual *Key-proto is wrapped in a KeyData message, which in addition
/// to this serialized proto contains also type_url identifying the
/// definition of *Key-proto (as in KeyFormat-message), and some extra metadata
/// about the type key material.
#[derive(Clone, Debug, PartialEq, Eq, Default)]
pub struct KeyData {
    /// Required.
    ///
    /// In format type.googleapis.com/packagename.messagename
    pub type_url: String,
    /// Required.
    /// Contains specific serialized *Key proto
    ///
    /// placeholder for ctype
    pub value: Vec<u8>,
    /// Required.
    pub key_material_type: i32,
}
#[derive(Clone, Copy, Debug, PartialEq, Eq, Hash, PartialOrd, Ord, Structural)]
pub enum KeyMaterialType {
    UnknownKeymaterial,
    Symmetric,
    AsymmetricPrivate,
    AsymmetricPublic,
    /// points to a remote key, i.e., in a KMS.
    Remote,
}
/// A Tink user works usually not with single keys, but with keysets,
/// to enable key rotation.  The keys in a keyset can belong to different
/// implementations/key types, but must all implement the same primitive.
/// Any given keyset (and any given key) can be used for one primitive only.
#[derive(Clone, Debug, PartialEq, Eq, Default)]
pub struct Keyset {
    /// Identifies key used to generate new crypto data (encrypt, sign).
    /// Required.
    pub primary_key_id: u32,
    /// Actual keys in the Keyset.
    /// Required.
    pub key: Vec<Key>,
}
    #[derive(Clone, Debug, PartialEq, Eq, Default)]
pub struct Key {
    /// Contains the actual, instantiation specific key proto.
    /// By convention, each key proto contains a version field.
    pub key_data: Option<KeyData>,
    pub status: i32,
    /// Identifies a key within a keyset, is a part of metadata
    /// of a ciphertext/signature.
    pub key_id: u32,
    /// Determines the prefix of the ciphertexts/signatures produced by this key.
    /// This value is copied verbatim from the key template.
    pub output_prefix_type: i32,
}
/// Represents a "safe" Keyset that doesn't contain any actual key material,
/// thus can be used for logging or monitoring. Most fields are copied from
/// Keyset.
#[derive(Clone, Debug, PartialEq, Eq, Default)]
pub struct KeysetInfo {
    /// See Keyset.primary_key_id.
    pub primary_key_id: u32,
    /// KeyInfos in the KeysetInfo.
    /// Each KeyInfo is corresponding to a Key in the corresponding Keyset.
    pub key_info: Vec<KeyInfo>,
}
    #[derive(Clone, Debug, PartialEq, Eq, Default)]
pub struct KeyInfo {
    /// the type url of this key,
    /// e.g., type.googleapis.com/google.crypto.tink.HmacKey.
    pub type_url: String,
    /// See Keyset.Key.status.
    pub status: i32,
    /// See Keyset.Key.key_id.
    pub key_id: u32,
    /// See Keyset.Key.output_prefix_type.
    pub output_prefix_type: i32,
}
/// Represents a keyset that is encrypted with a master key.
#[derive(Clone, Debug, PartialEq, Eq, Default)]
pub struct EncryptedKeyset {
    /// Required.
    pub encrypted_keyset: Vec<u8>,
    /// Optional.
    pub keyset_info: Option<KeysetInfo>,
}
#[derive(Clone, Copy, Debug, PartialEq, Eq, Hash, PartialOrd, Ord, Structural)]
pub enum KeyStatusType {
    UnknownStatus,
    /// Can be used for crypto operations.
    Enabled,
    /// Cannot be used, but exists and can become ENABLED.
    Disabled,
    /// Key data does not exist in this Keyset any more.
    Destroyed,
}
/// Tink produces and accepts ciphertexts or signatures that consist
/// of a prefix and a payload. The payload and its format is determined
/// entirely by the primitive, but the prefix has to be one of the following
/// 4 types:
///    - Legacy: prefix is 5 bytes, starts with \x00 and followed by a 4-byte
///              key id that is computed from the key material. In addition to
///              that, signature schemes and MACs will add a \x00 byte to the
///              end of the data being signed / MACed when operating on keys
///              with this OutputPrefixType.
///    - Crunchy: prefix is 5 bytes, starts with \x00 and followed by a 4-byte
///              key id that is generated randomly.
///    - Tink  : prefix is 5 bytes, starts with \x01 and followed by 4-byte
///              key id that is generated randomly.
///    - Raw   : prefix is 0 byte, i.e., empty.
#[derive(Clone, Copy, Debug, PartialEq, Eq, Hash, PartialOrd, Ord, Structural)]
pub enum OutputPrefixType {
    UnknownPrefix,
    Tink,
    Legacy,
    Raw,
    Crunchy,
}
/// Parameters of KEM (Key Encapsulation Mechanism)
#[derive(Clone, Debug, PartialEq, Eq, Default)]
pub struct EciesHkdfKemParams {
    /// Required.
    pub curve_type: i32,
    /// Required.
    pub hkdf_hash_type: i32,
    /// Optional.
    pub hkdf_salt: Vec<u8>,
}
/// Parameters of AEAD DEM (Data Encapsulation Mechanism).
#[derive(Clone, Debug, PartialEq, Eq, Default)]
pub struct EciesAeadDemParams {
    /// Required.
    /// Contains an Aead or DeterministicAead key format (e.g:
    /// AesCtrHmacAeadKeyFormat, AesGcmKeyFormat or AesSivKeyFormat).
    pub aead_dem: Option<KeyTemplate>,
}
#[derive(Clone, Debug, PartialEq, Eq, Default)]
pub struct EciesAeadHkdfParams {
    /// Key Encapsulation Mechanism.
    /// Required.
    pub kem_params: Option<EciesHkdfKemParams>,
    /// Data Encapsulation Mechanism.
    /// Required.
    pub dem_params: Option<EciesAeadDemParams>,
    /// EC point format.
    /// Required.
    pub ec_point_format: i32,
}
/// EciesAeadHkdfPublicKey represents HybridEncryption primitive.
/// key_type: type.googleapis.com/google.crypto.tink.EciesAeadHkdfPublicKey
#[derive(Clone, Debug, PartialEq, Eq, Default)]
pub struct EciesAeadHkdfPublicKey {
    /// Required.
    pub version: u32,
    /// Required.
    pub params: Option<EciesAeadHkdfParams>,
    /// Affine coordinates of the public key in bigendian representation.
    /// The public key is a point (x, y) on the curve defined by
    /// params.kem_params.curve. Required.
    pub x: Vec<u8>,
    /// Required.
    pub y: Vec<u8>,
}
/// EciesKdfAeadPrivateKey represents HybridDecryption primitive.
/// key_type: type.googleapis.com/google.crypto.tink.EciesAeadHkdfPrivateKey
#[derive(Clone, Debug, PartialEq, Eq, Default)]
pub struct EciesAeadHkdfPrivateKey {
    /// Required.
    pub version: u32,
    /// Required.
    pub public_key: Option<EciesAeadHkdfPublicKey>,
    /// Required.
    ///
    /// Big integer in bigendian representation.
    pub key_value: Vec<u8>,
}
#[derive(Clone, Debug, PartialEq, Eq, Default)]
pub struct EciesAeadHkdfKeyFormat {
    /// Required.
    pub params: Option<EciesAeadHkdfParams>,
}
#[derive(Clone, Debug, PartialEq, Eq, Default)]
pub struct Ed25519KeyFormat {
    pub version: u32,
}
/// key_type: type.googleapis.com/google.crypto.tink.Ed25519PublicKey
#[derive(Clone, Debug, PartialEq, Eq, Default)]
pub struct Ed25519PublicKey {
    /// Required.
    pub version: u32,
    /// The public key is 32 bytes, encoded according to
    /// <https://tools.ietf.org/html/rfc8032#section-5.1.2.>
    /// Required.
    pub key_value: Vec<u8>,
}
/// key_type: type.googleapis.com/google.crypto.tink.Ed25519PrivateKey
#[derive(Clone, Debug, PartialEq, Eq, Default)]
pub struct Ed25519PrivateKey {
    /// Required.
    pub version: u32,
    /// The private key is 32 bytes of cryptographically secure random data.
    /// See <https://tools.ietf.org/html/rfc8032#section-5.1.5.>
    /// Required.
    pub key_value: Vec<u8>,
    /// The corresponding public key.
    pub public_key: Option<Ed25519PublicKey>,
}
#[derive(Clone, Debug, PartialEq, Eq, Default)]
pub struct Empty {}
#[derive(Clone, Debug, PartialEq, Eq, Default)]
pub struct HkdfPrfParams {
    pub hash: i32,
    /// Salt, optional in RFC 5869. Using "" is equivalent to zeros of length up to
    /// the block length of the HMac.
    pub salt: Vec<u8>,
}
#[derive(Clone, Debug, PartialEq, Eq, Default)]
pub struct HkdfPrfKey {
    pub version: u32,
    pub params: Option<HkdfPrfParams>,
    pub key_value: Vec<u8>,
}
#[derive(Clone, Debug, PartialEq, Eq, Default)]
pub struct HkdfPrfKeyFormat {
    pub params: Option<HkdfPrfParams>,
    pub key_size: u32,
    pub version: u32,
}
#[derive(Clone, Debug, PartialEq, Eq, Default)]
pub struct HmacPrfParams {
    /// HashType is an enum.
    pub hash: i32,
}
/// key_type: type.googleapis.com/google.crypto.tink.HmacPrfKey
#[derive(Clone, Debug, PartialEq, Eq, Default)]
pub struct HmacPrfKey {
    pub version: u32,
    pub params: Option<HmacPrfParams>,
    pub key_value: Vec<u8>,
}
#[derive(Clone, Debug, PartialEq, Eq, Default)]
pub struct HmacPrfKeyFormat {
    pub params: Option<HmacPrfParams>,
    pub key_size: u32,
    pub version: u32,
}
/// key_type: type.googleapis.com/google.crypto.tink.JwtHmacKey
#[derive(Clone, Debug, PartialEq, Eq, Default)]
pub struct JwtHmacKey {
    pub version: u32,
    pub algorithm: i32,
    pub key_value: Vec<u8>,
    pub custom_kid: Option<CustomKid>,
}
/// Optional, custom kid header value to be used with "RAW" keys.
/// "TINK" keys with this value set will be rejected.
    #[derive(Clone, Debug, PartialEq, Eq, Default)]
pub struct CustomKid {
    pub value: String,
}
#[derive(Clone, Debug, PartialEq, Eq, Default)]
pub struct JwtHmacKeyFormat {
    pub version: u32,
    pub algorithm: i32,
    pub key_size: u32,
}
#[derive(Clone, Copy, Debug, PartialEq, Eq, Hash, PartialOrd, Ord, Structural)]
pub enum JwtHmacAlgorithm {
    HsUnknown,
    Hs256,
    Hs384,
    Hs512,
}
#[derive(Clone, Debug, PartialEq, Eq, Default)]
pub struct KmsAeadKeyFormat {
    /// Required.
    /// The location of a KMS key.
    /// With Google Cloud KMS, valid values have this format:
    /// gcp-kms://projects/*/locations/*/keyRings/*/cryptoKeys/*.
    /// With AWS KMS, valid values have this format:
    /// aws-kms://arn:aws:kms:<region>:<account-id>:key/<key-id>
    pub key_uri: String,
}
/// There is no actual key material in the key.
#[derive(Clone, Debug, PartialEq, Eq, Default)]
pub struct KmsAeadKey {
    pub version: u32,
    /// The key format also contains the params.
    pub params: Option<KmsAeadKeyFormat>,
}
#[derive(Clone, Debug, PartialEq, Eq, Default)]
pub struct KmsEnvelopeAeadKeyFormat {
    /// Required.
    /// The location of the KEK in a remote KMS.
    /// With Google Cloud KMS, valid values have this format:
    /// gcp-kms://projects/*/locations/*/keyRings/*/cryptoKeys/*.
    /// With AWS KMS, valid values have this format:
    /// aws-kms://arn:aws:kms:<region>:<account-id>:key/<key-id>
    pub kek_uri: String,
    /// Key template of the Data Encryption Key, e.g., AesCtrHmacAeadKeyFormat.
    /// Required.
    pub dek_template: Option<KeyTemplate>,
}
/// There is no actual key material in the key.
#[derive(Clone, Debug, PartialEq, Eq, Default)]
pub struct KmsEnvelopeAeadKey {
    pub version: u32,
    /// The key format also contains the params.
    pub params: Option<KmsEnvelopeAeadKeyFormat>,
}
#[derive(Clone, Debug, PartialEq, Eq, Default)]
pub struct PrfBasedDeriverParams {
    pub derived_key_template: Option<KeyTemplate>,
}
#[derive(Clone, Debug, PartialEq, Eq, Default)]
pub struct PrfBasedDeriverKeyFormat {
    pub prf_key_template: Option<KeyTemplate>,
    pub params: Option<PrfBasedDeriverParams>,
}
/// key_type: type.googleapis.com/google.crypto.tink.PrfBasedDeriverKey
#[derive(Clone, Debug, PartialEq, Eq, Default)]
pub struct PrfBasedDeriverKey {
    pub version: u32,
    pub prf_key: Option<KeyData>,
    pub params: Option<PrfBasedDeriverParams>,
}
#[derive(Clone, Debug, PartialEq, Eq, Default)]
pub struct RsaSsaPkcs1Params {
    /// Hash function used in computing hash of the signing message
    /// (see <https://tools.ietf.org/html/rfc8017#section-9.2>).
    /// Required.
    pub hash_type: i32,
}
/// key_type: type.googleapis.com/google.crypto.tink.RsaSsaPkcs1PublicKey
#[derive(Clone, Debug, PartialEq, Eq, Default)]
pub struct RsaSsaPkcs1PublicKey {
    /// Required.
    pub version: u32,
    /// Required.
    pub params: Option<RsaSsaPkcs1Params>,
    /// Modulus.
    /// Unsigned big integer in bigendian representation.
    pub n: Vec<u8>,
    /// Public exponent.
    /// Unsigned big integer in bigendian representation.
    pub e: Vec<u8>,
}
/// key_type: type.googleapis.com/google.crypto.tink.RsaSsaPkcs1PrivateKey
#[derive(Clone, Debug, PartialEq, Eq, Default)]
pub struct RsaSsaPkcs1PrivateKey {
    /// Required.
    pub version: u32,
    /// Required.
    pub public_key: Option<RsaSsaPkcs1PublicKey>,
    /// Private exponent.
    /// Unsigned big integer in bigendian representation.
    /// Required.
    pub d: Vec<u8>,
    /// The following parameters are used to optimize RSA signature computation.
    /// The prime factor p of n.
    /// Unsigned big integer in bigendian representation.
    /// Required.
    pub p: Vec<u8>,
    /// The prime factor q of n.
    /// Unsigned big integer in bigendian representation.
    /// Required.
    pub q: Vec<u8>,
    /// d mod (p - 1).
    /// Unsigned big integer in bigendian representation.
    /// Required.
    pub dp: Vec<u8>,
    /// d mod (q - 1).
    /// Unsigned big integer in bigendian representation.
    /// Required.
    pub dq: Vec<u8>,
    /// Chinese Remainder Theorem coefficient q^(-1) mod p.
    /// Unsigned big integer in bigendian representation.
    /// Required.
    pub crt: Vec<u8>,
}
#[derive(Clone, Debug, PartialEq, Eq, Default)]
pub struct RsaSsaPkcs1KeyFormat {
    /// Required.
    pub params: Option<RsaSsaPkcs1Params>,
    /// Required.
    pub modulus_size_in_bits: u32,
    /// Required.
    pub public_exponent: Vec<u8>,
}
#[derive(Clone, Debug, PartialEq, Eq, Default)]
pub struct RsaSsaPssParams {
    /// Hash function used in computing hash of the signing message
    /// (see <https://tools.ietf.org/html/rfc8017#section-9.1.1>).
    /// Required.
    pub sig_hash: i32,
    /// Hash function used in MGF1 (a mask generation function based on a
    /// hash function) (see <https://tools.ietf.org/html/rfc8017#appendix-B.2.1>).
    /// Required.
    pub mgf1_hash: i32,
    /// Salt length (see <https://tools.ietf.org/html/rfc8017#section-9.1.1>)
    /// Required.
    pub salt_length: i32,
}
/// key_type: type.googleapis.com/google.crypto.tink.RsaSsaPssPublicKey
#[derive(Clone, Debug, PartialEq, Eq, Default)]
pub struct RsaSsaPssPublicKey {
    /// Required.
    pub version: u32,
    /// Required.
    pub params: Option<RsaSsaPssParams>,
    /// Modulus.
    /// Unsigned big integer in bigendian representation.
    pub n: Vec<u8>,
    /// Public exponent.
    /// Unsigned big integer in bigendian representation.
    pub e: Vec<u8>,
}
/// key_type: type.googleapis.com/google.crypto.tink.RsaSsaPssPrivateKey
#[derive(Clone, Debug, PartialEq, Eq, Default)]
pub struct RsaSsaPssPrivateKey {
    /// Required.
    pub version: u32,
    /// Required.
    pub public_key: Option<RsaSsaPssPublicKey>,
    /// Private exponent.
    /// Unsigned big integer in bigendian representation.
    /// Required.
    pub d: Vec<u8>,
    /// The following parameters are used to optimize RSA signature computation.
    /// The prime factor p of n.
    /// Unsigned big integer in bigendian representation.
    /// Required.
    pub p: Vec<u8>,
    /// The prime factor q of n.
    /// Unsigned big integer in bigendian representation.
    /// Required.
    pub q: Vec<u8>,
    /// d mod (p - 1).
    /// Unsigned big integer in bigendian representation.
    /// Required.
    pub dp: Vec<u8>,
    /// d mod (q - 1).
    /// Unsigned big integer in bigendian representation.
    /// Required.
    pub dq: Vec<u8>,
    /// Chinese Remainder Theorem coefficient q^(-1) mod p.
    /// Unsigned big integer in bigendian representation.
    /// Required.
    pub crt: Vec<u8>,
}
#[derive(Clone, Debug, PartialEq, Eq, Default)]
pub struct RsaSsaPssKeyFormat {
    /// Required.
    pub params: Option<RsaSsaPssParams>,
    /// Required.
    pub modulus_size_in_bits: u32,
    /// Required.
    pub public_exponent: Vec<u8>,
}
#[derive(Clone, Debug, PartialEq, Eq, Default)]
pub struct XChaCha20Poly1305KeyFormat {
    pub version: u32,
}
/// key_type: type.googleapis.com/google.crypto.tink.XChaCha20Poly1305Key
#[derive(Clone, Debug, PartialEq, Eq, Default)]
pub struct XChaCha20Poly1305Key {
    pub version: u32,
    pub key_value: Vec<u8>,
}

impl EllipticCurveType {
    /// The number that stands for this value in the wire encoding.
    pub open spec fn spec_value(self) -> i32 {
        match self {
            EllipticCurveType::UnknownCurve => 0,
            EllipticCurveType::NistP256 => 2,
            EllipticCurveType::NistP384 => 3,
            EllipticCurveType::NistP521 => 4,
            EllipticCurveType::Curve25519 => 5,
        }
    }

    /// The field name of this value in the schema.
    pub open spec fn spec_str_name(self) -> Seq<char> {
        match self {
            EllipticCurveType::UnknownCurve => "UNKNOWN_CURVE"@,
            EllipticCurveType::NistP256 => "NIST_P256"@,
            EllipticCurveType::NistP384 => "NIST_P384"@,
            EllipticCurveType::NistP521 => "NIST_P521"@,
            EllipticCurveType::Curve25519 => "CURVE25519"@,
        }
    }

    /// The value that `v` stands for, if any.
    pub open spec fn spec_from_i32(v: i32) -> Option<EllipticCurveType> {
        if v == 0 {
            Some(EllipticCurveType::UnknownCurve)
        } else if v == 2 {
            Some(EllipticCurveType::NistP256)
        } else if v == 3 {
            Some(EllipticCurveType::NistP384)
        } else if v == 4 {
            Some(EllipticCurveType::NistP521)
        } else if v == 5 {
            Some(EllipticCurveType::Curve25519)
        } else {
            None
        }
    }

    /// Returns the number that stands for this value in the wire encoding.
    pub fn value(&self) -> (r: i32)
        ensures
            r == self.spec_value(),
    {
        match self {
            EllipticCurveType::UnknownCurve => 0,
            EllipticCurveType::NistP256 => 2,
            EllipticCurveType::NistP384 => 3,
            EllipticCurveType::NistP521 => 4,
            EllipticCurveType::Curve25519 => 5,
        }
    }

    /// Returns the value that `v` stands for, or `None` when no value does.
    pub fn from_i32(v: i32) -> (r: Option<EllipticCurveType>)
        ensures
            r == EllipticCurveType::spec_from_i32(v),
            r matches Some(x) ==> x.spec_value() == v,
    {
        match v {
            0 => Some(EllipticCurveType::UnknownCurve),
            2 => Some(EllipticCurveType::NistP256),
            3 => Some(EllipticCurveType::NistP384),
            4 => Some(EllipticCurveType::NistP521),
            5 => Some(EllipticCurveType::Curve25519),
            _ => None,
        }
    }

    /// String value of the enum field names used in the ProtoBuf definition.
    ///
    /// The values are not transformed in any way and thus are considered stable
    /// (if the ProtoBuf definition does not change) and safe for programmatic use.
    pub fn as_str_name(&self) -> (r: &'static str)
        ensures
            r@ == self.spec_str_name(),
    {
        match self {
            EllipticCurveType::UnknownCurve => "UNKNOWN_CURVE",
            EllipticCurveType::NistP256 => "NIST_P256",
            EllipticCurveType::NistP384 => "NIST_P384",
            EllipticCurveType::NistP521 => "NIST_P521",
            EllipticCurveType::Curve25519 => "CURVE25519",
        }
    }
}

impl EcPointFormat {
    /// The number that stands for this value in the wire encoding.
    pub open spec fn spec_value(self) -> i32 {
        match self {
            EcPointFormat::UnknownFormat => 0,
            EcPointFormat::Uncompressed => 1,
            EcPointFormat::Compressed => 2,
            EcPointFormat::DoNotUseCrunchyUncompressed => 3,
        }
    }

    /// The field name of this value in the schema.
    pub open spec fn spec_str_name(self) -> Seq<char> {
        match self {
            EcPointFormat::UnknownFormat => "UNKNOWN_FORMAT"@,
            EcPointFormat::Uncompressed => "UNCOMPRESSED"@,
            EcPointFormat::Compressed => "COMPRESSED"@,
            EcPointFormat::DoNotUseCrunchyUncompressed => "DO_NOT_USE_CRUNCHY_UNCOMPRESSED"@,
        }
    }

    /// The value that `v` stands for, if any.
    pub open spec fn spec_from_i32(v: i32) -> Option<EcPointFormat> {
        if v == 0 {
            Some(EcPointFormat::UnknownFormat)
        } else if v == 1 {
            Some(EcPointFormat::Uncompressed)
        } else if v == 2 {
            Some(EcPointFormat::Compressed)
        } else if v == 3 {
            Some(EcPointFormat::DoNotUseCrunchyUncompressed)
        } else {
            None
        }
    }

    /// Returns the number that stands for this value in the wire encoding.
    pub fn value(&self) -> (r: i32)
        ensures
            r == self.spec_value(),
    {
        match self {
            EcPointFormat::UnknownFormat => 0,
            EcPointFormat::Uncompressed => 1,
            EcPointFormat::Compressed => 2,
            EcPointFormat::DoNotUseCrunchyUncompressed => 3,
        }
    }

    /// Returns the value that `v` stands for, or `None` when no value does.
    pub fn from_i32(v: i32) -> (r: Option<EcPointFormat>)
        ensures
            r == EcPointFormat::spec_from_i32(v),
            r matches Some(x) ==> x.spec_value() == v,
    {
        match v {
            0 => Some(EcPointFormat::UnknownFormat),
            1 => Some(EcPointFormat::Uncompressed),
            2 => Some(EcPointFormat::Compressed),
            3 => Some(EcPointFormat::DoNotUseCrunchyUncompressed),
            _ => None,
        }
    }

    /// String value of the enum field names used in the ProtoBuf definition.
    ///
    /// The values are not transformed in any way and thus are considered stable
    /// (if the ProtoBuf definition does not change) and safe for programmatic use.
    pub fn as_str_name(&self) -> (r: &'static str)
        ensures
            r@ == self.spec_str_name(),
    {
        match self {
            EcPointFormat::UnknownFormat => "UNKNOWN_FORMAT",
            EcPointFormat::Uncompressed => "UNCOMPRESSED",
            EcPointFormat::Compressed => "COMPRESSED",
            EcPointFormat::DoNotUseCrunchyUncompressed => "DO_NOT_USE_CRUNCHY_UNCOMPRESSED",
        }
    }
}

impl HashType {
    /// The number that stands for this value in the wire encoding.
    pub open spec fn spec_value(self) -> i32 {
        match self {
            HashType::UnknownHash => 0,
            HashType::Sha1 => 1,
            HashType::Sha384 => 2,
            HashType::Sha256 => 3,
            HashType::Sha512 => 4,
            HashType::Sha224 => 5,
        }
    }

    /// The field name of this value in the schema.
    pub open spec fn spec_str_name(self) -> Seq<char> {
        match self {
            HashType::UnknownHash => "UNKNOWN_HASH"@,
            HashType::Sha1 => "SHA1"@,
            HashType::Sha384 => "SHA384"@,
            HashType::Sha256 => "SHA256"@,
            HashType::Sha512 => "SHA512"@,
            HashType::Sha224 => "SHA224"@,
        }
    }

    /// The value that `v` stands for, if any.
    pub open spec fn spec_from_i32(v: i32) -> Option<HashType> {
        if v == 0 {
            Some(HashType::UnknownHash)
        } else if v == 1 {
            Some(HashType::Sha1)
        } else if v == 2 {
            Some(HashType::Sha384)
        } else if v == 3 {
            Some(HashType::Sha256)
        } else if v == 4 {
            Some(HashType::Sha512)
        } else if v == 5 {
            Some(HashType::Sha224)
        } else {
            None
        }
    }

    /// Returns the number that stands for this value in the wire encoding.
    pub fn value(&self) -> (r: i32)
        ensures
            r == self.spec_value(),
    {
        match self {
            HashType::UnknownHash => 0,
            HashType::Sha1 => 1,
            HashType::Sha384 => 2,
            HashType::Sha256 => 3,
            HashType::Sha512 => 4,
            HashType::Sha224 => 5,
        }
    }

    /// Returns the value that `v` stands for, or `None` when no value does.
    pub fn from_i32(v: i32) -> (r: Option<HashType>)
        ensures
            r == HashType::spec_from_i32(v),
            r matches Some(x) ==> x.spec_value() == v,
    {
        match v {
            0 => Some(HashType::UnknownHash),
            1 => Some(HashType::Sha1),
            2 => Some(HashType::Sha384),
            3 => Some(HashType::Sha256),
            4 => Some(HashType::Sha512),
            5 => Some(HashType::Sha224),
            _ => None,
        }
    }

    /// String value of the enum field names used in the ProtoBuf definition.
    ///
    /// The values are not transformed in any way and thus are considered stable
    /// (if the ProtoBuf definition does not change) and safe for programmatic use.
    pub fn as_str_name(&self) -> (r: &'static str)
        ensures
            r@ == self.spec_str_name(),
    {
        match self {
            HashType::UnknownHash => "UNKNOWN_HASH",
            HashType::Sha1 => "SHA1",
            HashType::Sha384 => "SHA384",
            HashType::Sha256 => "SHA256",
            HashType::Sha512 => "SHA512",
            HashType::Sha224 => "SHA224",
        }
    }
}

impl EcdsaSignatureEncoding {
    /// The number that stands for this value in the wire encoding.
    pub open spec fn spec_value(self) -> i32 {
        match self {
            EcdsaSignatureEncoding::UnknownEncoding => 0,
            EcdsaSignatureEncoding::IeeeP1363 => 1,
            EcdsaSignatureEncoding::Der => 2,
        }
    }

    /// The field name of this value in the schema.
    pub open spec fn spec_str_name(self) -> Seq<char> {
        match self {
            EcdsaSignatureEncoding::UnknownEncoding => "UNKNOWN_ENCODING"@,
            EcdsaSignatureEncoding::IeeeP1363 => "IEEE_P1363"@,
            EcdsaSignatureEncoding::Der => "DER"@,
        }
    }

    /// The value that `v` stands for, if any.
    pub open spec fn spec_from_i32(v: i32) -> Option<EcdsaSignatureEncoding> {
        if v == 0 {
            Some(EcdsaSignatureEncoding::UnknownEncoding)
        } else if v == 1 {
            Some(EcdsaSignatureEncoding::IeeeP1363)
        } else if v == 2 {
            Some(EcdsaSignatureEncoding::Der)
        } else {
            None
        }
    }

    /// Returns the number that stands for this value in the wire encoding.
    pub fn value(&self) -> (r: i32)
        ensures
            r == self.spec_value(),
    {
        match self {
            EcdsaSignatureEncoding::UnknownEncoding => 0,
            EcdsaSignatureEncoding::IeeeP1363 => 1,
            EcdsaSignatureEncoding::Der => 2,
        }
    }

    /// Returns the value that `v` stands for, or `None` when no value does.
    pub fn from_i32(v: i32) -> (r: Option<EcdsaSignatureEncoding>)
        ensures
            r == EcdsaSignatureEncoding::spec_from_i32(v),
            r matches Some(x) ==> x.spec_value() == v,
    {
        match v {
            0 => Some(EcdsaSignatureEncoding::UnknownEncoding),
            1 => Some(EcdsaSignatureEncoding::IeeeP1363),
            2 => Some(EcdsaSignatureEncoding::Der),
            _ => None,
        }
    }

    /// String value of the enum field names used in the ProtoBuf definition.
    ///
    /// The values are not transformed in any way and thus are considered stable
    /// (if the ProtoBuf definition does not change) and safe for programmatic use.
    pub fn as_str_name(&self) -> (r: &'static str)
        ensures
            r@ == self.spec_str_name(),
    {
        match self {
            EcdsaSignatureEncoding::UnknownEncoding => "UNKNOWN_ENCODING",
            EcdsaSignatureEncoding::IeeeP1363 => "IEEE_P1363",
            EcdsaSignatureEncoding::Der => "DER",
        }
    }
}

impl KeyMaterialType {
    /// The number that stands for this value in the wire encoding.
    pub open spec fn spec_value(self) -> i32 {
        match self {
            KeyMaterialType::UnknownKeymaterial => 0,
            KeyMaterialType::Symmetric => 1,
            KeyMaterialType::AsymmetricPrivate => 2,
            KeyMaterialType::AsymmetricPublic => 3,
            KeyMaterialType::Remote => 4,
        }
    }

    /// The field name of this value in the schema.
    pub open spec fn spec_str_name(self) -> Seq<char> {
        match self {
            KeyMaterialType::UnknownKeymaterial => "UNKNOWN_KEYMATERIAL"@,
            KeyMaterialType::Symmetric => "SYMMETRIC"@,
            KeyMaterialType::AsymmetricPrivate => "ASYMMETRIC_PRIVATE"@,
            KeyMaterialType::AsymmetricPublic => "ASYMMETRIC_PUBLIC"@,
            KeyMaterialType::Remote => "REMOTE"@,
        }
    }

    /// The value that `v` stands for, if any.
    pub open spec fn spec_from_i32(v: i32) -> Option<KeyMaterialType> {
        if v == 0 {
            Some(KeyMaterialType::UnknownKeymaterial)
        } else if v == 1 {
            Some(KeyMaterialType::Symmetric)
        } else if v == 2 {
            Some(KeyMaterialType::AsymmetricPrivate)
        } else if v == 3 {
            Some(KeyMaterialType::AsymmetricPublic)
        } else if v == 4 {
            Some(KeyMaterialType::Remote)
        } else {
            None
        }
    }

    /// Returns the number that stands for this value in the wire encoding.
    pub fn value(&self) -> (r: i32)
        ensures
            r == self.spec_value(),
    {
        match self {
            KeyMaterialType::UnknownKeymaterial => 0,
            KeyMaterialType::Symmetric => 1,
            KeyMaterialType::AsymmetricPrivate => 2,
            KeyMaterialType::AsymmetricPublic => 3,
            KeyMaterialType::Remote => 4,
        }
    }

    /// Returns the value that `v` stands for, or `None` when no value does.
    pub fn from_i32(v: i32) -> (r: Option<KeyMaterialType>)
        ensures
            r == KeyMaterialType::spec_from_i32(v),
            r matches Some(x) ==> x.spec_value() == v,
    {
        match v {
            0 => Some(KeyMaterialType::UnknownKeymaterial),
            1 => Some(KeyMaterialType::Symmetric),
            2 => Some(KeyMaterialType::AsymmetricPrivate),
            3 => Some(KeyMaterialType::AsymmetricPublic),
            4 => Some(KeyMaterialType::Remote),
            _ => None,
        }
    }

    /// String value of the enum field names used in the ProtoBuf definition.
    ///
    /// The values are not transformed in any way and thus are considered stable
    /// (if the ProtoBuf definition does not change) and safe for programmatic use.
    pub fn as_str_name(&self) -> (r: &'static str)
        ensures
            r@ == self.spec_str_name(),
    {
        match self {
            KeyMaterialType::UnknownKeymaterial => "UNKNOWN_KEYMATERIAL",
            KeyMaterialType::Symmetric => "SYMMETRIC",
            KeyMaterialType::AsymmetricPrivate => "ASYMMETRIC_PRIVATE",
            KeyMaterialType::AsymmetricPublic => "ASYMMETRIC_PUBLIC",
            KeyMaterialType::Remote => "REMOTE",
        }
    }
}

impl KeyStatusType {
    /// The number that stands for this value in the wire encoding.
    pub open spec fn spec_value(self) -> i32 {
        match self {
            KeyStatusType::UnknownStatus => 0,
            KeyStatusType::Enabled => 1,
            KeyStatusType::Disabled => 2,
            KeyStatusType::Destroyed => 3,
        }
    }

    /// The field name of this value in the schema.
    pub open spec fn spec_str_name(self) -> Seq<char> {
        match self {
            KeyStatusType::UnknownStatus => "UNKNOWN_STATUS"@,
            KeyStatusType::Enabled => "ENABLED"@,
            KeyStatusType::Disabled => "DISABLED"@,
            KeyStatusType::Destroyed => "DESTROYED"@,
        }
    }

    /// The value that `v` stands for, if any.
    pub open spec fn spec_from_i32(v: i32) -> Option<KeyStatusType> {
        if v == 0 {
            Some(KeyStatusType::UnknownStatus)
        } else if v == 1 {
            Some(KeyStatusType::Enabled)
        } else if v == 2 {
            Some(KeyStatusType::Disabled)
        } else if v == 3 {
            Some(KeyStatusType::Destroyed)
        } else {
            None
        }
    }

    /// Returns the number that stands for this value in the wire encoding.
    pub fn value(&self) -> (r: i32)
        ensures
            r == self.spec_value(),
    {
        match self {
            KeyStatusType::UnknownStatus => 0,
            KeyStatusType::Enabled => 1,
            KeyStatusType::Disabled => 2,
            KeyStatusType::Destroyed => 3,
        }
    }

    /// Returns the value that `v` stands for, or `None` when no value does.
    pub fn from_i32(v: i32) -> (r: Option<KeyStatusType>)
        ensures
            r == KeyStatusType::spec_from_i32(v),
            r matches Some(x) ==> x.spec_value() == v,
    {
        match v {
            0 => Some(KeyStatusType::UnknownStatus),
            1 => Some(KeyStatusType::Enabled),
            2 => Some(KeyStatusType::Disabled),
            3 => Some(KeyStatusType::Destroyed),
            _ => None,
        }
    }

    /// String value of the enum field names used in the ProtoBuf definition.
    ///
    /// The values are not transformed in any way and thus are considered stable
    /// (if the ProtoBuf definition does not change) and safe for programmatic use.
    pub fn as_str_name(&self) -> (r: &'static str)
        ensures
            r@ == self.spec_str_name(),
    {
        match self {
            KeyStatusType::UnknownStatus => "UNKNOWN_STATUS",
            KeyStatusType::Enabled => "ENABLED",
            KeyStatusType::Disabled => "DISABLED",
            KeyStatusType::Destroyed => "DESTROYED",
        }
    }
}

impl OutputPrefixType {
    /// The number that stands for this value in the wire encoding.
    pub open spec fn spec_value(self) -> i32 {
        match self {
            OutputPrefixType::UnknownPrefix => 0,
            OutputPrefixType::Tink => 1,
            OutputPrefixType::Legacy => 2,
            OutputPrefixType::Raw => 3,
            OutputPrefixType::Crunchy => 4,
        }
    }

    /// The field name of this value in the schema.
    pub open spec fn spec_str_name(self) -> Seq<char> {
        match self {
            OutputPrefixType::UnknownPrefix => "UNKNOWN_PREFIX"@,
            OutputPrefixType::Tink => "TINK"@,
            OutputPrefixType::Legacy => "LEGACY"@,
            OutputPrefixType::Raw => "RAW"@,
            OutputPrefixType::Crunchy => "CRUNCHY"@,
        }
    }

    /// The value that `v` stands for, if any.
    pub open spec fn spec_from_i32(v: i32) -> Option<OutputPrefixType> {
        if v == 0 {
            Some(OutputPrefixType::UnknownPrefix)
        } else if v == 1 {
            Some(OutputPrefixType::Tink)
        } else if v == 2 {
            Some(OutputPrefixType::Legacy)
        } else if v == 3 {
            Some(OutputPrefixType::Raw)
        } else if v == 4 {
            Some(OutputPrefixType::Crunchy)
        } else {
            None
        }
    }

    /// Returns the number that stands for this value in the wire encoding.
    pub fn value(&self) -> (r: i32)
        ensures
            r == self.spec_value(),
    {
        match self {
            OutputPrefixType::UnknownPrefix => 0,
            OutputPrefixType::Tink => 1,
            OutputPrefixType::Legacy => 2,
            OutputPrefixType::Raw => 3,
            OutputPrefixType::Crunchy => 4,
        }
    }

    /// Returns the value that `v` stands for, or `None` when no value does.
    pub fn from_i32(v: i32) -> (r: Option<OutputPrefixType>)
        ensures
            r == OutputPrefixType::spec_from_i32(v),
            r matches Some(x) ==> x.spec_value() == v,
    {
        match v {
            0 => Some(OutputPrefixType::UnknownPrefix),
            1 => Some(OutputPrefixType::Tink),
            2 => Some(OutputPrefixType::Legacy),
            3 => Some(OutputPrefixType::Raw),
            4 => Some(OutputPrefixType::Crunchy),
            _ => None,
        }
    }

    /// String value of the enum field names used in the ProtoBuf definition.
    ///
    /// The values are not transformed in any way and thus are considered stable
    /// (if the ProtoBuf definition does not change) and safe for programmatic use.
    pub fn as_str_name(&self) -> (r: &'static str)
        ensures
            r@ == self.spec_str_name(),
    {
        match self {
            OutputPrefixType::UnknownPrefix => "UNKNOWN_PREFIX",
            OutputPrefixType::Tink => "TINK",
            OutputPrefixType::Legacy => "LEGACY",
            OutputPrefixType::Raw => "RAW",
            OutputPrefixType::Crunchy => "CRUNCHY",
        }
    }
}

impl JwtHmacAlgorithm {
    /// The number that stands for this value in the wire encoding.
    pub open spec fn spec_value(self) -> i32 {
        match self {
            JwtHmacAlgorithm::HsUnknown => 0,
            JwtHmacAlgorithm::Hs256 => 1,
            JwtHmacAlgorithm::Hs384 => 2,
            JwtHmacAlgorithm::Hs512 => 3,
        }
    }

    /// The field name of this value in the schema.
    pub open spec fn spec_str_name(self) -> Seq<char> {
        match self {
            JwtHmacAlgorithm::HsUnknown => "HS_UNKNOWN"@,
            JwtHmacAlgorithm::Hs256 => "HS256"@,
            JwtHmacAlgorithm::Hs384 => "HS384"@,
            JwtHmacAlgorithm::Hs512 => "HS512"@,
        }
    }

    /// The value that `v` stands for, if any.
    pub open spec fn spec_from_i32(v: i32) -> Option<JwtHmacAlgorithm> {
        if v == 0 {
            Some(JwtHmacAlgorithm::HsUnknown)
        } else if v == 1 {
            Some(JwtHmacAlgorithm::Hs256)
        } else if v == 2 {
            Some(JwtHmacAlgorithm::Hs384)
        } else if v == 3 {
            Some(JwtHmacAlgorithm::Hs512)
        } else {
            None
        }
    }

    /// Returns the number that stands for this value in the wire encoding.
    pub fn value(&self) -> (r: i32)
        ensures
            r == self.spec_value(),
    {
        match self {
            JwtHmacAlgorithm::HsUnknown => 0,
            JwtHmacAlgorithm::Hs256 => 1,
            JwtHmacAlgorithm::Hs384 => 2,
            JwtHmacAlgorithm::Hs512 => 3,
        }
    }

    /// Returns the value that `v` stands for, or `None` when no value does.
    pub fn from_i32(v: i32) -> (r: Option<JwtHmacAlgorithm>)
        ensures
            r == JwtHmacAlgorithm::spec_from_i32(v),
            r matches Some(x) ==> x.spec_value() == v,
    {
        match v {
            0 => Some(JwtHmacAlgorithm::HsUnknown),
            1 => Some(JwtHmacAlgorithm::Hs256),
            2 => Some(JwtHmacAlgorithm::Hs384),
            3 => Some(JwtHmacAlgorithm::Hs512),
            _ => None,
        }
    }

    /// String value of the enum field names used in the ProtoBuf definition.
    ///
    /// The values are not transformed in any way and thus are considered stable
    /// (if the ProtoBuf definition does not change) and safe for programmatic use.
    pub fn as_str_name(&self) -> (r: &'static str)
        ensures
            r@ == self.spec_str_name(),
    {
        match self {
            JwtHmacAlgorithm::HsUnknown => "HS_UNKNOWN",
            JwtHmacAlgorithm::Hs256 => "HS256",
            JwtHmacAlgorithm::Hs384 => "HS384",
            JwtHmacAlgorithm::Hs512 => "HS512",
        }
    }
}

} // verus!
