//! Keyset management with verified output-prefix dispatch.

pub mod aead;
pub mod aead_wrapper;
pub mod error;
pub mod gcm_siv;
pub mod keyset;
pub mod mac;
pub mod mac_wrapper;
pub mod prefix;
pub mod primitive_set;
pub mod proto;
pub mod registry;
pub mod signature;
