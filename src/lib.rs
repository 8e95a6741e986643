//! Bidirectional hybrid public key encryption sessions between a sender and a recipient.
//!
//! One HPKE base-mode setup (DHKEM(P-256, HKDF-SHA-256), HKDF-SHA-256, AES-128-GCM) yields two
//! AEAD contexts, one per direction. The session objects consume themselves on every message and
//! hand back the object for the opposite role, so requests and responses strictly alternate.
pub mod aead;
pub mod error;
pub mod exchange;
pub mod hpke;
pub mod session;

pub use crate::error::{CryptoError, ErrorKind, Operation};
pub use crate::session::{
    RecipientCryptoProvider, RecipientRequestDecryptor, RecipientResponseEncryptor,
    SenderCryptoProvider, SenderRequestEncryptor, SenderResponseDecryptor,
};
