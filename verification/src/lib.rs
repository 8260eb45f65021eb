//! Signing service core: a keychain of private keys for four signature
//! schemes, an encryption-backend abstraction that wraps every private key
//! before it leaves the process, and the length-prefixed CBOR request/response
//! protocol that drives them.

pub mod cbor;
pub mod config;
pub mod crypto;
pub mod kms;
pub mod nsm;
pub mod rpc;
pub mod signer;
pub mod text;
pub mod vsock;

pub use signer::{
    EncryptedSigner, EncryptionBackend, EncryptionBackendFactory, Error, SyncEncryptionBackend,
};
