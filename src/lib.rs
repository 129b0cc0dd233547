//! A participant in a threshold decryption protocol: it holds a secret key set,
//! publishes the matching public key set, and turns a submitted ciphertext into
//! the decryption shares for indices `0..=THRESHOLD`.

pub mod crypto;
pub mod error;
pub mod laws;
pub mod service;

pub use error::ServiceError;

pub use service::{
    get_public_key, threshold_decrypt, DecryptionRequest, DecryptionResponse, PublicKeyResponse,
    SharedState, THRESHOLD,
};
