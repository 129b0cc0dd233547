//! Properties of the decryption coordinator that relate several requests or hold
//! for every input.

use crate::crypto::{base64_decoded, ciphertext_from_json, utf8_decoded};
use crate::error::{status_of, ServiceError};
use crate::service::{decrypt_outcome, held_secret, SharedState};
use threshold_crypto::SecretKeySet;
use vstd::prelude::*;

verus! {

/// Decryption is deterministic: two requests that carry the same ciphertext, served
/// from key material holding the same secret key set, receive the same answer, either
/// the same error or identical shares under identical indices.
pub proof fn lemma_decrypt_deterministic(wire: Seq<char>, a: &SharedState, b: &SharedState)
    requires
        a.sec_key_share == b.sec_key_share,
    ensures
        decrypt_outcome(wire, held_secret(Some(a))) == decrypt_outcome(wire, held_secret(Some(b))),
{
}

/// The input boundary: text that is not base64 is answered with `InvalidBase64`;
/// base64 whose bytes are not UTF-8, or UTF-8 that is not a ciphertext's JSON, with
/// `InvalidCiphertextFormat`. Both are client errors (status 400), and both come
/// before the key material is consulted, so they hold whether or not a read view was
/// granted.
pub proof fn lemma_wire_rejections(wire: Seq<char>, keys: Option<SecretKeySet>)
    ensures
        base64_decoded(wire) is None ==> decrypt_outcome(wire, keys) == Err::<
            Map<usize, threshold_crypto::DecryptionShare>,
            ServiceError,
        >(ServiceError::InvalidBase64),
        base64_decoded(wire) is Some && utf8_decoded(base64_decoded(wire)->Some_0) is None
            ==> decrypt_outcome(wire, keys) == Err::<
            Map<usize, threshold_crypto::DecryptionShare>,
            ServiceError,
        >(ServiceError::InvalidCiphertextFormat),
        base64_decoded(wire) is Some && utf8_decoded(base64_decoded(wire)->Some_0) is Some
            && ciphertext_from_json(utf8_decoded(base64_decoded(wire)->Some_0)->Some_0) is None
            ==> decrypt_outcome(wire, keys) == Err::<
            Map<usize, threshold_crypto::DecryptionShare>,
            ServiceError,
        >(ServiceError::InvalidCiphertextFormat),
        status_of(ServiceError::InvalidBase64) == 400,
        status_of(ServiceError::InvalidCiphertextFormat) == 400,
{
}

} // verus!
