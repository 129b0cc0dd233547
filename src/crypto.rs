//! The boundary to the outside libraries. Each cryptographic value is opaque here;
//! what a call returns is named by a spec function of its arguments, so that the
//! logic built on top can be stated exactly in terms of those names.

use base64::Engine;
use threshold_crypto::{Ciphertext, DecryptionShare, PublicKeySet, SecretKeySet, SecretKeyShare};
use vstd::prelude::*;

verus! {

#[verifier::external_type_specification]
#[verifier::external_body]
pub struct ExSecretKeySet(SecretKeySet);

#[verifier::external_type_specification]
#[verifier::external_body]
pub struct ExPublicKeySet(PublicKeySet);

#[verifier::external_type_specification]
#[verifier::external_body]
pub struct ExSecretKeyShare(SecretKeyShare);

#[verifier::external_type_specification]
#[verifier::external_body]
pub struct ExCiphertext(Ciphertext);

#[verifier::external_type_specification]
#[verifier::external_body]
pub struct ExDecryptionShare(DecryptionShare);

/// The bytes that standard base64 (with padding) decodes `s` to, or `None` where `s`
/// is not valid standard base64.
pub uninterp spec fn base64_decoded(s: Seq<char>) -> Option<Seq<u8>>;

/// The text that `b` holds when read as UTF-8, or `None` where `b` is not valid UTF-8.
pub uninterp spec fn utf8_decoded(b: Seq<u8>) -> Option<Seq<char>>;

/// The ciphertext that the JSON text `s` describes, or `None` where it describes none.
pub uninterp spec fn ciphertext_from_json(s: Seq<char>) -> Option<Ciphertext>;

/// The JSON text of a public key set, or `None` where serialization fails.
pub uninterp spec fn public_key_set_json(p: PublicKeySet) -> Option<Seq<char>>;

/// The threshold of a secret key set: the degree of its secret polynomial.
pub uninterp spec fn key_set_threshold(s: SecretKeySet) -> usize;

/// The public projection of a secret key set.
pub uninterp spec fn public_keys_of(s: SecretKeySet) -> PublicKeySet;

/// The secret key share of index `i` derived from a secret key set.
pub uninterp spec fn key_share_at(s: SecretKeySet, i: usize) -> SecretKeyShare;

/// The decryption share that a secret key share yields for a ciphertext, or `None`
/// where the ciphertext does not pass validation.
pub uninterp spec fn decryption_share_for(k: SecretKeyShare, ct: Ciphertext) -> Option<DecryptionShare>;

/// Relies on base64's `general_purpose::STANDARD.decode`: a pure decoding of the
/// input text, which fails exactly on text that is not standard base64.
#[verifier::external_body]
pub(crate) fn decode_base64(s: &str) -> (r: Option<Vec<u8>>)
    ensures
        match r {
            Some(b) => base64_decoded(s@) == Some(b@),
            None => base64_decoded(s@) is None,
        },
{
    base64::engine::general_purpose::STANDARD.decode(s).ok()
}

/// Relies on `String::from_utf8`: it accepts exactly the valid UTF-8 byte strings
/// and returns the text they encode.
#[verifier::external_body]
pub(crate) fn decode_utf8(b: Vec<u8>) -> (r: Option<String>)
    ensures
        match r {
            Some(t) => utf8_decoded(b@) == Some(t@),
            None => utf8_decoded(b@) is None,
        },
{
    String::from_utf8(b).ok()
}

/// Relies on `serde_json::from_str::<Ciphertext>`: the outcome depends on the text alone.
#[verifier::external_body]
pub(crate) fn parse_ciphertext_json(s: &str) -> (r: Option<Ciphertext>)
    ensures
        r == ciphertext_from_json(s@),
{
    serde_json::from_str::<Ciphertext>(s).ok()
}

/// Relies on `serde_json::to_string` for `PublicKeySet`, which derives `Serialize` as a
/// struct with one field, itself a struct holding a sequence of byte tuples (the
/// compressed commitment points). serde_json writes such a value as a JSON object into
/// a `Vec`; with no map keys and no custom failure in these impls it always succeeds,
/// and the text starts with `{`, so it is never empty.
#[verifier::external_body]
pub(crate) fn public_key_set_to_json(p: &PublicKeySet) -> (r: Option<String>)
    ensures
        r is Some,
        match r {
            Some(t) => public_key_set_json(*p) == Some(t@) && t@.len() > 0,
            None => public_key_set_json(*p) is None,
        },
{
    serde_json::to_string(p).ok()
}

/// Relies on `SecretKeySet::public_keys`: a commitment computed from the secret
/// polynomial alone.
#[verifier::external_body]
pub(crate) fn public_keys(s: &SecretKeySet) -> (r: PublicKeySet)
    ensures
        r == public_keys_of(*s),
{
    s.public_keys()
}

/// Relies on `SecretKeySet::secret_key_share`: the secret polynomial evaluated at
/// `i + 1`, a function of the set and the index.
#[verifier::external_body]
pub(crate) fn secret_key_share(s: &SecretKeySet, i: usize) -> (r: SecretKeyShare)
    ensures
        r == key_share_at(*s, i),
{
    s.secret_key_share(i)
}

/// Relies on `SecretKeyShare::decrypt_share`: `None` where the ciphertext fails its
/// validity check, otherwise the ciphertext's first component multiplied by the share.
#[verifier::external_body]
pub(crate) fn decrypt_share(k: &SecretKeyShare, ct: &Ciphertext) -> (r: Option<DecryptionShare>)
    ensures
        r == decryption_share_for(*k, *ct),
{
    k.decrypt_share(ct)
}

/// Relies on `SecretKeySet::random` with rand's thread-local generator: a fresh random
/// polynomial of degree `threshold`. It panics only for `threshold == usize::MAX`;
/// otherwise it draws exactly `threshold + 1` coefficients and trims none, so
/// `SecretKeySet::threshold` of the result is `threshold`.
#[verifier::external_body]
pub(crate) fn random_secret_key_set(threshold: usize) -> (r: SecretKeySet)
    requires
        threshold < usize::MAX,
    ensures
        key_set_threshold(r) == threshold,
{
    SecretKeySet::random(threshold, &mut rand::thread_rng())
}

} // verus!
