//! The key material store, the public key publisher and the share decryption
//! coordinator.
//!
//! Both endpoints take the key material as `Option<&SharedState>`: `Some` when the
//! store's read lock was granted, `None` when it could not be (a poisoned lock).

use crate::crypto::{
    base64_decoded, ciphertext_from_json, decode_base64, key_set_threshold, decode_utf8, decrypt_share,
    decryption_share_for, key_share_at, parse_ciphertext_json, public_key_set_json,
    public_key_set_to_json, public_keys, public_keys_of, random_secret_key_set, secret_key_share,
    utf8_decoded,
};
use crate::error::ServiceError;
use std::collections::HashMap;
use threshold_crypto::{Ciphertext, DecryptionShare, PublicKeySet, SecretKeySet};
use vstd::prelude::*;

verus! {

broadcast use vstd::std_specs::hash::group_hash_axioms;

/// The degree of the secret polynomial; each decryption yields `THRESHOLD + 1` shares.
pub const THRESHOLD: usize = 2;

/// The key material held for the life of the process.
pub struct SharedState {
    pub pub_key_set: PublicKeySet,
    pub sec_key_share: SecretKeySet,
}

impl SharedState {
    /// The public key set is the public projection of the held secret key set.
    pub open spec fn wf(&self) -> bool {
        self.pub_key_set == public_keys_of(self.sec_key_share)
    }

    /// Key material built around a given secret key set.
    pub fn from_secret_key_set(sec_key_set: SecretKeySet) -> (r: SharedState)
        ensures
            r.wf(),
            r.sec_key_share == sec_key_set,
    {
        let pub_key_set = public_keys(&sec_key_set);
        SharedState { pub_key_set, sec_key_share: sec_key_set }
    }

    /// Fresh random key material of degree `THRESHOLD`.
    pub fn initialize() -> (r: SharedState)
        ensures
            r.wf(),
            key_set_threshold(r.sec_key_share) == THRESHOLD,
    {
        let sec_key_set = random_secret_key_set(THRESHOLD);
        SharedState::from_secret_key_set(sec_key_set)
    }
}

/// A decryption request: a ciphertext as base64 of its JSON text.
pub struct DecryptionRequest {
    pub ciphertext: String,
}

/// The decryption shares computed for one request, keyed by index.
pub struct DecryptionResponse {
    pub decryption_shares: HashMap<usize, DecryptionShare>,
}

/// The serialized public key set.
pub struct PublicKeyResponse {
    pub pub_key_set: String,
}

/// The secret key set held behind a granted read view, if any.
pub open spec fn held_secret(state: Option<&SharedState>) -> Option<SecretKeySet> {
    match state {
        Some(s) => Some(s.sec_key_share),
        None => None,
    }
}

/// What `get_public_key` answers for a read view of the store.
pub open spec fn public_key_outcome(state: Option<&SharedState>) -> Result<Seq<char>, ServiceError> {
    match state {
        None => Err(ServiceError::ServiceBusy),
        Some(s) => match public_key_set_json(s.pub_key_set) {
            None => Err(ServiceError::PublicKeyReadError),
            Some(t) => Ok(t),
        },
    }
}

/// The validation pipeline: base64, then UTF-8, then the ciphertext's JSON form.
pub open spec fn parsed_wire(wire: Seq<char>) -> Result<Ciphertext, ServiceError> {
    match base64_decoded(wire) {
        None => Err(ServiceError::InvalidBase64),
        Some(bytes) => match utf8_decoded(bytes) {
            None => Err(ServiceError::InvalidCiphertextFormat),
            Some(text) => match ciphertext_from_json(text) {
                None => Err(ServiceError::InvalidCiphertextFormat),
                Some(ct) => Ok(ct),
            },
        },
    }
}

/// The share indices of one decryption: `0..=THRESHOLD`.
pub open spec fn share_indices() -> Set<usize> {
    Set::new(|i: usize| i <= THRESHOLD)
}

/// Whether every index of `share_indices` yields a decryption share.
pub open spec fn all_shares_exist(keys: SecretKeySet, ct: Ciphertext) -> bool {
    forall|i: usize| i <= THRESHOLD ==> (#[trigger] decryption_share_for(key_share_at(keys, i), ct)) is Some
}

/// The decryption share of each index, each from the share of that index of `keys`.
pub open spec fn shares_of(keys: SecretKeySet, ct: Ciphertext) -> Map<usize, DecryptionShare> {
    Map::new(
        |i: usize| i <= THRESHOLD,
        |i: usize| decryption_share_for(key_share_at(keys, i), ct)->Some_0,
    )
}

/// What `threshold_decrypt` answers for a wire ciphertext and the held secret key set
/// (`None` where no read view was granted).
pub open spec fn decrypt_outcome(wire: Seq<char>, keys: Option<SecretKeySet>) -> Result<
    Map<usize, DecryptionShare>,
    ServiceError,
> {
    match parsed_wire(wire) {
        Err(e) => Err(e),
        Ok(ct) => match keys {
            None => Err(ServiceError::ServiceBusy),
            Some(k) => if all_shares_exist(k, ct) {
                Ok(shares_of(k, ct))
            } else {
                Err(ServiceError::DecryptionFailed)
            },
        },
    }
}

/// Serializes the held public key set. Whenever a read view is granted this succeeds
/// with non-empty text.
pub fn get_public_key(state: Option<&SharedState>) -> (r: Result<PublicKeyResponse, ServiceError>)
    ensures
        state is Some ==> r is Ok,
        match r {
            Ok(resp) => public_key_outcome(state) == Ok::<Seq<char>, ServiceError>(
                resp.pub_key_set@,
            ) && resp.pub_key_set@.len() > 0,
            Err(e) => public_key_outcome(state) == Err::<Seq<char>, ServiceError>(e),
        },
{
    let s = match state {
        Some(s) => s,
        None => return Err(ServiceError::ServiceBusy),
    };
    match public_key_set_to_json(&s.pub_key_set) {
        Some(pub_key_set) => Ok(PublicKeyResponse { pub_key_set }),
        None => Err(ServiceError::PublicKeyReadError),
    }
}

/// Decodes the wire form of a ciphertext: base64, then UTF-8, then JSON.
pub fn parse_wire_ciphertext(wire: &str) -> (r: Result<Ciphertext, ServiceError>)
    ensures
        r == parsed_wire(wire@),
{
    let bytes = match decode_base64(wire) {
        Some(b) => b,
        None => return Err(ServiceError::InvalidBase64),
    };
    let text = match decode_utf8(bytes) {
        Some(t) => t,
        None => return Err(ServiceError::InvalidCiphertextFormat),
    };
    match parse_ciphertext_json(text.as_str()) {
        Some(ct) => Ok(ct),
        None => Err(ServiceError::InvalidCiphertextFormat),
    }
}

/// Computes the decryption share of every index `0..=THRESHOLD` from `keys`, or fails
/// as a whole if any one of them cannot be computed.
pub fn decryption_shares(keys: &SecretKeySet, ct: &Ciphertext) -> (r: Result<
    HashMap<usize, DecryptionShare>,
    ServiceError,
>)
    ensures
        match r {
            Ok(m) => all_shares_exist(*keys, *ct) && m@ == shares_of(*keys, *ct),
            Err(e) => !all_shares_exist(*keys, *ct) && e == ServiceError::DecryptionFailed,
        },
{
    let mut shares: HashMap<usize, DecryptionShare> = HashMap::new();
    let mut i: usize = 0;
    while i <= THRESHOLD
        invariant
            i <= THRESHOLD + 1,
            forall|j: usize| j < i ==> (#[trigger] decryption_share_for(key_share_at(*keys, j), *ct)) is Some,
            shares@ =~= Map::new(
                |j: usize| j < i,
                |j: usize| decryption_share_for(key_share_at(*keys, j), *ct)->Some_0,
            ),
        decreases THRESHOLD + 1 - i,
    {
        let key_share = secret_key_share(keys, i);
        let share = match decrypt_share(&key_share, ct) {
            Some(d) => d,
            None => return Err(ServiceError::DecryptionFailed),
        };
        shares.insert(i, share);
        i = i + 1;
    }
    assert(shares@ =~= shares_of(*keys, *ct));
    Ok(shares)
}

/// Turns a request's ciphertext into the decryption shares of indices `0..=THRESHOLD`.
/// The input is validated before the key material is consulted; partial results are
/// never returned.
pub fn threshold_decrypt(request: &DecryptionRequest, state: Option<&SharedState>) -> (r: Result<
    DecryptionResponse,
    ServiceError,
>)
    ensures
        match r {
            Ok(resp) => decrypt_outcome(request.ciphertext@, held_secret(state)) == Ok::<
                Map<usize, DecryptionShare>,
                ServiceError,
            >(resp.decryption_shares@),
            Err(e) => decrypt_outcome(request.ciphertext@, held_secret(state)) == Err::<
                Map<usize, DecryptionShare>,
                ServiceError,
            >(e),
        },
        r is Ok ==> r->Ok_0.decryption_shares@.dom() == share_indices(),
        r is Ok ==> r->Ok_0.decryption_shares@.len() == THRESHOLD + 1,
{
    let ct = parse_wire_ciphertext(request.ciphertext.as_str())?;
    let s = match state {
        Some(s) => s,
        None => return Err(ServiceError::ServiceBusy),
    };
    let decryption_shares = decryption_shares(&s.sec_key_share, &ct)?;
    proof {
        lemma_share_indices_len();
        assert(decryption_shares@.dom() =~= share_indices());
    }
    Ok(DecryptionResponse { decryption_shares })
}

/// The share indices are exactly `0`, `1`, ..., `THRESHOLD`, so there are
/// `THRESHOLD + 1` of them.
pub proof fn lemma_share_indices_len()
    ensures
        share_indices().finite(),
        share_indices().len() == THRESHOLD + 1,
{
    assert(share_indices() =~= set![0usize, 1usize, 2usize]);
}

} // verus!
