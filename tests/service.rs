use base64::{engine::general_purpose, Engine};
use key_share_service::{
    get_public_key, threshold_decrypt, DecryptionRequest, ServiceError, SharedState, THRESHOLD,
};
use threshold_crypto::{Ciphertext, PublicKeySet, SecretKeySet};

fn wire_of(ct: &Ciphertext) -> String {
    let json = serde_json::to_string(ct).unwrap();
    general_purpose::STANDARD.encode(json.as_bytes())
}

fn request(ciphertext: String) -> DecryptionRequest {
    DecryptionRequest { ciphertext }
}

#[test]
fn test_get_public_key() {
    let state = SharedState::initialize();
    let response = get_public_key(Some(&state)).unwrap();
    assert!(!response.pub_key_set.is_empty());
}

#[test]
fn test_encrypt_decrypt() {
    let sec_key_set = SecretKeySet::random(2, &mut rand::thread_rng());
    let state = SharedState::from_secret_key_set(sec_key_set);

    let plaintext = "Hello, world!";
    let ciphertext = state.pub_key_set.public_key().encrypt(plaintext.as_bytes());
    let ciphertext_base64 = wire_of(&ciphertext);

    let response = threshold_decrypt(&request(ciphertext_base64.clone()), Some(&state)).unwrap();
    assert!(!response.decryption_shares.is_empty());

    let pub_key_resp = get_public_key(Some(&state)).unwrap();
    let pub_key_set: PublicKeySet = serde_json::from_str(&pub_key_resp.pub_key_set).unwrap();
    let ciphertext_bytes = general_purpose::STANDARD.decode(&ciphertext_base64).unwrap();
    let ciphertext_str = String::from_utf8(ciphertext_bytes).unwrap();
    let ciphertext: Ciphertext = serde_json::from_str(&ciphertext_str).unwrap();

    let plaintext_bytes = pub_key_set
        .decrypt(&response.decryption_shares, &ciphertext)
        .unwrap();
    assert_eq!(String::from_utf8(plaintext_bytes).unwrap(), plaintext);
}

#[test]
fn scenario_hello_world_with_three_shares() {
    let state = SharedState::initialize();
    let published = get_public_key(Some(&state)).unwrap().pub_key_set;
    assert!(!published.is_empty());
    let pub_key_set: PublicKeySet = serde_json::from_str(&published).unwrap();

    let ciphertext = pub_key_set.public_key().encrypt("Hello, world!".as_bytes());
    let response = threshold_decrypt(&request(wire_of(&ciphertext)), Some(&state)).unwrap();
    let shares = &response.decryption_shares;
    assert_eq!(shares.len(), 3);
    assert!(shares.contains_key(&0) && shares.contains_key(&1) && shares.contains_key(&2));

    let recovered = pub_key_set.decrypt(shares, &ciphertext).unwrap();
    assert_eq!(recovered, b"Hello, world!".to_vec());
}

#[test]
fn decrypt_yields_one_share_per_index_up_to_threshold() {
    let state = SharedState::initialize();
    let ciphertext = state.pub_key_set.public_key().encrypt(b"count");
    let response = threshold_decrypt(&request(wire_of(&ciphertext)), Some(&state)).unwrap();
    assert_eq!(response.decryption_shares.len(), THRESHOLD + 1);
    for i in 0..=THRESHOLD {
        let expected = state.sec_key_share.secret_key_share(i).decrypt_share(&ciphertext).unwrap();
        assert!(response.decryption_shares[&i] == expected);
    }
    assert!(!response.decryption_shares.contains_key(&(THRESHOLD + 1)));
}

#[test]
fn decrypt_twice_gives_identical_shares() {
    let state = SharedState::initialize();
    let ciphertext = state.pub_key_set.public_key().encrypt(b"same input");
    let wire = wire_of(&ciphertext);
    let first = threshold_decrypt(&request(wire.clone()), Some(&state)).unwrap();
    let second = threshold_decrypt(&request(wire), Some(&state)).unwrap();
    assert!(first.decryption_shares == second.decryption_shares);
}

#[test]
fn fewer_shares_than_quorum_do_not_decrypt() {
    let state = SharedState::initialize();
    let ciphertext = state.pub_key_set.public_key().encrypt(b"quorum");
    let response = threshold_decrypt(&request(wire_of(&ciphertext)), Some(&state)).unwrap();
    let two: Vec<(usize, &threshold_crypto::DecryptionShare)> =
        vec![(0, &response.decryption_shares[&0]), (1, &response.decryption_shares[&1])];
    assert!(state.pub_key_set.decrypt(two, &ciphertext).is_err());
}

#[test]
fn invalid_base64_is_rejected() {
    let state = SharedState::initialize();
    let r = threshold_decrypt(&request("!!!".to_string()), Some(&state));
    assert!(matches!(r, Err(ServiceError::InvalidBase64)));
}

#[test]
fn bytes_that_are_not_utf8_are_rejected() {
    let state = SharedState::initialize();
    let wire = general_purpose::STANDARD.encode([0xffu8, 0xfe, 0xfd]);
    let r = threshold_decrypt(&request(wire), Some(&state));
    assert!(matches!(r, Err(ServiceError::InvalidCiphertextFormat)));
}

#[test]
fn text_that_is_not_a_ciphertext_is_rejected() {
    let state = SharedState::initialize();
    let wire = general_purpose::STANDARD.encode("not json".as_bytes());
    let r = threshold_decrypt(&request(wire), Some(&state));
    assert!(matches!(r, Err(ServiceError::InvalidCiphertextFormat)));
}

#[test]
fn empty_ciphertext_is_rejected_as_format() {
    let state = SharedState::initialize();
    let r = threshold_decrypt(&request(String::new()), Some(&state));
    assert!(matches!(r, Err(ServiceError::InvalidCiphertextFormat)));
}

#[test]
fn tampered_ciphertext_fails_decryption() {
    let state = SharedState::initialize();
    let ciphertext = state.pub_key_set.public_key().encrypt(b"tamper with me");
    let json = serde_json::to_string(&ciphertext).unwrap();
    let mut value: serde_json::Value = serde_json::from_str(&json).unwrap();
    let first = value[1][0].as_u64().unwrap();
    value[1][0] = serde_json::Value::from((first + 1) % 256);
    let wire = general_purpose::STANDARD.encode(value.to_string().as_bytes());
    let r = threshold_decrypt(&request(wire), Some(&state));
    assert!(matches!(r, Err(ServiceError::DecryptionFailed)));
}

#[test]
fn unavailable_store_makes_decrypt_busy() {
    let state = SharedState::initialize();
    let ciphertext = state.pub_key_set.public_key().encrypt(b"busy");
    let r = threshold_decrypt(&request(wire_of(&ciphertext)), None);
    assert!(matches!(r, Err(ServiceError::ServiceBusy)));
}

#[test]
fn input_is_validated_before_the_store() {
    let r = threshold_decrypt(&request("!!!".to_string()), None);
    assert!(matches!(r, Err(ServiceError::InvalidBase64)));
    let wire = general_purpose::STANDARD.encode("not json".as_bytes());
    let r = threshold_decrypt(&request(wire), None);
    assert!(matches!(r, Err(ServiceError::InvalidCiphertextFormat)));
}

#[test]
fn unavailable_store_makes_public_key_busy() {
    assert!(matches!(get_public_key(None), Err(ServiceError::ServiceBusy)));
}

#[test]
fn published_key_set_matches_the_secret_one() {
    let sec_key_set = SecretKeySet::random(THRESHOLD, &mut rand::thread_rng());
    let expected = sec_key_set.public_keys();
    let state = SharedState::from_secret_key_set(sec_key_set);
    assert!(state.pub_key_set == expected);
    let published = get_public_key(Some(&state)).unwrap().pub_key_set;
    let parsed: PublicKeySet = serde_json::from_str(&published).unwrap();
    assert!(parsed == expected);
    assert!(published.starts_with('{'));
}

#[test]
fn error_messages_and_statuses() {
    let table = [
        (ServiceError::InvalidCiphertextFormat, "Invalid ciphertext format", 400u16),
        (ServiceError::DecryptionFailed, "Decryption failed", 500),
        (ServiceError::InvalidBase64, "Invalid base64 encoding", 400),
        (ServiceError::ServiceBusy, "Service is busy", 500),
        (ServiceError::PublicKeyReadError, "Unable to read public key", 500),
        (ServiceError::UnknownError, "Unknown Error", 500),
    ];
    for (e, message, status) in table {
        assert_eq!(e.message(), message);
        assert_eq!(e.to_string(), message);
        assert_eq!(e.status_code(), status);
        assert_eq!(e.is_client_error(), status == 400);
    }
}

#[test]
fn initialized_key_set_has_degree_threshold() {
    let state = SharedState::initialize();
    assert_eq!(state.sec_key_share.threshold(), THRESHOLD);
    assert_eq!(state.pub_key_set.threshold(), THRESHOLD);
    assert!(state.pub_key_set == state.sec_key_share.public_keys());
}

#[test]
fn fresh_store_publishes_its_key_set() {
    let state = SharedState::initialize();
    let r = get_public_key(Some(&state));
    assert!(r.is_ok());
    assert!(!r.unwrap().pub_key_set.is_empty());
}
