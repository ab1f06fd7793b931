use onetime_rs::aead::decrypt;
use onetime_rs::aead::encrypt;
use onetime_rs::aead::NONCE_LEN;
use onetime_rs::ids::new_secret_id;
use onetime_rs::kdf::hash_password;
use onetime_rs::kdf::pop;
use onetime_rs::model::Secret;
use onetime_rs::nonce::generate_nonce;
use onetime_rs::payload::CreateSecretPayload;
use onetime_rs::payload::CreateSecretResponse;
use onetime_rs::payload::QueryPassword;
use onetime_rs::service::create_secret;
use onetime_rs::service::reveal_secret;
use onetime_rs::service::RevealError;
use onetime_rs::service::DEFAULT_TTL_SECONDS;
use onetime_rs::store::SecretStore;

#[test]
fn round_trip_reveals_exactly_once() {
    let mut store = SecretStore::new(0);
    let id = create_secret(&mut store, b"launch codes", b"orange", DEFAULT_TTL_SECONDS);
    let revealed = reveal_secret(&mut store, id, b"orange");
    assert_eq!(revealed, Ok(b"launch codes".to_vec()));
    let again = reveal_secret(&mut store, id, b"orange");
    assert_eq!(again, Err(RevealError::NotFound));
}

#[test]
fn wrong_password_destroys_the_record() {
    let mut store = SecretStore::new(0);
    let id = create_secret(&mut store, b"x", b"correct", DEFAULT_TTL_SECONDS);
    let first = reveal_secret(&mut store, id, b"wrong");
    assert_eq!(first, Err(RevealError::AuthenticationFailure));
    let second = reveal_secret(&mut store, id, b"correct");
    assert_eq!(second, Err(RevealError::NotFound));
}

#[test]
fn identical_secrets_get_distinct_ciphertexts() {
    let mut store = SecretStore::new(0);
    let id1 = create_secret(&mut store, b"same text", b"same password", DEFAULT_TTL_SECONDS);
    let id2 = create_secret(&mut store, b"same text", b"same password", DEFAULT_TTL_SECONDS);
    assert_ne!(id1, id2);
    let r1 = store.get(id1).unwrap();
    let r2 = store.get(id2).unwrap();
    assert_ne!(r1.nonce, r2.nonce);
    assert_ne!(r1.ciphertext, r2.ciphertext);
}

#[test]
fn expiry_makes_a_secret_unreadable() {
    assert_eq!(DEFAULT_TTL_SECONDS, 86400);
    let mut store = SecretStore::new(1_000);
    let id = create_secret(&mut store, b"ephemeral", b"pw", 60);
    store.advance(59);
    assert!(store.get(id).is_some());
    store.advance(1);
    assert!(store.get(id).is_none());
    let r = reveal_secret(&mut store, id, b"pw");
    assert_eq!(r, Err(RevealError::NotFound));
}

#[test]
fn one_winner_among_racing_reveals() {
    let mut store = SecretStore::new(0);
    let id = create_secret(&mut store, b"prize", b"pw", DEFAULT_TTL_SECONDS);
    let outcomes = [
        reveal_secret(&mut store, id, b"pw"),
        reveal_secret(&mut store, id, b"pw"),
        reveal_secret(&mut store, id, b"pw"),
    ];
    let wins = outcomes.iter().filter(|r| r.is_ok()).count();
    assert_eq!(wins, 1);
    assert_eq!(outcomes[0], Ok(b"prize".to_vec()));
    assert_eq!(outcomes[1], Err(RevealError::NotFound));
    assert_eq!(outcomes[2], Err(RevealError::NotFound));
}

#[test]
fn unknown_identifier_is_not_found() {
    let mut store = SecretStore::new(0);
    let r = reveal_secret(&mut store, 42, b"pw");
    assert_eq!(r, Err(RevealError::NotFound));
}

#[test]
fn key_derivation_is_deterministic() {
    let k1 = hash_password(b"orange");
    let k2 = hash_password(b"orange");
    assert_eq!(k1, k2);
    assert_eq!(k1.len(), 32);
}

#[test]
fn derived_key_is_not_the_password() {
    let password = [0u8; 32];
    let key = hash_password(&password);
    assert_ne!(key, password);
}

#[test]
fn different_passwords_give_different_keys() {
    assert_ne!(hash_password(b"a"), hash_password(b"b"));
}

#[test]
fn cipher_round_trip_and_tamper_rejection() {
    let key = pop(&[7u8; 32]);
    let nonce = generate_nonce();
    let ciphertext = encrypt(&key, nonce.as_slice(), b"attack at dawn");
    assert_ne!(&ciphertext[..], b"attack at dawn".as_slice());
    assert_eq!(
        decrypt(&key, nonce.as_slice(), &ciphertext),
        Some(b"attack at dawn".to_vec())
    );
    let mut tampered = ciphertext.clone();
    tampered[0] ^= 1;
    assert_eq!(decrypt(&key, nonce.as_slice(), &tampered), None);
    let other_key = pop(&[8u8; 32]);
    assert_eq!(decrypt(&other_key, nonce.as_slice(), &ciphertext), None);
}

#[test]
fn nonces_are_fresh_every_call() {
    let n1 = generate_nonce();
    let n2 = generate_nonce();
    assert_eq!(n1.len(), NONCE_LEN);
    assert_eq!(n2.len(), NONCE_LEN);
    assert_ne!(n1, n2);
}

#[test]
fn identifiers_are_fresh_every_call() {
    assert_ne!(new_secret_id(), new_secret_id());
}

#[test]
fn pop_copies_a_32_byte_slice() {
    let bytes: Vec<u8> = (0u8..32).collect();
    let arr = pop(&bytes);
    assert_eq!(&arr[..], &bytes[..]);
}

#[test]
fn payload_shapes_carry_their_fields() {
    let payload = CreateSecretPayload {
        secret_content: String::from("launch codes"),
        password: String::from("orange"),
    };
    assert_eq!(payload.secret_content, "launch codes");
    assert_eq!(payload.password, "orange");
    let query = QueryPassword { password: String::from("orange") };
    assert_eq!(query.password, "orange");
    let response = CreateSecretResponse { id: 7, url: String::from("path/to/uuid/url") };
    assert_eq!(response.id, 7);
    assert_eq!(response.url, "path/to/uuid/url");
    let secret = Secret { id: 7, secret_content: String::from("launch codes") };
    assert_eq!(secret.id, 7);
    assert_eq!(secret.secret_content, "launch codes");
}

#[test]
fn empty_password_and_empty_plaintext_still_work() {
    let mut store = SecretStore::new(0);
    let id = create_secret(&mut store, b"", b"", DEFAULT_TTL_SECONDS);
    assert_eq!(reveal_secret(&mut store, id, b""), Ok(Vec::new()));
}
