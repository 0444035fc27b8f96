//! Tests of the cryptographic layer: key exchange, derivation, nonces,
//! AEAD, hashing, signatures, randomness.

use llp::crypto::{
    blake3_hash, hmac_sha256, random_bytes, verify_ed25519_signature, verify_hmac_sha256,
    AeadCipher, ChaCha20Nonce, Ed25519SigningKey, SessionKey, X25519Key, BLAKE3_HASH_SIZE,
    CHACHA20_KEY_SIZE, CHACHA20_NONCE_SIZE, ED25519_SIGNATURE_SIZE, X25519_KEY_SIZE,
};

#[test]
fn test_x25519_key_generation() {
    let key = X25519Key::generate();
    let public_bytes = key.public_bytes();
    assert_eq!(public_bytes.len(), X25519_KEY_SIZE);
}

#[test]
fn test_x25519_key_exchange() {
    let alice_key = X25519Key::generate();
    let bob_key = X25519Key::generate();

    let alice_shared = alice_key.diffie_hellman(&bob_key.public_bytes());
    let bob_shared = bob_key.diffie_hellman(&alice_key.public_bytes());

    assert_eq!(alice_shared.as_bytes(), bob_shared.as_bytes());
}

#[test]
fn test_hkdf_derivation() {
    let alice_key = X25519Key::generate();
    let bob_key = X25519Key::generate();

    let shared = alice_key.diffie_hellman(&bob_key.public_bytes());

    let salt = b"test_salt";
    let info = b"llp-session-key";

    let session_key = shared.derive_session_key(salt, info).unwrap();
    assert_eq!(session_key.as_bytes().len(), CHACHA20_KEY_SIZE);
}

#[test]
fn test_chacha20_nonce() {
    let mut nonce = ChaCha20Nonce::new(12345, 0);
    assert_eq!(nonce.counter(), 0);

    nonce.increment().unwrap();
    assert_eq!(nonce.counter(), 1);

    let bytes = nonce.as_bytes();
    assert_eq!(bytes.len(), CHACHA20_NONCE_SIZE);
}

#[test]
fn test_nonce_overflow() {
    let mut nonce = ChaCha20Nonce::new(1, u64::MAX);
    let result = nonce.increment();
    assert!(result.is_err());
}

#[test]
fn test_nonce_layout() {
    // counter little-endian in the first 8 bytes, low session id bits after
    let nonce = ChaCha20Nonce::new(0x1_0000_0002, 0x0102_0304);
    let bytes = nonce.as_bytes();
    assert_eq!(&bytes[0..8], &[0x04, 0x03, 0x02, 0x01, 0, 0, 0, 0]);
    assert_eq!(&bytes[8..12], &[0x02, 0x00, 0x00, 0x00]);
}

#[test]
fn test_aead_encryption_decryption() {
    let key = SessionKey::random();
    let mut cipher = AeadCipher::new(&key, 12345);

    let plaintext = b"Hello, LLP!";
    let aad = b"additional authenticated data";

    let ciphertext = cipher.encrypt(plaintext, aad).unwrap();
    assert_ne!(&ciphertext[..plaintext.len()], &plaintext[..]);

    let decrypted = cipher.decrypt(&ciphertext, aad, 0).unwrap();
    assert_eq!(&decrypted, plaintext);
}

#[test]
fn test_aead_wrong_aad() {
    let key = SessionKey::random();
    let mut cipher = AeadCipher::new(&key, 12345);

    let plaintext = b"Hello, LLP!";
    let aad = b"correct aad";

    let ciphertext = cipher.encrypt(plaintext, aad).unwrap();

    let wrong_aad = b"wrong aad";
    let result = cipher.decrypt(&ciphertext, wrong_aad, 0);
    assert!(result.is_err());
}

#[test]
fn test_aead_wrong_key() {
    let key1 = SessionKey::random();
    let key2 = SessionKey::random();

    let mut cipher1 = AeadCipher::new(&key1, 12345);
    let cipher2 = AeadCipher::new(&key2, 12345);

    let plaintext = b"Hello, LLP!";
    let aad = b"aad";

    let ciphertext = cipher1.encrypt(plaintext, aad).unwrap();
    let result = cipher2.decrypt(&ciphertext, aad, 0);
    assert!(result.is_err());
}

#[test]
fn test_aead_round_trip_various_inputs() {
    // decrypt(encrypt(x)) gives x back for several plaintext shapes
    let key = SessionKey::random();
    let cases: Vec<Vec<u8>> = vec![
        Vec::new(),
        vec![0u8],
        (0u16..256).map(|b| b as u8).collect(),
        vec![0x5a; 4096],
    ];
    for (i, plaintext) in cases.iter().enumerate() {
        let mut cipher = AeadCipher::new(&key, 42);
        let aad = b"header bytes";
        let ciphertext = cipher.encrypt(plaintext, aad).unwrap();
        assert_eq!(ciphertext.len(), plaintext.len() + 16, "case {}", i);
        let decrypted = cipher.decrypt(&ciphertext, aad, 0).unwrap();
        assert_eq!(&decrypted, plaintext, "case {}", i);
    }
}

#[test]
fn test_blake3_hash() {
    let data = b"test data";
    let hash1 = blake3_hash(data);
    let hash2 = blake3_hash(data);

    assert_eq!(hash1, hash2);
    assert_eq!(hash1.len(), BLAKE3_HASH_SIZE);

    let different_data = b"different data";
    let hash3 = blake3_hash(different_data);
    assert_ne!(hash1, hash3);
}

#[test]
fn test_hmac_sha256() {
    let key = b"secret key";
    let data = b"message to authenticate";

    let tag = hmac_sha256(key, data);
    assert_eq!(tag.len(), 32);

    assert!(verify_hmac_sha256(key, data, &tag));
    assert!(!verify_hmac_sha256(key, b"wrong data", &tag));
    assert!(!verify_hmac_sha256(b"wrong key", data, &tag));
}

#[test]
fn test_ed25519_signature() {
    let signing_key = Ed25519SigningKey::generate();
    let verifying_key = signing_key.verifying_key();

    let message = b"test message";
    let signature = signing_key.sign(message).unwrap();

    assert_eq!(signature.len(), ED25519_SIGNATURE_SIZE);
    assert!(verify_ed25519_signature(&verifying_key, message, &signature).is_ok());

    let wrong_message = b"wrong message";
    assert!(verify_ed25519_signature(&verifying_key, wrong_message, &signature).is_err());
}

#[test]
fn test_random_bytes() {
    let bytes1 = random_bytes(32);
    let bytes2 = random_bytes(32);

    assert_eq!(bytes1.len(), 32);
    assert_eq!(bytes2.len(), 32);
    assert_ne!(bytes1, bytes2);
}

#[test]
fn test_session_key_from_bytes() {
    let raw = [7u8; 32];
    let key = SessionKey::from_bytes(&raw);
    assert_eq!(key.as_bytes(), &raw[..]);
}

#[test]
fn test_x25519_from_bytes_wrong_size() {
    let result = X25519Key::from_bytes(&[1u8; 31]);
    assert!(result.is_err());
    let ok = X25519Key::from_bytes(&[1u8; 32]);
    assert!(ok.is_ok());
}

#[test]
fn test_hkdf_salt_and_info_matter() {
    // the derived key is a real function of salt and context, not of the
    // input keying material alone
    let alice = X25519Key::generate();
    let bob = X25519Key::generate();
    let shared = alice.diffie_hellman(&bob.public_bytes());

    let k1 = shared.derive_session_key(b"salt-one", b"info").unwrap();
    let k2 = shared.derive_session_key(b"salt-two", b"info").unwrap();
    let k3 = shared.derive_session_key(b"salt-one", b"other").unwrap();

    assert_ne!(k1.as_bytes(), k2.as_bytes());
    assert_ne!(k1.as_bytes(), k3.as_bytes());
}
