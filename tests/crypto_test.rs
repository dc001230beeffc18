use vox_gui::crypto::{public_key_from_slice, CryptoError, CryptoSession, KeyExchange};

#[test]
fn test_encryption_decryption() {
    // Simulate client and server key exchange
    let client_key_exchange = KeyExchange::new();
    let server_key_exchange = KeyExchange::new();

    // Exchange public keys (clone to avoid borrow issues)
    let client_public = client_key_exchange.public_key().clone();
    let server_public = server_key_exchange.public_key().clone();

    // Compute shared secrets
    let client_shared = client_key_exchange.compute_shared_secret(&server_public);
    let server_shared = server_key_exchange.compute_shared_secret(&client_public);

    // Shared secrets should be identical
    assert_eq!(client_shared, server_shared);

    // Create crypto sessions
    let client_crypto = CryptoSession::from_shared_secret(&client_shared).unwrap();
    let server_crypto = CryptoSession::from_shared_secret(&server_shared).unwrap();

    // Test encryption/decryption
    let plaintext = b"Hello, secure world!";

    // Client encrypts, server decrypts
    let encrypted = client_crypto.encrypt(plaintext).unwrap();
    let decrypted = server_crypto.decrypt(&encrypted).unwrap();
    assert_eq!(plaintext, &decrypted[..]);

    // Server encrypts, client decrypts
    let encrypted = server_crypto.encrypt(plaintext).unwrap();
    let decrypted = client_crypto.decrypt(&encrypted).unwrap();
    assert_eq!(plaintext, &decrypted[..]);
}

#[test]
fn test_nonce_uniqueness() {
    let shared_secret = [42u8; 32];
    let crypto = CryptoSession::from_shared_secret(&shared_secret).unwrap();

    let plaintext = b"Test message";

    // Encrypt the same message multiple times
    let encrypted1 = crypto.encrypt(plaintext).unwrap();
    let encrypted2 = crypto.encrypt(plaintext).unwrap();

    // Due to unique nonces, encrypted data should be different
    assert_ne!(encrypted1, encrypted2);

    // But both should decrypt to the same plaintext
    let decrypted1 = crypto.decrypt(&encrypted1).unwrap();
    let decrypted2 = crypto.decrypt(&encrypted2).unwrap();
    assert_eq!(decrypted1, decrypted2);
    assert_eq!(plaintext, &decrypted1[..]);
}

#[test]
fn record_layout_is_nonce_ciphertext_tag() {
    let crypto = CryptoSession::from_shared_secret(&[7u8; 32]).unwrap();
    let plaintext = b"abcdef";
    let record = crypto.encrypt(plaintext).unwrap();
    assert_eq!(record.len(), 12 + plaintext.len() + 16);
    // The plaintext does not appear as it is.
    assert_ne!(&record[12..18], &plaintext[..]);
}

#[test]
fn tampered_record_fails_to_decrypt() {
    let crypto = CryptoSession::from_shared_secret(&[7u8; 32]).unwrap();
    let mut record = crypto.encrypt(b"payload").unwrap();
    let last = record.len() - 1;
    record[last] ^= 0x01;
    assert_eq!(crypto.decrypt(&record), Err(CryptoError::DecryptionFailed));
}

#[test]
fn short_record_fails_to_decrypt() {
    let crypto = CryptoSession::from_shared_secret(&[1u8; 32]).unwrap();
    assert_eq!(crypto.decrypt(&[0u8; 11]), Err(CryptoError::DecryptionFailed));
    assert_eq!(crypto.decrypt(&[]), Err(CryptoError::DecryptionFailed));
}

#[test]
fn other_key_cannot_decrypt() {
    let a = CryptoSession::from_shared_secret(&[1u8; 32]).unwrap();
    let b = CryptoSession::from_shared_secret(&[2u8; 32]).unwrap();
    let record = a.encrypt(b"secret").unwrap();
    assert_eq!(b.decrypt(&record), Err(CryptoError::DecryptionFailed));
}

#[test]
fn empty_plaintext_round_trips() {
    let a = CryptoSession::from_shared_secret(&[3u8; 32]).unwrap();
    let record = a.encrypt(&[]).unwrap();
    assert_eq!(record.len(), 28);
    assert_eq!(a.decrypt(&record).unwrap(), Vec::<u8>::new());
}

#[test]
fn public_key_needs_32_bytes() {
    assert_eq!(public_key_from_slice(&[0u8; 31]).err(), Some(CryptoError::InvalidPublicKey));
    assert!(public_key_from_slice(&[9u8; 32]).is_ok());
    let kx = KeyExchange::new();
    let bytes = kx.public_key_bytes();
    let parsed = public_key_from_slice(&bytes).unwrap();
    assert_eq!(parsed.to_bytes(), bytes);
}

#[test]
fn any_shared_secret_length_gives_a_key() {
    // The key is the SHA-256 of the secret, so a short secret still keys the channel.
    let a = CryptoSession::from_shared_secret(&[5u8; 5]).unwrap();
    let record = a.encrypt(b"short secret").unwrap();
    assert_eq!(a.decrypt(&record).unwrap(), b"short secret".to_vec());
    let b = CryptoSession::from_shared_secret(&[5u8; 5]).unwrap();
    assert_eq!(b.decrypt(&record).unwrap(), b"short secret".to_vec());
}

#[test]
fn record_shorter_than_nonce_and_tag_fails() {
    let crypto = CryptoSession::from_shared_secret(&[8u8; 32]).unwrap();
    assert_eq!(crypto.decrypt(&[0u8; 12]), Err(CryptoError::DecryptionFailed));
    assert_eq!(crypto.decrypt(&[0u8; 27]), Err(CryptoError::DecryptionFailed));
}
