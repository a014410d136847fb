use base64::Engine;
use vault::crypto::{decrypt, derive_key, encrypt, encrypt_with_nonce, random, CipherBlob};
use vault::error::VaultError;

#[test]
fn encryption_round_trip_and_random_nonce() {
    let key = derive_key("a-strong-test-password", b"0123456789abcdef").unwrap();
    let first = encrypt(&key, b"super secret").unwrap();
    let second = encrypt(&key, b"super secret").unwrap();
    assert_ne!(first.nonce, second.nonce);
    assert_ne!(first.ciphertext, second.ciphertext);
    assert_eq!(decrypt(&key, &first).unwrap(), b"super secret");
}

#[test]
fn tampering_is_rejected() {
    let key = derive_key("a-strong-test-password", b"0123456789abcdef").unwrap();
    let mut blob = encrypt(&key, b"super secret").unwrap();
    blob.ciphertext.push('A');
    assert!(decrypt(&key, &blob).is_err());
}

#[test]
fn derived_keys_depend_on_password_and_salt_only() {
    let a = derive_key("another-password", b"saltsalt").unwrap();
    let b = derive_key("another-password", b"saltsalt").unwrap();
    assert_eq!(a, b);
    assert_ne!(a, [0u8; 32]);
    let c = derive_key("another-password", b"saltsalT").unwrap();
    assert_ne!(a, c);
}

#[test]
fn short_salt_is_refused_by_argon2() {
    assert_eq!(derive_key("whatever-password", b"1234567"), Err(VaultError::SaltTooShort));
    assert_eq!(VaultError::SaltTooShort.message(), "salt is too short");
}

#[test]
fn sealing_matches_aes_256_gcm_reference_vectors() {
    let key = [0u8; 32];
    let nonce = [0u8; 12];
    let empty = encrypt_with_nonce(&key, &nonce, b"").unwrap();
    assert_eq!(empty.nonce, "AAAAAAAAAAAAAAAA");
    assert_eq!(empty.ciphertext, "Uw+K+8dFNrmpY7TxxMtziw==");
    let block = encrypt_with_nonce(&key, &nonce, &[0u8; 16]).unwrap();
    assert_eq!(block.ciphertext, "zqdAPU1ga24HTsXTuvOdGNDRyKeZmWvwJluYtdSKuRk=");
    assert_eq!(decrypt(&key, &block).unwrap(), vec![0u8; 16]);
}

#[test]
fn decryption_errors_follow_the_order_of_checks() {
    let key = [7u8; 32];
    let good = encrypt(&key, b"payload").unwrap();
    let bad_nonce = CipherBlob { nonce: "not base64!".to_string(), ciphertext: "also bad".to_string() };
    assert_eq!(decrypt(&key, &bad_nonce), Err(VaultError::CorruptNonce));
    let bad_ciphertext = CipherBlob { nonce: good.nonce.clone(), ciphertext: "abc".to_string() };
    assert_eq!(decrypt(&key, &bad_ciphertext), Err(VaultError::CorruptCiphertext));
    let short_nonce = CipherBlob { nonce: "AAAA".to_string(), ciphertext: good.ciphertext.clone() };
    assert_eq!(decrypt(&key, &short_nonce), Err(VaultError::CorruptNonce));
    let other_key = [8u8; 32];
    assert_eq!(decrypt(&other_key, &good), Err(VaultError::DecryptionFailed));
    assert_eq!(VaultError::DecryptionFailed.message(), "Password salah atau data rusak");
    assert_eq!(decrypt(&key, &good).unwrap(), b"payload");
}

#[test]
fn appending_any_ascii_character_is_rejected() {
    let key = [3u8; 32];
    for c in ['A', '=', '/', '0', ' '] {
        let mut blob = encrypt(&key, b"abc").unwrap();
        blob.ciphertext.push(c);
        assert!(decrypt(&key, &blob).is_err());
    }
}

#[test]
fn random_bytes_have_the_requested_length() {
    let a: [u8; 16] = random();
    let b: [u8; 16] = random();
    assert_ne!(a, b);
}

#[test]
fn sealed_texts_decode_to_a_nonce_and_a_tagged_ciphertext() {
    let key = [4u8; 32];
    let blob = encrypt(&key, b"twelve bytes").unwrap();
    let nonce = base64::engine::general_purpose::STANDARD.decode(&blob.nonce).unwrap();
    let ciphertext = base64::engine::general_purpose::STANDARD.decode(&blob.ciphertext).unwrap();
    assert_eq!(nonce.len(), 12);
    assert_eq!(ciphertext.len(), 12 + 16);
    assert_eq!(blob.ciphertext.len() % 4, 0);
}
