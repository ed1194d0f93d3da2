use base64::engine::general_purpose::STANDARD;
use base64::Engine;

use motorsport_backend::crypto::{token_hash, Cipher, NONCE_LEN};

fn test_key() -> String {
    STANDARD.encode([0xAA_u8; 32])
}

// ── Key initialisation ──────────────────────────────────────────────────────

#[test]
fn from_base64_key_accepts_valid_32_byte_key() {
    let cipher = Cipher::from_base64_key(&test_key());
    assert!(cipher.is_ok());
}

#[test]
fn from_base64_key_rejects_short_key() {
    let short = STANDARD.encode([0xBB_u8; 16]);
    let result = Cipher::from_base64_key(&short);
    assert!(result.is_err());
    let err = result.err().unwrap();
    assert!(err.contains("32 bytes"), "expected '32 bytes' in error: {err}");
}

#[test]
fn from_base64_key_rejects_invalid_base64() {
    let result = Cipher::from_base64_key("!!!not-base64!!!");
    assert!(result.is_err());
    let err = result.err().unwrap();
    assert!(err.contains("base64"), "expected 'base64' in error: {err}");
}

#[test]
fn short_key_error_text() {
    let short = STANDARD.encode([0xBB_u8; 16]);
    let err = Cipher::from_base64_key(&short).err().unwrap();
    assert_eq!(err, "ENCRYPTION_KEY must decode to exactly 32 bytes (AES-256), got 16 bytes");
}

// ── Encrypt / decrypt round-trip ────────────────────────────────────────────

#[test]
fn encrypt_decrypt_roundtrip() {
    let cipher = Cipher::from_base64_key(&test_key()).unwrap();
    let plaintext = "1HGCM82633A004352";
    let ciphertext = cipher.encrypt(plaintext).unwrap();
    let decrypted = cipher.decrypt(&ciphertext).unwrap();
    assert_eq!(decrypted, plaintext);
}

#[test]
fn encrypt_produces_different_ciphertext_each_call() {
    let cipher = Cipher::from_base64_key(&test_key()).unwrap();
    let ct1 = cipher.encrypt("same-input").unwrap();
    let ct2 = cipher.encrypt("same-input").unwrap();
    assert_ne!(ct1, ct2);
}

#[test]
fn encrypt_with_nonce_places_nonce_first_and_differs_by_nonce() {
    let cipher = Cipher::from_base64_key(&test_key()).unwrap();
    let zeros = [0u8; 12];
    let ones = [1u8; 12];
    let ct0 = cipher.encrypt_with_nonce(&zeros, "same-input").unwrap();
    let ct1 = cipher.encrypt_with_nonce(&ones, "same-input").unwrap();
    assert_ne!(ct0, ct1);
    let raw0 = STANDARD.decode(&ct0).unwrap();
    let raw1 = STANDARD.decode(&ct1).unwrap();
    assert_eq!(&raw0[..NONCE_LEN], &zeros[..]);
    assert_eq!(&raw1[..NONCE_LEN], &ones[..]);
    assert_eq!(raw0.len(), "same-input".len() + 28);
    assert_eq!(cipher.decrypt(&ct0).unwrap(), "same-input");
    assert_eq!(cipher.decrypt(&ct1).unwrap(), "same-input");
    let again = cipher.encrypt_with_nonce(&zeros, "same-input").unwrap();
    assert_eq!(again, ct0);
}

#[test]
fn encrypt_does_not_return_plaintext() {
    let cipher = Cipher::from_base64_key(&test_key()).unwrap();
    let ct = cipher.encrypt("plain").unwrap();
    assert_ne!(ct, "plain");
    let bytes = STANDARD.decode(&ct).unwrap();
    assert_eq!(bytes.len(), NONCE_LEN + 5 + 16);
}

#[test]
fn decrypt_rejects_tampered_ciphertext() {
    let cipher = Cipher::from_base64_key(&test_key()).unwrap();
    let ct = cipher.encrypt("secret").unwrap();
    let mut bytes = STANDARD.decode(&ct).unwrap();
    if bytes.len() > NONCE_LEN {
        bytes[NONCE_LEN] ^= 0xFF;
    }
    let tampered = STANDARD.encode(&bytes);
    assert!(cipher.decrypt(&tampered).is_err());
}

#[test]
fn decrypt_rejects_too_short_input() {
    let cipher = Cipher::from_base64_key(&test_key()).unwrap();
    let short = STANDARD.encode([0u8; 5]);
    assert!(cipher.decrypt(&short).is_err());
}

#[test]
fn decrypt_error_texts() {
    let cipher = Cipher::from_base64_key(&test_key()).unwrap();
    let short = STANDARD.encode([0u8; 5]);
    assert_eq!(
        cipher.decrypt(&short).err().unwrap(),
        "Ciphertext too short (5 bytes); expected at least 12 bytes"
    );
    assert!(cipher.decrypt("%%%").err().unwrap().starts_with("base64 decode error: "));
    let ct = cipher.encrypt("secret").unwrap();
    let mut bytes = STANDARD.decode(&ct).unwrap();
    bytes[NONCE_LEN] ^= 0xFF;
    assert_eq!(
        cipher.decrypt(&STANDARD.encode(&bytes)).err().unwrap(),
        "AES-GCM decryption failed: aead::Error"
    );
}

// ── encrypt_opt / decrypt_opt ───────────────────────────────────────────────

#[test]
fn encrypt_opt_none_stays_none() {
    let cipher = Cipher::from_base64_key(&test_key()).unwrap();
    assert_eq!(cipher.encrypt_opt(None).unwrap(), None);
}

#[test]
fn decrypt_opt_none_stays_none() {
    let cipher = Cipher::from_base64_key(&test_key()).unwrap();
    assert_eq!(cipher.decrypt_opt(None).unwrap(), None);
}

#[test]
fn encrypt_decrypt_opt_roundtrip() {
    let cipher = Cipher::from_base64_key(&test_key()).unwrap();
    let ct = cipher.encrypt_opt(Some("hello")).unwrap();
    assert!(ct.is_some());
    let pt = cipher.decrypt_opt(ct.as_deref()).unwrap();
    assert_eq!(pt, Some("hello".to_owned()));
}

// ── Blind index (digest) ────────────────────────────────────────────────────

#[test]
fn digest_is_deterministic() {
    let cipher = Cipher::from_base64_key(&test_key()).unwrap();
    let d1 = cipher.digest("1HGCM82633A004352");
    let d2 = cipher.digest("1HGCM82633A004352");
    assert_eq!(d1, d2);
}

#[test]
fn digest_differs_for_different_inputs() {
    let cipher = Cipher::from_base64_key(&test_key()).unwrap();
    let d1 = cipher.digest("VIN-AAA");
    let d2 = cipher.digest("VIN-BBB");
    assert_ne!(d1, d2);
}

#[test]
fn digest_differs_for_different_keys() {
    let c1 = Cipher::from_base64_key(&STANDARD.encode([0xAA_u8; 32])).unwrap();
    let c2 = Cipher::from_base64_key(&STANDARD.encode([0xBB_u8; 32])).unwrap();
    assert_ne!(c1.digest("same"), c2.digest("same"));
}

#[test]
fn digest_is_32_char_hex() {
    let cipher = Cipher::from_base64_key(&test_key()).unwrap();
    let d = cipher.digest("test");
    assert_eq!(d.len(), 32);
    assert!(d.chars().all(|c| c.is_ascii_hexdigit()));
}

// ── mask ────────────────────────────────────────────────────────────────────

#[test]
fn mask_returns_redacted_token() {
    assert_eq!(Cipher::mask(), "[REDACTED]");
}

// ── token hashes ────────────────────────────────────────────────────────────

#[test]
fn token_hash_is_sha256_hex() {
    assert_eq!(
        token_hash("abc"),
        "ba7816bf8f01cfea414140de5dae2223b00361a396177a9cb410ff61f20015ad"
    );
    assert_eq!(token_hash("abc").len(), 64);
}
