use polymarket_v2_backend::crypto::{decrypt, encrypt};

#[test]
fn test_encrypt_decrypt() {
    let password = "test_password_123";
    let plaintext = "0x1234567890abcdef...private_key_here";

    let encrypted = encrypt(plaintext, password).unwrap();
    let decrypted = decrypt(&encrypted, password).unwrap();

    assert_eq!(plaintext, decrypted);
}

#[test]
fn test_wrong_password() {
    let password = "correct_password";
    let wrong_password = "wrong_password";
    let plaintext = "secret data";

    let encrypted = encrypt(plaintext, password).unwrap();
    let result = decrypt(&encrypted, wrong_password);

    assert!(result.is_err());
}

#[test]
fn wrong_password_reports_decryption_failure() {
    let encrypted = encrypt("secret data", "correct_password").unwrap();
    let err = decrypt(&encrypted, "wrong_password").unwrap_err();
    assert!(err.starts_with("Decryption failed (wrong password?): "));
}

#[test]
fn encrypted_blob_is_salt_nonce_and_sealed_text() {
    // 16 bytes of salt, 12 of nonce, the plaintext and a 16-byte tag, in base64.
    let encrypted = encrypt("abc", "pw").unwrap();
    let raw_len = 16 + 12 + 3 + 16;
    assert_eq!(encrypted.len(), (raw_len + 2) / 3 * 4);
    assert_ne!(encrypted, "abc");
}

#[test]
fn encrypting_twice_uses_fresh_salt_and_nonce() {
    let a = encrypt("same text", "pw").unwrap();
    let b = encrypt("same text", "pw").unwrap();
    assert_ne!(a, b);
    assert_eq!(decrypt(&a, "pw").unwrap(), "same text");
    assert_eq!(decrypt(&b, "pw").unwrap(), "same text");
}

#[test]
fn empty_plaintext_round_trips() {
    let encrypted = encrypt("", "pw").unwrap();
    assert_eq!(decrypt(&encrypted, "pw").unwrap(), "");
}

#[test]
fn unicode_plaintext_round_trips() {
    let text = "árvíztűrő tükörfúrógép \u{1F512}";
    let encrypted = encrypt(text, "jelszó").unwrap();
    assert_eq!(decrypt(&encrypted, "jelszó").unwrap(), text);
}

#[test]
fn decrypt_rejects_invalid_base64() {
    let err = decrypt("not base64 !!!", "pw").unwrap_err();
    assert!(err.starts_with("Invalid base64: "));
}

#[test]
fn decrypt_rejects_short_data() {
    // "AAAA" decodes to three bytes: shorter than salt and nonce.
    assert_eq!(decrypt("AAAA", "pw").unwrap_err(), "Invalid encrypted data");
}

#[test]
fn decrypt_rejects_tampered_ciphertext() {
    let encrypted = encrypt("secret data", "pw").unwrap();
    let mut chars: Vec<char> = encrypted.chars().collect();
    let i = 40;
    chars[i] = if chars[i] == 'A' { 'B' } else { 'A' };
    let tampered: String = chars.into_iter().collect();
    let err = decrypt(&tampered, "pw").unwrap_err();
    assert!(err.starts_with("Decryption failed (wrong password?): "));
}
