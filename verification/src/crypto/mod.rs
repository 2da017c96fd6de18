//! Password-based encryption of stored credentials.
//!
//! A blob is `base64(salt || nonce || ciphertext)`: a 16-byte random salt, a
//! 12-byte random nonce and the AES-256-GCM ciphertext of the UTF-8 plaintext
//! under a key derived from the password with PBKDF2-HMAC-SHA256.

use aes_gcm::aead::{Aead, KeyInit};
use aes_gcm::{Aes256Gcm, Nonce};
use base64::engine::general_purpose::STANDARD as BASE64;
use base64::Engine;
use rand::Rng;
use vstd::prelude::*;
use vstd::string::*;
use vstd::utf8::*;

verus! {

/// Number of PBKDF2 rounds used to derive the cipher key.
pub const PBKDF2_ITERATIONS: u32 = 100_000;

/// Length in bytes of the random salt at the front of a blob.
pub const SALT_LENGTH: usize = 16;

/// Length in bytes of the random nonce that follows the salt.
pub const NONCE_LENGTH: usize = 12;

/// Largest plaintext, in bytes, that AES-256-GCM accepts (2^36).
pub const AES_GCM_MAX_PLAINTEXT: u64 = 68_719_476_736;

// ---------------------------------------------------------------------------
// Models of the outside primitives
// ---------------------------------------------------------------------------

/// The 32-byte key that PBKDF2-HMAC-SHA256 derives from a password, a salt and
/// a number of rounds.
pub uninterp spec fn pbkdf2_hmac_sha256(password: Seq<u8>, salt: Seq<u8>, rounds: u32) -> Seq<u8>;

/// The AES-256-GCM ciphertext (with its 16-byte tag appended) of a plaintext
/// under a key and a nonce, with no associated data.
pub uninterp spec fn aes256_gcm_seal(key: Seq<u8>, nonce: Seq<u8>, plaintext: Seq<u8>) -> Seq<u8>;

/// The plaintext that AES-256-GCM authenticates and recovers from a
/// ciphertext under a key and a nonce, or `None` when authentication fails.
pub uninterp spec fn aes256_gcm_open(key: Seq<u8>, nonce: Seq<u8>, ciphertext: Seq<u8>) -> Option<Seq<u8>>;

/// The symbol of a 6-bit value in the standard base64 alphabet.
pub open spec fn base64_symbol(v: int) -> char {
    if v < 26 {
        (65 + v) as char
    } else if v < 52 {
        (97 + (v - 26)) as char
    } else if v < 62 {
        (48 + (v - 52)) as char
    } else if v == 62 {
        '+'
    } else {
        '/'
    }
}

/// Standard base64 (RFC 4648 alphabet, `=` padding) of a byte sequence.
pub open spec fn base64_encode(bytes: Seq<u8>) -> Seq<char>
    decreases bytes.len(),
{
    if bytes.len() == 0 {
        seq![]
    } else if bytes.len() == 1 {
        let b0 = bytes[0] as int;
        seq![base64_symbol(b0 / 4), base64_symbol((b0 % 4) * 16), '=', '=']
    } else if bytes.len() == 2 {
        let b0 = bytes[0] as int;
        let b1 = bytes[1] as int;
        seq![
            base64_symbol(b0 / 4),
            base64_symbol((b0 % 4) * 16 + b1 / 16),
            base64_symbol((b1 % 16) * 4),
            '=',
        ]
    } else {
        let b0 = bytes[0] as int;
        let b1 = bytes[1] as int;
        let b2 = bytes[2] as int;
        seq![
            base64_symbol(b0 / 4),
            base64_symbol((b0 % 4) * 16 + b1 / 16),
            base64_symbol((b1 % 16) * 4 + b2 / 64),
            base64_symbol(b2 % 64),
        ] + base64_encode(bytes.skip(3))
    }
}

// ---------------------------------------------------------------------------
// Trusted calls into the outside crates
// ---------------------------------------------------------------------------

/// Calls `pbkdf2::pbkdf2_hmac_array::<Sha256, 32>`: the result is the derived
/// key, a function of the password, the salt and the rounds alone.
#[verifier::external_body]
fn pbkdf2_sha256_32(password: &[u8], salt: &[u8], rounds: u32) -> (key: [u8; 32])
    ensures
        key@ == pbkdf2_hmac_sha256(password@, salt@, rounds),
{
    pbkdf2::pbkdf2_hmac_array::<sha2::Sha256, 32>(password, salt, rounds)
}

/// Calls `rand::Rng::fill` on the thread-local generator: the bytes are
/// random, only the length of the buffer is promised to stay the same.
#[verifier::external_body]
fn fill_random(buf: &mut [u8])
    ensures
        final(buf)@.len() == old(buf)@.len(),
{
    rand::thread_rng().fill(buf)
}

/// Calls `aes_gcm::Aes256Gcm::encrypt` with no associated data. It fails only
/// when the plaintext is longer than 2^36 bytes; otherwise the ciphertext is
/// the one `aes256_gcm_seal` names. The error is the `aead::Error` message.
#[verifier::external_body]
fn aes256_gcm_encrypt(key: &[u8; 32], nonce: &[u8; 12], plaintext: &[u8]) -> (res: Result<Vec<u8>, String>)
    ensures
        plaintext@.len() <= AES_GCM_MAX_PLAINTEXT ==> res is Ok,
        res matches Ok(ct) ==> ct@ == aes256_gcm_seal(key@, nonce@, plaintext@),
{
    let cipher = Aes256Gcm::new(key.into());
    cipher.encrypt(Nonce::from_slice(nonce), plaintext).map_err(|e| e.to_string())
}

/// Calls `aes_gcm::Aes256Gcm::decrypt` with no associated data. The result is
/// the one `aes256_gcm_open` names; a ciphertext that `aes256_gcm_seal` made
/// from a plaintext of at most 2^36 bytes under the same key and nonce opens
/// to that plaintext. The error is the `aead::Error` message.
#[verifier::external_body]
fn aes256_gcm_decrypt(key: &[u8; 32], nonce: &[u8; 12], ciphertext: &[u8]) -> (res: Result<Vec<u8>, String>)
    ensures
        match res {
            Ok(pt) => aes256_gcm_open(key@, nonce@, ciphertext@) == Some(pt@),
            Err(_) => aes256_gcm_open(key@, nonce@, ciphertext@) is None,
        },
        res is Err ==> forall|p: Seq<u8>|
            #![trigger aes256_gcm_seal(key@, nonce@, p)]
            !(aes256_gcm_seal(key@, nonce@, p) == ciphertext@ && p.len() <= AES_GCM_MAX_PLAINTEXT),
        res matches Ok(pt) ==> forall|p: Seq<u8>|
            #![trigger aes256_gcm_seal(key@, nonce@, p)]
            aes256_gcm_seal(key@, nonce@, p) == ciphertext@ && p.len() <= AES_GCM_MAX_PLAINTEXT
                ==> pt@ == p,
{
    let cipher = Aes256Gcm::new(key.into());
    cipher.decrypt(Nonce::from_slice(nonce), ciphertext).map_err(|e| e.to_string())
}

/// Calls `Engine::encode` of base64's `STANDARD` engine.
#[verifier::external_body]
fn base64_standard_encode(bytes: &[u8]) -> (s: String)
    ensures
        s@ == base64_encode(bytes@),
{
    BASE64.encode(bytes)
}

/// Calls `Engine::decode` of base64's `STANDARD` engine, which requires
/// canonical padding and no trailing bits: it accepts exactly the strings that
/// `base64_encode` produces and gives back the bytes they encode. The error is
/// the `DecodeError` message.
#[verifier::external_body]
fn base64_standard_decode(s: &str) -> (res: Result<Vec<u8>, String>)
    ensures
        res matches Ok(v) ==> base64_encode(v@) == s@,
        res is Err ==> forall|b: Seq<u8>| #![trigger base64_encode(b)] base64_encode(b) != s@,
        res matches Ok(v) ==> forall|b: Seq<u8>| #![trigger base64_encode(b)] base64_encode(b) == s@ ==> v@ == b,
{
    BASE64.decode(s).map_err(|e| e.to_string())
}

/// Calls `String::from_utf8`: it succeeds exactly on valid UTF-8 and then
/// holds the decoded characters. The error is the `FromUtf8Error` message.
#[verifier::external_body]
fn string_from_utf8(bytes: Vec<u8>) -> (res: Result<String, String>)
    ensures
        match res {
            Ok(s) => valid_utf8(bytes@) && s@ == decode_utf8(bytes@),
            Err(_) => !valid_utf8(bytes@),
        },
{
    String::from_utf8(bytes).map_err(|e| e.to_string())
}

// ---------------------------------------------------------------------------
// The blob format
// ---------------------------------------------------------------------------

/// The cipher key derived from a password and a salt.
pub open spec fn derived_key(password: Seq<char>, salt: Seq<u8>) -> Seq<u8> {
    pbkdf2_hmac_sha256(encode_utf8(password), salt, PBKDF2_ITERATIONS)
}

/// The blob that encrypting `plaintext` with `password` gives for a salt and
/// a nonce.
pub open spec fn sealed_blob(plaintext: Seq<char>, password: Seq<char>, salt: Seq<u8>, nonce: Seq<u8>) -> Seq<char> {
    base64_encode(salt + nonce + aes256_gcm_seal(derived_key(password, salt), nonce, encode_utf8(plaintext)))
}

/// Whether a string is the base64 of some bytes.
pub open spec fn is_base64(s: Seq<char>) -> bool {
    exists|b: Seq<u8>| base64_encode(b) == s
}

/// The bytes whose base64 a string is.
pub open spec fn base64_bytes(s: Seq<char>) -> Seq<u8> {
    choose|b: Seq<u8>| base64_encode(b) == s
}

/// The plaintext bytes that a blob opens to under a password, if any.
pub open spec fn unsealed_bytes(blob: Seq<char>, password: Seq<char>) -> Option<Seq<u8>> {
    if !is_base64(blob) {
        None
    } else {
        let b = base64_bytes(blob);
        if b.len() < SALT_LENGTH + NONCE_LENGTH {
            None
        } else {
            let salt = b.subrange(0, SALT_LENGTH as int);
            let nonce = b.subrange(SALT_LENGTH as int, (SALT_LENGTH + NONCE_LENGTH) as int);
            let ct = b.subrange((SALT_LENGTH + NONCE_LENGTH) as int, b.len() as int);
            aes256_gcm_open(derived_key(password, salt), nonce, ct)
        }
    }
}

/// The plaintext that a blob decrypts to under a password, if any.
pub open spec fn decrypted_text(blob: Seq<char>, password: Seq<char>) -> Option<Seq<char>> {
    match unsealed_bytes(blob, password) {
        Some(bytes) => if valid_utf8(bytes) { Some(decode_utf8(bytes)) } else { None },
        None => None,
    }
}

/// Whether `msg` starts with `prefix`.
pub open spec fn has_prefix(msg: Seq<char>, prefix: Seq<char>) -> bool {
    prefix.len() <= msg.len() && msg.subrange(0, prefix.len() as int) == prefix
}

/// `prefix` followed by `detail`, as a `String`.
fn message(prefix: &str, detail: &str) -> (res: String)
    ensures
        res@ == prefix@ + detail@,
{
    let mut s = prefix.to_string();
    s.append(detail);
    s
}

/// Derives the 256-bit cipher key from a password with PBKDF2-HMAC-SHA256.
fn derive_key(password: &str, salt: &[u8]) -> (key: [u8; 32])
    ensures
        key@ == derived_key(password@, salt@),
{
    pbkdf2_sha256_32(password.as_bytes(), salt, PBKDF2_ITERATIONS)
}

/// Encrypts `plaintext` with AES-256-GCM under a key derived from `password`,
/// with a fresh random salt and nonce, and returns `base64(salt || nonce ||
/// ciphertext)`.
pub fn encrypt(plaintext: &str, password: &str) -> (res: Result<String, String>)
    ensures
        encode_utf8(plaintext@).len() <= AES_GCM_MAX_PLAINTEXT ==> res is Ok,
        res matches Ok(blob) ==> exists|salt: Seq<u8>, nonce: Seq<u8>|
            salt.len() == SALT_LENGTH && nonce.len() == NONCE_LENGTH
                && blob@ == #[trigger] sealed_blob(plaintext@, password@, salt, nonce),
        res matches Err(msg) ==> has_prefix(msg@, "Encryption failed: "@),
{
    let mut salt = [0u8; 16];
    let mut nonce_bytes = [0u8; 12];
    fill_random(&mut salt);
    fill_random(&mut nonce_bytes);

    let key = derive_key(password, &salt);

    let ciphertext = match aes256_gcm_encrypt(&key, &nonce_bytes, plaintext.as_bytes()) {
        Ok(ct) => ct,
        Err(e) => {
            let msg = message("Encryption failed: ", e.as_str());
            proof {
                reveal_strlit("Encryption failed: ");
                assert(msg@.subrange(0, 19) =~= "Encryption failed: "@);
            }
            return Err(msg);
        },
    };

    let mut combined: Vec<u8> = Vec::new();
    combined.extend_from_slice(&salt);
    combined.extend_from_slice(&nonce_bytes);
    combined.extend_from_slice(&ciphertext);
    proof {
        assert(combined@ =~= salt@ + nonce_bytes@ + ciphertext@);
    }
    let blob = base64_standard_encode(&combined);
    assert(blob@ == sealed_blob(plaintext@, password@, salt@, nonce_bytes@));
    Ok(blob)
}

/// Decrypts a blob made by [`encrypt`] with the same password.
///
/// A blob that `encrypt` made from a plaintext with `password` decrypts to
/// that plaintext.
pub fn decrypt(encrypted_data: &str, password: &str) -> (res: Result<String, String>)
    ensures
        match res {
            Ok(text) => decrypted_text(encrypted_data@, password@) == Some(text@),
            Err(_) => decrypted_text(encrypted_data@, password@) is None,
        },
        forall|text: Seq<char>, salt: Seq<u8>, nonce: Seq<u8>|
            #![trigger sealed_blob(text, password@, salt, nonce)]
            salt.len() == SALT_LENGTH && nonce.len() == NONCE_LENGTH
                && encode_utf8(text).len() <= AES_GCM_MAX_PLAINTEXT
                && encrypted_data@ == sealed_blob(text, password@, salt, nonce)
                ==> (res matches Ok(t) && t@ == text),
        !is_base64(encrypted_data@) ==> (res matches Err(msg) && has_prefix(msg@, "Invalid base64: "@)),
        is_base64(encrypted_data@) && base64_bytes(encrypted_data@).len() < SALT_LENGTH + NONCE_LENGTH
            ==> (res matches Err(msg) && msg@ == "Invalid encrypted data"@),
        is_base64(encrypted_data@) && base64_bytes(encrypted_data@).len() >= SALT_LENGTH + NONCE_LENGTH
            && unsealed_bytes(encrypted_data@, password@) is None
            ==> (res matches Err(msg) && has_prefix(msg@, "Decryption failed (wrong password?): "@)),
        (unsealed_bytes(encrypted_data@, password@) matches Some(b) && !valid_utf8(b))
            ==> (res matches Err(msg) && has_prefix(msg@, "Invalid UTF-8: "@)),
{
    proof {
        reveal_strlit("Invalid base64: ");
        reveal_strlit("Invalid encrypted data");
        reveal_strlit("Decryption failed (wrong password?): ");
        reveal_strlit("Invalid UTF-8: ");
    }
    let combined = match base64_standard_decode(encrypted_data) {
        Ok(c) => c,
        Err(e) => {
            let msg = message("Invalid base64: ", e.as_str());
            assert(msg@.subrange(0, 16) =~= "Invalid base64: "@);
            return Err(msg);
        },
    };
    proof {
        assert(is_base64(encrypted_data@));
        let b = base64_bytes(encrypted_data@);
        assert(base64_encode(b) == encrypted_data@);
        assert(combined@ == b);
    }

    if combined.len() < SALT_LENGTH + NONCE_LENGTH {
        return Err("Invalid encrypted data".to_string());
    }

    let salt = &combined[0..SALT_LENGTH];
    let nonce_slice = &combined[SALT_LENGTH..SALT_LENGTH + NONCE_LENGTH];
    let ciphertext = &combined[SALT_LENGTH + NONCE_LENGTH..combined.len()];

    let mut nonce_bytes = [0u8; 12];
    let mut i: usize = 0;
    while i < NONCE_LENGTH
        invariant
            nonce_slice@.len() == NONCE_LENGTH,
            0 <= i <= NONCE_LENGTH,
            nonce_bytes@.len() == NONCE_LENGTH,
            forall|j: int| 0 <= j < i ==> nonce_bytes@[j] == nonce_slice@[j],
        decreases NONCE_LENGTH - i,
    {
        nonce_bytes[i] = nonce_slice[i];
        i = i + 1;
    }
    assert(nonce_bytes@ =~= nonce_slice@);

    let key = derive_key(password, salt);

    proof {
        assert forall|text: Seq<char>, salt2: Seq<u8>, nonce2: Seq<u8>|
            #![trigger sealed_blob(text, password@, salt2, nonce2)]
            salt2.len() == SALT_LENGTH && nonce2.len() == NONCE_LENGTH
                && encrypted_data@ == sealed_blob(text, password@, salt2, nonce2)
            implies salt@ == salt2 && nonce_bytes@ == nonce2
                && ciphertext@ == aes256_gcm_seal(key@, nonce_bytes@, encode_utf8(text)) by {
            let ct2 = aes256_gcm_seal(derived_key(password@, salt2), nonce2, encode_utf8(text));
            let b = salt2 + nonce2 + ct2;
            assert(base64_encode(b) == encrypted_data@);
            assert(combined@ == b);
            assert(salt@ =~= salt2);
            assert(nonce_slice@ =~= nonce2);
            assert(ciphertext@ =~= ct2);
        }
    }

    let plaintext = match aes256_gcm_decrypt(&key, &nonce_bytes, ciphertext) {
        Ok(pt) => pt,
        Err(e) => {
            proof {
                assert forall|text: Seq<char>, salt2: Seq<u8>, nonce2: Seq<u8>|
                    #![trigger sealed_blob(text, password@, salt2, nonce2)]
                    salt2.len() == SALT_LENGTH && nonce2.len() == NONCE_LENGTH
                        && encode_utf8(text).len() <= AES_GCM_MAX_PLAINTEXT
                        && encrypted_data@ == sealed_blob(text, password@, salt2, nonce2)
                    implies false by {
                    let p = encode_utf8(text);
                    assert(aes256_gcm_seal(key@, nonce_bytes@, p) == ciphertext@);
                }
            }
            let msg = message("Decryption failed (wrong password?): ", e.as_str());
            assert(msg@.subrange(0, 37) =~= "Decryption failed (wrong password?): "@);
            return Err(msg);
        },
    };

    proof {
        broadcast use encode_utf8_valid_utf8, encode_utf8_decode_utf8;
        assert forall|text: Seq<char>, salt2: Seq<u8>, nonce2: Seq<u8>|
            #![trigger sealed_blob(text, password@, salt2, nonce2)]
            salt2.len() == SALT_LENGTH && nonce2.len() == NONCE_LENGTH
                && encode_utf8(text).len() <= AES_GCM_MAX_PLAINTEXT
                && encrypted_data@ == sealed_blob(text, password@, salt2, nonce2)
            implies plaintext@ == encode_utf8(text) by {
            let p = encode_utf8(text);
            assert(aes256_gcm_seal(key@, nonce_bytes@, p) == ciphertext@);
        }
    }
    match string_from_utf8(plaintext) {
        Ok(s) => Ok(s),
        Err(e) => {
            let msg = message("Invalid UTF-8: ", e.as_str());
            assert(msg@.subrange(0, 15) =~= "Invalid UTF-8: "@);
            Err(msg)
        },
    }
}

} // verus!
