//! Credential service: decrypts a user's stored Polymarket credentials with
//! the password cached at login, and caches the result.

use crate::api::{opt_str, CachedCredentials};
use crate::api::settings::{encryption_password, pm_key, stored_signature_type};
use crate::crypto::{decrypt, decrypted_text, encrypt, sealed_blob, AES_GCM_MAX_PLAINTEXT, NONCE_LENGTH, SALT_LENGTH};
use crate::db::{byte_len, find_key_value, ApiKeyRecord};
use crate::text::{parse_u8, parse_u8_spec};
use std::collections::HashMap;
use vstd::prelude::*;
use vstd::string::*;
use vstd::utf8::*;

verus! {

broadcast use vstd::std_specs::hash::group_hash_axioms;

/// Complete, decrypted credentials.
#[derive(Clone, Debug)]
pub struct PolymarketCredentials {
    pub api_key: String,
    pub api_secret: String,
    pub api_passphrase: String,
    pub private_key: String,
    pub funder: Option<String>,
    pub signature_type: u8,
    pub wallet_address: String,
}

/// Why credentials could not be had.
pub enum CredentialError {
    /// No credentials found for user.
    NotFound,
    /// Password not cached: the user needs to log in again or re-save settings.
    PasswordNotCached,
    /// Failed to decrypt credentials.
    DecryptError(String),
    /// Failed to parse credentials.
    ParseError(String),
    /// Database error.
    DatabaseError(String),
    /// Invalid private key.
    InvalidPrivateKey(String),
    /// Private key required for this operation.
    PrivateKeyRequired,
}

/// The text of a credential error.
pub open spec fn error_text(e: CredentialError) -> Seq<char> {
    match e {
        CredentialError::NotFound => "No credentials found for user"@,
        CredentialError::PasswordNotCached => "Password not cached \u{2014} user needs to re-login or re-save settings"@,
        CredentialError::DecryptError(m) => "Failed to decrypt credentials: "@ + m@,
        CredentialError::ParseError(m) => "Failed to parse credentials: "@ + m@,
        CredentialError::DatabaseError(m) => "Database error: "@ + m@,
        CredentialError::InvalidPrivateKey(m) => "Invalid private key: "@ + m@,
        CredentialError::PrivateKeyRequired => "Private key required for this operation"@,
    }
}

fn prefixed(prefix: &str, detail: &String) -> (s: String)
    ensures
        s@ == prefix@ + detail@,
{
    let mut s = prefix.to_string();
    s.append(detail.as_str());
    s
}

impl CredentialError {
    /// The error's text.
    pub fn message(&self) -> (m: String)
        ensures
            m@ == error_text(*self),
    {
        match self {
            CredentialError::NotFound => "No credentials found for user".to_string(),
            CredentialError::PasswordNotCached => "Password not cached \u{2014} user needs to re-login or re-save settings".to_string(),
            CredentialError::DecryptError(m) => prefixed("Failed to decrypt credentials: ", m),
            CredentialError::ParseError(m) => prefixed("Failed to parse credentials: ", m),
            CredentialError::DatabaseError(m) => prefixed("Database error: ", m),
            CredentialError::InvalidPrivateKey(m) => prefixed("Invalid private key: ", m),
            CredentialError::PrivateKeyRequired => "Private key required for this operation".to_string(),
        }
    }
}

/// The fields of the decrypted credentials JSON.
pub struct StoredCredentials {
    pub key: String,
    pub secret: String,
    pub passphrase: String,
    pub private_key: String,
    pub funder: Option<String>,
    pub signature_type: Option<u8>,
    pub wallet_address: Option<String>,
}

/// A copy of the credentials, field for field.
fn copy_credentials(c: &PolymarketCredentials) -> (d: PolymarketCredentials)
    ensures
        d == *c,
{
    PolymarketCredentials {
        api_key: c.api_key.clone(),
        api_secret: c.api_secret.clone(),
        api_passphrase: c.api_passphrase.clone(),
        private_key: c.private_key.clone(),
        funder: match &c.funder {
            Some(f) => Some(f.clone()),
            None => None,
        },
        signature_type: c.signature_type,
        wallet_address: c.wallet_address.clone(),
    }
}

/// Whether `blob` is what saving the credentials text `text` under the login
/// password `password` stores: the text sealed under `{password}_pm_creds`
/// with some salt and nonce.
pub open spec fn sealed_for(blob: Seq<char>, text: Seq<char>, password: Seq<char>) -> bool {
    exists|salt: Seq<u8>, nonce: Seq<u8>|
        salt.len() == SALT_LENGTH && nonce.len() == NONCE_LENGTH && encode_utf8(text).len() <= AES_GCM_MAX_PLAINTEXT
            && blob == #[trigger] sealed_blob(text, password + "_pm_creds"@, salt, nonce)
}

/// Seals a user's credentials text (JSON) for storage under their login
/// password, as the settings are saved.
pub fn seal_credentials(password: &str, credentials_json: &str) -> (res: Result<String, String>)
    ensures
        encode_utf8(credentials_json@).len() <= AES_GCM_MAX_PLAINTEXT ==> (res matches Ok(blob)
            && sealed_for(blob@, credentials_json@, password@)),
        res matches Err(m) ==> crate::crypto::has_prefix(m@, "Encryption failed: "@),
{
    let key = encryption_password(password);
    let res = encrypt(credentials_json, key.as_str());
    proof {
        if res is Ok && encode_utf8(credentials_json@).len() <= AES_GCM_MAX_PLAINTEXT {
            let blob = res->Ok_0;
            {
                let (salt, nonce) = choose|salt: Seq<u8>, nonce: Seq<u8>|
                    salt.len() == SALT_LENGTH && nonce.len() == NONCE_LENGTH
                        && blob@ == #[trigger] sealed_blob(credentials_json@, key@, salt, nonce);
                assert(key@ == password@ + "_pm_creds"@);
                assert(blob@ == sealed_blob(credentials_json@, password@ + "_pm_creds"@, salt, nonce));
            }
        }
    }
    res
}

/// In-memory caches of decrypted credentials and of login passwords, keyed
/// by user id.
pub struct CredentialService {
    cache: HashMap<i64, PolymarketCredentials>,
    password_cache: HashMap<i64, String>,
}

impl CredentialService {
    /// The cached credentials, by user.
    pub closed spec fn credentials(&self) -> Map<i64, PolymarketCredentials> {
        self.cache@
    }

    /// The cached passwords, by user.
    pub closed spec fn passwords(&self) -> Map<i64, String> {
        self.password_cache@
    }

    /// Whether the stored blob reads back, for the user, as the credentials
    /// text: it was sealed under the password cached for the user.
    pub open spec fn reads_back(&self, user_id: i64, blob: Seq<char>, text: Seq<char>) -> bool {
        self.passwords().contains_key(user_id) && sealed_for(blob, text, self.passwords()[user_id]@)
    }

    /// Empty caches.
    pub fn new() -> (s: Self)
        ensures
            s.credentials() == Map::<i64, PolymarketCredentials>::empty(),
            s.passwords() == Map::<i64, String>::empty(),
    {
        CredentialService { cache: HashMap::new(), password_cache: HashMap::new() }
    }

    /// Caches a user's password (at login).
    pub fn set_password(&mut self, user_id: i64, password: String)
        ensures
            final(self).passwords() == old(self).passwords().insert(user_id, password),
            final(self).credentials() == old(self).credentials(),
    {
        self.password_cache.insert(user_id, password);
    }

    /// Forgets a user's password and credentials (at logout).
    pub fn clear_password(&mut self, user_id: i64)
        ensures
            final(self).passwords() == old(self).passwords().remove(user_id),
            final(self).credentials() == old(self).credentials().remove(user_id),
    {
        self.password_cache.remove(&user_id);
        self.cache.remove(&user_id);
    }

    /// Records a settings update that stored credentials sealed under the
    /// user's password: the password is cached and the user's decrypted
    /// credentials are dropped, so the next read decrypts the new blob.
    pub fn record_saved_settings(&mut self, user_id: i64, password: String)
        ensures
            final(self).passwords() == old(self).passwords().insert(user_id, password),
            final(self).credentials() == old(self).credentials().remove(user_id),
    {
        self.set_password(user_id, password);
        self.invalidate_cache(user_id);
    }

    /// Forgets a user's cached credentials (after a settings update).
    pub fn invalidate_cache(&mut self, user_id: i64)
        ensures
            final(self).credentials() == old(self).credentials().remove(user_id),
            final(self).passwords() == old(self).passwords(),
    {
        self.cache.remove(&user_id);
    }

    /// The user's cached credentials, if any.
    pub fn cached_credentials(&self, user_id: i64) -> (c: Option<PolymarketCredentials>)
        ensures
            match c {
                Some(v) => self.credentials().contains_key(user_id) && v == self.credentials()[user_id],
                None => !self.credentials().contains_key(user_id),
            },
    {
        match self.cache.get(&user_id) {
            Some(c) => Some(copy_credentials(c)),
            None => None,
        }
    }

    /// Decrypts the user's stored credentials blob (the settings row: API
    /// key and blob, `None` when there is none) with the cached password,
    /// giving the credentials JSON.
    pub fn decrypt_stored(&self, user_id: i64, settings: Option<(String, String)>) -> (res: Result<String, CredentialError>)
        ensures
            (settings is None || (settings matches Some(s) && s.1@.len() == 0))
                ==> (res matches Err(CredentialError::NotFound)),
            (settings matches Some(s) && s.1@.len() > 0 && !self.passwords().contains_key(user_id))
                ==> (res matches Err(CredentialError::PasswordNotCached)),
            match settings {
                Some(s) => (s.1@.len() > 0 && self.passwords().contains_key(user_id)) ==> match res {
                    Ok(json) => decrypted_text(s.1@, self.passwords()[user_id]@ + "_pm_creds"@) == Some(json@),
                    Err(e) => (e matches CredentialError::DecryptError(m) && crate::crypto::has_prefix(m@, "Decryption failed: "@))
                        && decrypted_text(s.1@, self.passwords()[user_id]@ + "_pm_creds"@) is None,
                },
                None => true,
            },
            match settings {
                Some(s) => self.passwords().contains_key(user_id) ==> forall|text: Seq<char>, salt: Seq<u8>, nonce: Seq<u8>|
                    #![trigger sealed_blob(text, self.passwords()[user_id]@ + "_pm_creds"@, salt, nonce)]
                    salt.len() == SALT_LENGTH && nonce.len() == NONCE_LENGTH
                        && encode_utf8(text).len() <= AES_GCM_MAX_PLAINTEXT
                        && s.1@ == sealed_blob(text, self.passwords()[user_id]@ + "_pm_creds"@, salt, nonce)
                        ==> (res matches Ok(json) && json@ == text),
                None => true,
            },
            match settings {
                Some(s) => forall|text: Seq<char>| #[trigger] self.reads_back(user_id, s.1@, text)
                    ==> (res matches Ok(json) && json@ == text),
                None => true,
            },
    {
        let blob = match settings {
            Some((_key, blob)) => {
                if blob.as_str().is_empty() {
                    proof {
                        assert forall|text: Seq<char>, salt: Seq<u8>, nonce: Seq<u8>|
                            salt.len() == SALT_LENGTH && nonce.len() == NONCE_LENGTH
                            implies sealed_blob(text, self.passwords()[user_id]@ + "_pm_creds"@, salt, nonce).len() > 0 by {
                            let pw = self.passwords()[user_id]@ + "_pm_creds"@;
                            let b = salt + nonce + crate::crypto::aes256_gcm_seal(crate::crypto::derived_key(pw, salt), nonce, encode_utf8(text));
                            assert(b.len() >= 3);
                            assert(crate::crypto::base64_encode(b).len() >= 4);
                        }
                    }
                    return Err(CredentialError::NotFound);
                }
                blob
            },
            None => return Err(CredentialError::NotFound),
        };
        let password = match self.password_cache.get(&user_id) {
            Some(pw) => pw.clone(),
            None => return Err(CredentialError::PasswordNotCached),
        };
        let key = encryption_password(password.as_str());
        match decrypt(blob.as_str(), key.as_str()) {
            Ok(json) => Ok(json),
            Err(e) => {
                let mut msg = "Decryption failed: ".to_string();
                msg.append(e.as_str());
                proof {
                    reveal_strlit("Decryption failed: ");
                    assert(msg@.subrange(0, 19) =~= "Decryption failed: "@);
                }
                Err(CredentialError::DecryptError(msg))
            },
        }
    }

    /// Completes the credentials parsed from the decrypted JSON and caches
    /// them. The wallet is the stored one when non-empty; otherwise the one
    /// that `derived_wallet` gives for the stored private key (asked only
    /// when that key is non-empty); with neither, the private key is
    /// required. The signature type defaults to zero.
    pub fn finish_credentials(
        &mut self,
        user_id: i64,
        stored: StoredCredentials,
        derived_wallet: Result<String, String>,
    ) -> (res: Result<PolymarketCredentials, CredentialError>)
        ensures
            match res {
                Ok(c) => {
                    &&& c.api_key == stored.key
                    &&& c.api_secret == stored.secret
                    &&& c.api_passphrase == stored.passphrase
                    &&& c.private_key == stored.private_key
                    &&& c.funder == stored.funder
                    &&& c.signature_type == match stored.signature_type {
                        Some(t) => t,
                        None => 0,
                    }
                    &&& c.wallet_address@ == match stored.wallet_address {
                        Some(w) if w@.len() > 0 => w@,
                        _ => match derived_wallet {
                            Ok(w) => w@,
                            Err(_) => seq![],
                        },
                    }
                    &&& final(self).credentials() == old(self).credentials().insert(user_id, c)
                },
                Err(e) => final(self).credentials() == old(self).credentials(),
            },
            (stored.wallet_address matches Some(w) && w@.len() > 0) ==> res is Ok,
            !(stored.wallet_address matches Some(w) && w@.len() > 0) ==> {
                &&& stored.private_key@.len() == 0 ==> (res matches Err(CredentialError::PrivateKeyRequired))
                &&& stored.private_key@.len() > 0 ==> (derived_wallet is Ok <==> res is Ok)
                &&& (stored.private_key@.len() > 0 && derived_wallet is Err)
                    ==> (res matches Err(CredentialError::InvalidPrivateKey(_)))
            },
            final(self).passwords() == old(self).passwords(),
    {
        let wallet_address = match stored.wallet_address {
            Some(addr) if !addr.as_str().is_empty() => addr,
            _ => {
                if stored.private_key.as_str().is_empty() {
                    return Err(CredentialError::PrivateKeyRequired);
                }
                match derived_wallet {
                    Ok(w) => w,
                    Err(e) => return Err(CredentialError::InvalidPrivateKey(e)),
                }
            },
        };
        let signature_type = match stored.signature_type {
            Some(t) => t,
            None => 0,
        };
        let result = PolymarketCredentials {
            api_key: stored.key,
            api_secret: stored.secret,
            api_passphrase: stored.passphrase,
            private_key: stored.private_key,
            funder: stored.funder,
            signature_type,
            wallet_address,
        };
        let cached = copy_credentials(&result);
        self.cache.insert(user_id, cached);
        Ok(result)
    }
}

/// Credentials saved with a settings update read back unchanged: once
/// [`seal_credentials`] has sealed the text under the user's password and
/// [`CredentialService::record_saved_settings`] has cached that password,
/// the service reads the stored blob back as that text
/// ([`CredentialService::decrypt_stored`]), until the user's password
/// changes.
pub proof fn lemma_saved_settings_read_back(
    service: CredentialService,
    user_id: i64,
    password: String,
    blob: Seq<char>,
    text: Seq<char>,
)
    requires
        service.passwords().contains_key(user_id),
        service.passwords()[user_id] == password,
        sealed_for(blob, text, password@),
    ensures
        service.reads_back(user_id, blob, text),
{
}

/// Whether the wallet address must be derived from the private key: the
/// stored address is missing or empty and a private key is present.
pub fn needs_wallet_derivation(stored: &StoredCredentials) -> (res: bool)
    ensures
        res == (!(stored.wallet_address matches Some(w) && w@.len() > 0) && stored.private_key@.len() > 0),
{
    let has_stored = match &stored.wallet_address {
        Some(w) => !w.as_str().is_empty(),
        None => false,
    };
    !has_stored && !stored.private_key.as_str().is_empty()
}

/// What loading a user's stored keys at startup gives.
pub enum StartupLoad {
    /// No private key is stored: nothing to load.
    NoPrivateKey,
    /// A private key is stored but the HMAC credentials are incomplete or the
    /// key is invalid.
    Incomplete,
    /// The cache entry to install.
    Loaded(CachedCredentials),
}

/// Whether a stored value has at least five bytes (missing counts as empty).
pub open spec fn at_least_five(v: Option<Seq<char>>) -> bool {
    v matches Some(s) && byte_len(s) >= 5
}

fn has_five(v: &Option<String>) -> (res: bool)
    ensures
        res == at_least_five(opt_str(*v)),
{
    match v {
        Some(s) => s.as_str().len() >= 5,
        None => false,
    }
}

/// The cache entry loaded at startup from a user's stored keys. A stored
/// private key needs API key, secret and passphrase of at least five bytes
/// each, and a valid key: `derived_wallet` is the address it controls
/// (`None` when it is not a valid key). The stored deposit wallet is always
/// kept.
pub fn startup_credentials(keys: &Vec<ApiKeyRecord>, derived_wallet: Option<String>) -> (load: StartupLoad)
    ensures
        pm_key(keys@, "polymarket_private_key"@) is None ==> load is NoPrivateKey,
        pm_key(keys@, "polymarket_private_key"@) is Some && !(at_least_five(pm_key(keys@, "polymarket_api_key"@))
            && at_least_five(pm_key(keys@, "polymarket_api_secret"@))
            && at_least_five(pm_key(keys@, "polymarket_passphrase"@))) ==> load is Incomplete,
        pm_key(keys@, "polymarket_private_key"@) is Some && derived_wallet is None ==> load is Incomplete,
        load matches StartupLoad::Loaded(c) ==> {
            &&& derived_wallet matches Some(w) && c.wallet_address == w
            &&& Some(c.api_key@) == pm_key(keys@, "polymarket_api_key"@)
            &&& Some(c.api_secret@) == pm_key(keys@, "polymarket_api_secret"@)
            &&& Some(c.api_passphrase@) == pm_key(keys@, "polymarket_passphrase"@)
            &&& Some(c.private_key@) == pm_key(keys@, "polymarket_private_key"@)
            &&& opt_str(c.funder) == pm_key(keys@, "polymarket_funder"@)
            &&& c.signature_type == stored_signature_type(keys@)
            &&& opt_str(c.deposit_wallet_address) == pm_key(keys@, "polymarket_deposit_wallet_address"@)
        },
        (pm_key(keys@, "polymarket_private_key"@) is Some && at_least_five(pm_key(keys@, "polymarket_api_key"@))
            && at_least_five(pm_key(keys@, "polymarket_api_secret"@))
            && at_least_five(pm_key(keys@, "polymarket_passphrase"@)) && derived_wallet is Some)
            ==> load is Loaded,
{
    let private_key = match find_key_value(keys, "polymarket_private_key") {
        Some(pk) => pk,
        None => return StartupLoad::NoPrivateKey,
    };
    let api_key = find_key_value(keys, "polymarket_api_key");
    let api_secret = find_key_value(keys, "polymarket_api_secret");
    let passphrase = find_key_value(keys, "polymarket_passphrase");
    if !(has_five(&api_key) && has_five(&api_secret) && has_five(&passphrase)) {
        return StartupLoad::Incomplete;
    }
    let funder = find_key_value(keys, "polymarket_funder");
    let signature_type = match find_key_value(keys, "polymarket_signature_type") {
        Some(s) => match parse_u8(s.as_str()) {
            Some(v) => v,
            None => 0,
        },
        None => 0,
    };
    let wallet_address = match derived_wallet {
        Some(w) => w,
        None => return StartupLoad::Incomplete,
    };
    let deposit_wallet_address = find_key_value(keys, "polymarket_deposit_wallet_address");
    match (api_key, api_secret, passphrase) {
        (Some(key), Some(secret), Some(pass)) => StartupLoad::Loaded(CachedCredentials {
            api_key: key,
            api_secret: secret,
            api_passphrase: pass,
            private_key,
            funder,
            signature_type,
            wallet_address,
            deposit_wallet_address,
        }),
        _ => StartupLoad::Incomplete,
    }
}

} // verus!
