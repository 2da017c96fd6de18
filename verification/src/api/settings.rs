//! Settings: storing Polymarket credentials and building the in-memory
//! credential cache from the stored API keys.

use crate::api::{opt_str, CachedCredentials};
use crate::db::{byte_len, find_key_value, first_named, lemma_lookup_key_first, lookup_key, ApiKeyRecord};
use crate::text::{is_trim_of, parse_u8, parse_u8_spec, str_trim, u8_to_string, decimal, starts_with, str_starts_with};
use std::collections::HashMap;
use vstd::prelude::*;
use vstd::string::*;

verus! {

#[derive(Debug)]
pub struct ErrorResponse {
    pub error: String,
}

pub struct GetSettingsResponse {
    pub polymarket_api_key: Option<String>,
    pub wallet_address: Option<String>,
    pub has_credentials: bool,
    pub funder: Option<String>,
}

pub struct UpdateSettingsRequest {
    /// Private key (0x prefix or hex)
    pub polymarket_private_key: String,
    /// Polymarket profile address (funder) - where USDC is sent
    pub funder: Option<String>,
    /// Signature type: 0 = EOA (Metamask), 1 = Magic/Email
    pub signature_type: Option<u8>,
    /// User's password for encrypting the credentials
    pub password: String,
}

pub struct UpdateSettingsResponse {
    pub success: bool,
    pub message: String,
    pub wallet_address: String,
    pub api_key: String,
}

/// Request to validate stored credentials.
pub struct ValidateCredentialsRequest {}

pub struct ValidateCredentialsResponse {
    pub valid: bool,
    pub balance: Option<String>,
    pub allowance: Option<String>,
    pub error: Option<String>,
}

/// Request to delete stored credentials.
pub struct DeleteCredentialsRequest {
    pub password: String,
}

/// Request to derive an API key (without storing it).
pub struct DeriveKeyRequest {
    pub polymarket_private_key: String,
    pub signature_type: Option<u8>,
}

/// Request to validate existing credentials.
pub struct ValidateExistingRequest {
    pub api_key: String,
    pub api_secret: String,
    pub api_passphrase: String,
    pub private_key: String,
    pub signature_type: Option<u8>,
}

/// Store credentials without validation (for credentials that worked before).
pub struct StoreCredentialsRequest {
    pub api_key: String,
    pub api_secret: String,
    pub api_passphrase: String,
    pub private_key: String,
    pub signature_type: Option<u8>,
    pub funder: Option<String>,
    pub password: String,
}

pub struct DeriveKeyResponse {
    pub success: bool,
    pub wallet_address: String,
    pub api_key: String,
    pub api_secret: Option<String>,
    pub api_passphrase: Option<String>,
    pub message: String,
}

pub struct ValidateKeyRequest {
    pub key_name: String,
    pub key_value: String,
}

pub struct StoreKeyRequest {
    pub key_name: String,
    pub key_value: String,
}

pub struct StoredKeyResponse {
    pub key_name: String,
    pub key_value: String,
    pub is_valid: bool,
    pub created_at: String,
    pub last_validated: String,
}

pub struct StoreApiKeyRequest {
    pub provider: String,
    pub keys: HashMap<String, String>,
}

// ---------------------------------------------------------------------------
// Stored key names
// ---------------------------------------------------------------------------

/// The stored value of a Polymarket key.
pub open spec fn pm_key(keys: Seq<ApiKeyRecord>, name: Seq<char>) -> Option<Seq<char>> {
    lookup_key(keys, name)
}

/// Whether a stored value is present and longer than five bytes.
pub open spec fn present_over_five(v: Option<Seq<char>>) -> bool {
    v matches Some(s) && byte_len(s) > 5
}

/// The stored signature type: the parsed `polymarket_signature_type`, zero
/// when it is missing or not a `u8`.
pub open spec fn stored_signature_type(keys: Seq<ApiKeyRecord>) -> u8 {
    match pm_key(keys, "polymarket_signature_type"@) {
        Some(s) => match parse_u8_spec(s) {
            Some(v) => v,
            None => 0,
        },
        None => 0,
    }
}

/// Whether the stored keys hold a complete set of credentials for the
/// cache: API key, secret, passphrase and private key, each longer than five
/// bytes.
pub open spec fn has_complete_credentials(keys: Seq<ApiKeyRecord>) -> bool {
    &&& present_over_five(pm_key(keys, "polymarket_api_key"@))
    &&& present_over_five(pm_key(keys, "polymarket_api_secret"@))
    &&& present_over_five(pm_key(keys, "polymarket_passphrase"@))
    &&& present_over_five(pm_key(keys, "polymarket_private_key"@))
}

/// Whether the first record stored under `name` holds more than five bytes.
pub open spec fn first_over_five(keys: Seq<ApiKeyRecord>, name: Seq<char>) -> bool {
    exists|i: int| #[trigger] first_named(keys, name, i) && byte_len(keys[i].key_value@) > 5
}

proof fn lemma_present_over_five(keys: Seq<ApiKeyRecord>, name: Seq<char>)
    ensures
        present_over_five(pm_key(keys, name)) <==> first_over_five(keys, name),
{
    lemma_lookup_key_first(keys, name);
}

/// The stored keys make complete credentials exactly when each of the four
/// keys `polymarket_api_key`, `polymarket_api_secret`,
/// `polymarket_passphrase` and `polymarket_private_key` is stored, the first
/// record under each holding more than five bytes; no other key matters.
pub proof fn lemma_complete_credentials_records(keys: Seq<ApiKeyRecord>)
    ensures
        has_complete_credentials(keys) <==> {
            &&& first_over_five(keys, "polymarket_api_key"@)
            &&& first_over_five(keys, "polymarket_api_secret"@)
            &&& first_over_five(keys, "polymarket_passphrase"@)
            &&& first_over_five(keys, "polymarket_private_key"@)
        },
{
    lemma_present_over_five(keys, "polymarket_api_key"@);
    lemma_present_over_five(keys, "polymarket_api_secret"@);
    lemma_present_over_five(keys, "polymarket_passphrase"@);
    lemma_present_over_five(keys, "polymarket_private_key"@);
}

/// Stored signature type of the keys.
fn signature_type_of(keys: &Vec<ApiKeyRecord>) -> (t: u8)
    ensures
        t == stored_signature_type(keys@),
{
    match find_key_value(keys, "polymarket_signature_type") {
        Some(s) => match parse_u8(s.as_str()) {
            Some(v) => v,
            None => 0,
        },
        None => 0,
    }
}

fn over_five(v: &Option<String>) -> (res: bool)
    ensures
        res == present_over_five(opt_str(*v)),
{
    match v {
        Some(s) => s.as_str().len() > 5,
        None => false,
    }
}

/// The cache entry that the stored Polymarket keys give, when they are
/// complete; `wallet_address` is the address that the stored private key
/// controls (empty when it is not a valid key). The deposit wallet is kept
/// only for signature type 3.
pub fn credentials_from_keys(keys: &Vec<ApiKeyRecord>, wallet_address: String) -> (creds: Option<CachedCredentials>)
    ensures
        creds is Some <==> has_complete_credentials(keys@),
        creds is Some <==> {
            &&& first_over_five(keys@, "polymarket_api_key"@)
            &&& first_over_five(keys@, "polymarket_api_secret"@)
            &&& first_over_five(keys@, "polymarket_passphrase"@)
            &&& first_over_five(keys@, "polymarket_private_key"@)
        },
        creds matches Some(c) ==> {
            &&& Some(c.api_key@) == pm_key(keys@, "polymarket_api_key"@)
            &&& Some(c.api_secret@) == pm_key(keys@, "polymarket_api_secret"@)
            &&& Some(c.api_passphrase@) == pm_key(keys@, "polymarket_passphrase"@)
            &&& Some(c.private_key@) == pm_key(keys@, "polymarket_private_key"@)
            &&& opt_str(c.funder) == pm_key(keys@, "polymarket_funder"@)
            &&& c.signature_type == stored_signature_type(keys@)
            &&& c.wallet_address@ == wallet_address@
            &&& opt_str(c.deposit_wallet_address) == if c.signature_type == 3 {
                pm_key(keys@, "polymarket_deposit_wallet_address"@)
            } else {
                None
            }
        },
{
    proof {
        lemma_complete_credentials_records(keys@);
    }
    let api_key = find_key_value(keys, "polymarket_api_key");
    let api_secret = find_key_value(keys, "polymarket_api_secret");
    let passphrase = find_key_value(keys, "polymarket_passphrase");
    let private_key = find_key_value(keys, "polymarket_private_key");
    let funder = find_key_value(keys, "polymarket_funder");
    let signature_type = signature_type_of(keys);

    if !(over_five(&api_key) && over_five(&api_secret) && over_five(&passphrase) && over_five(&private_key)) {
        return None;
    }
    let deposit_wallet_address = if signature_type == 3 {
        find_key_value(keys, "polymarket_deposit_wallet_address")
    } else {
        None
    };
    match (api_key, api_secret, passphrase, private_key) {
        (Some(key), Some(secret), Some(pass), Some(pk)) => Some(CachedCredentials {
            api_key: key,
            api_secret: secret,
            api_passphrase: pass,
            private_key: pk,
            funder,
            signature_type,
            wallet_address,
            deposit_wallet_address,
        }),
        _ => None,
    }
}

/// Whether any stored key is a Polymarket key with a value longer than five
/// bytes.
pub open spec fn has_polymarket_keys(keys: Seq<ApiKeyRecord>) -> bool {
    exists|i: int|
        0 <= i < keys.len() && starts_with(#[trigger] keys[i].key_name@, "polymarket_"@)
            && byte_len(keys[i].key_value@) > 5
}

/// Keys stored under names that do not start with `polymarket_` never count
/// as Polymarket credentials, whatever their values: adding one changes
/// nothing, and no keys at all are none.
pub proof fn lemma_other_keys_never_count(keys: Seq<ApiKeyRecord>, extra: ApiKeyRecord)
    requires
        !starts_with(extra.key_name@, "polymarket_"@),
    ensures
        has_polymarket_keys(keys.push(extra)) == has_polymarket_keys(keys),
        !has_polymarket_keys(Seq::<ApiKeyRecord>::empty()),
{
    let more = keys.push(extra);
    if has_polymarket_keys(more) {
        let i = choose|i: int|
            0 <= i < more.len() && starts_with(#[trigger] more[i].key_name@, "polymarket_"@)
                && byte_len(more[i].key_value@) > 5;
        assert(i < keys.len());
        assert(more[i] == keys[i]);
    }
    if has_polymarket_keys(keys) {
        let i = choose|i: int|
            0 <= i < keys.len() && starts_with(#[trigger] keys[i].key_name@, "polymarket_"@)
                && byte_len(keys[i].key_value@) > 5;
        assert(more[i] == keys[i]);
    }
}

/// A key stored under a `polymarket_` name with a value longer than five bytes
/// always counts as Polymarket credentials, whatever else is stored.
pub proof fn lemma_polymarket_key_counts(keys: Seq<ApiKeyRecord>, extra: ApiKeyRecord)
    requires
        starts_with(extra.key_name@, "polymarket_"@),
        byte_len(extra.key_value@) > 5,
    ensures
        has_polymarket_keys(keys.push(extra)),
{
    let more = keys.push(extra);
    assert(more[keys.len() as int] == extra);
}

fn any_polymarket_key(keys: &Vec<ApiKeyRecord>) -> (res: bool)
    ensures
        res == has_polymarket_keys(keys@),
{
    let mut i: usize = 0;
    while i < keys.len()
        invariant
            0 <= i <= keys@.len(),
            forall|j: int|
                0 <= j < i ==> !(starts_with(#[trigger] keys@[j].key_name@, "polymarket_"@)
                    && byte_len(keys@[j].key_value@) > 5),
        decreases keys@.len() - i,
    {
        if str_starts_with(keys[i].key_name.as_str(), "polymarket_") && keys[i].key_value.as_str().len() > 5 {
            return true;
        }
        i = i + 1;
    }
    false
}

/// The settings shown to the user, from the stored API keys (`None` when they
/// could not be read) and the older encrypted settings row (API key and
/// blob): whether credentials exist and the API key, never the secrets.
pub fn settings_response(keys: Option<&Vec<ApiKeyRecord>>, old: Option<&(String, String)>) -> (resp: GetSettingsResponse)
    ensures
        resp.has_credentials == ((keys matches Some(k) && has_polymarket_keys(k@))
            || (old matches Some(o) && o.1@.len() > 0)),
        opt_str(resp.polymarket_api_key) == (match keys {
            Some(k) => match pm_key(k@, "polymarket_api_key"@) {
                Some(v) => Some(v),
                None => match old {
                    Some(o) => Some(o.0@),
                    None => None,
                },
            },
            None => match old {
                Some(o) => Some(o.0@),
                None => None,
            },
        }),
        resp.has_credentials ==> (keys matches Some(k) && exists|i: int|
            0 <= i < k@.len() && starts_with(#[trigger] k@[i].key_name@, "polymarket_"@)
                && byte_len(k@[i].key_value@) > 5) || (old matches Some(o) && o.1@.len() > 0),
        (keys matches Some(k) && forall|i: int|
            0 <= i < k@.len() ==> !starts_with(#[trigger] k@[i].key_name@, "polymarket_"@))
            && !(old matches Some(o) && o.1@.len() > 0) ==> !resp.has_credentials,
        resp.has_credentials ==> (resp.wallet_address matches Some(w) && w@ == "***"@),
        !resp.has_credentials ==> resp.wallet_address is None,
        resp.funder is None,
{
    let has_polymarket = match keys {
        Some(k) => any_polymarket_key(k),
        None => false,
    };
    let api_key = match keys {
        Some(k) => find_key_value(k, "polymarket_api_key"),
        None => None,
    };
    let has_blob = match old {
        Some(o) => !o.1.as_str().is_empty(),
        None => false,
    };
    let has_credentials = has_polymarket || has_blob;
    let wallet_address = if has_credentials { Some("***".to_string()) } else { None };
    let polymarket_api_key = match api_key {
        Some(k) => Some(k),
        None => match old {
            Some(o) => Some(o.0.clone()),
            None => None,
        },
    };
    GetSettingsResponse { polymarket_api_key, wallet_address, has_credentials, funder: None }
}

/// The password that encrypts a user's stored credentials:
/// `{password}_pm_creds`.
pub fn encryption_password(password: &str) -> (p: String)
    ensures
        p@ == password@ + "_pm_creds"@,
{
    let mut p = password.to_string();
    p.append("_pm_creds");
    p
}

/// Checks a request to store credentials: API key, secret and passphrase
/// must be non-empty, then the private key.
pub fn check_store_credentials(req: &StoreCredentialsRequest) -> (res: Result<(), ErrorResponse>)
    ensures
        (req.api_key@.len() == 0 || req.api_secret@.len() == 0 || req.api_passphrase@.len() == 0)
            ==> (res matches Err(e) && e.error@ == "API key, secret, and passphrase are required"@),
        (req.api_key@.len() > 0 && req.api_secret@.len() > 0 && req.api_passphrase@.len() > 0
            && req.private_key@.len() == 0) ==> (res matches Err(e) && e.error@ == "Private key is required"@),
        res is Ok <==> (req.api_key@.len() > 0 && req.api_secret@.len() > 0 && req.api_passphrase@.len() > 0
            && req.private_key@.len() > 0),
{
    if req.api_key.as_str().is_empty() || req.api_secret.as_str().is_empty() || req.api_passphrase.as_str().is_empty() {
        return Err(ErrorResponse { error: "API key, secret, and passphrase are required".to_string() });
    }
    if req.private_key.as_str().is_empty() {
        return Err(ErrorResponse { error: "Private key is required".to_string() });
    }
    Ok(())
}

/// Checks the private key of a settings update: trimmed, it must be at
/// least 32 bytes long. Gives the trimmed key.
pub fn check_private_key_format(private_key: &str) -> (res: Result<&str, ErrorResponse>)
    ensures
        match res {
            Ok(k) => is_trim_of(private_key@, k@) && byte_len(k@) >= 32,
            Err(e) => e.error@ == "Invalid private key format"@ && exists|t: Seq<char>|
                is_trim_of(private_key@, t) && byte_len(t) < 32,
        },
{
    let trimmed = str_trim(private_key);
    if trimmed.len() < 32 {
        return Err(ErrorResponse { error: "Invalid private key format".to_string() });
    }
    Ok(trimmed)
}

/// The key-value pairs that mirror a set of Polymarket credentials into the
/// API keys table, with the signature type in decimal.
pub fn mirrored_credential_keys(
    api_key: &str,
    api_secret: &str,
    passphrase: &str,
    private_key: &str,
    signature_type: u8,
) -> (pairs: Vec<(String, String)>)
    ensures
        pairs@.len() == 5,
        pairs@[0].0@ == "polymarket_api_key"@ && pairs@[0].1@ == api_key@,
        pairs@[1].0@ == "polymarket_api_secret"@ && pairs@[1].1@ == api_secret@,
        pairs@[2].0@ == "polymarket_passphrase"@ && pairs@[2].1@ == passphrase@,
        pairs@[3].0@ == "polymarket_private_key"@ && pairs@[3].1@ == private_key@,
        pairs@[4].0@ == "polymarket_signature_type"@ && pairs@[4].1@ == decimal(signature_type as int),
{
    let mut pairs: Vec<(String, String)> = Vec::new();
    pairs.push(("polymarket_api_key".to_string(), api_key.to_string()));
    pairs.push(("polymarket_api_secret".to_string(), api_secret.to_string()));
    pairs.push(("polymarket_passphrase".to_string(), passphrase.to_string()));
    pairs.push(("polymarket_private_key".to_string(), private_key.to_string()));
    pairs.push(("polymarket_signature_type".to_string(), u8_to_string(signature_type)));
    pairs
}

/// The deposit wallet to cache with freshly stored credentials: the stored
/// `polymarket_deposit_wallet_address`, only for signature type 3.
pub fn deposit_wallet_for(signature_type: u8, keys: Option<&Vec<ApiKeyRecord>>) -> (w: Option<String>)
    ensures
        opt_str(w) == if signature_type == 3 {
            match keys {
                Some(k) => pm_key(k@, "polymarket_deposit_wallet_address"@),
                None => None,
            }
        } else {
            None
        },
{
    if signature_type != 3 {
        return None;
    }
    match keys {
        Some(k) => find_key_value(k, "polymarket_deposit_wallet_address"),
        None => None,
    }
}

/// Name under which a provider's field is stored: `{provider}_{field}`.
pub fn provider_key_name(provider: &str, field: &str) -> (name: String)
    ensures
        name@ == provider@ + "_"@ + field@,
{
    let mut name = provider.to_string();
    name.append("_");
    name.append(field);
    name
}

/// The `LIKE` pattern that matches all keys of a provider: `{provider}_%`.
pub fn provider_key_pattern(provider: &str) -> (pattern: String)
    ensures
        pattern@ == provider@ + "_%"@,
{
    let mut pattern = provider.to_string();
    pattern.append("_%");
    pattern
}

/// Which caches a stored key refreshes: the Polymarket credential cache for
/// `polymarket_` keys, the Telegram cache for `telegram_` keys.
pub fn caches_to_refresh(key_name: &str) -> (refresh: (bool, bool))
    ensures
        refresh.0 == starts_with(key_name@, "polymarket_"@),
        refresh.1 == starts_with(key_name@, "telegram_"@),
{
    (str_starts_with(key_name, "polymarket_"), str_starts_with(key_name, "telegram_"))
}

/// The cache entry after an API key rotation: a user with a cache entry
/// gets the new key triple, private key, signature type and wallet, and keeps
/// the funder and deposit wallet; a user without one gets none.
pub fn rotated_cache_entry(
    existing: Option<CachedCredentials>,
    api_key: String,
    api_secret: String,
    api_passphrase: String,
    private_key: String,
    signature_type: u8,
    wallet_address: String,
) -> (c: Option<CachedCredentials>)
    ensures
        existing is None ==> c is None,
        existing matches Some(e) ==> c == Some(CachedCredentials {
            api_key,
            api_secret,
            api_passphrase,
            private_key,
            signature_type,
            wallet_address,
            funder: e.funder,
            deposit_wallet_address: e.deposit_wallet_address,
        }),
{
    match existing {
        Some(e) => Some(CachedCredentials {
            api_key,
            api_secret,
            api_passphrase,
            private_key,
            signature_type,
            wallet_address,
            funder: e.funder,
            deposit_wallet_address: e.deposit_wallet_address,
        }),
        None => None,
    }
}

} // verus!
