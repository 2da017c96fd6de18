//! User balance: where the credentials for a balance request come from.

use crate::api::{copy_cached, CachedCredentials};
use crate::api::settings::pm_key;
use crate::db::{find_key_value, ApiKeyRecord};
use crate::services::credential_service::{error_text, CredentialError};
use vstd::prelude::*;
use vstd::string::*;

verus! {

/// How a balance request goes on after the credential service failed:
/// whether the older plain-text keys are tried, and the error reported when
/// they give nothing.
pub struct BalanceFallback {
    pub try_legacy_keys: bool,
    pub error: String,
}

/// The fallback for each credential error: a missing password, missing
/// credentials and other failures try the older keys; a missing private key
/// does not.
pub fn balance_fallback(e: &CredentialError) -> (f: BalanceFallback)
    ensures
        f.try_legacy_keys == !(*e is PrivateKeyRequired),
        f.error@ == match *e {
            CredentialError::PasswordNotCached =>
                "Password not cached \u{2014} please re-login or re-save credentials in Settings."@,
            CredentialError::NotFound => "No Polymarket credentials configured. Add your API keys in Settings."@,
            CredentialError::PrivateKeyRequired =>
                "Private key required for wallet access. Re-save your credentials in Settings."@,
            _ => "Failed to load credentials: "@ + error_text(*e),
        },
{
    match e {
        CredentialError::PasswordNotCached => BalanceFallback {
            try_legacy_keys: true,
            error: "Password not cached \u{2014} please re-login or re-save credentials in Settings.".to_string(),
        },
        CredentialError::NotFound => BalanceFallback {
            try_legacy_keys: true,
            error: "No Polymarket credentials configured. Add your API keys in Settings.".to_string(),
        },
        CredentialError::PrivateKeyRequired => BalanceFallback {
            try_legacy_keys: false,
            error: "Private key required for wallet access. Re-save your credentials in Settings.".to_string(),
        },
        _ => {
            let mut error = "Failed to load credentials: ".to_string();
            let m = e.message();
            error.append(m.as_str());
            BalanceFallback { try_legacy_keys: true, error }
        },
    }
}

/// The cached entry, when it holds an API key.
pub fn usable_cached(entry: Option<&CachedCredentials>) -> (c: Option<CachedCredentials>)
    ensures
        match entry {
            Some(e) => if e.api_key@.len() > 0 { c == Some(*e) } else { c is None },
            None => c is None,
        },
{
    match entry {
        Some(e) => {
            if e.api_key.as_str().is_empty() {
                None
            } else {
                Some(copy_cached(e))
            }
        },
        None => None,
    }
}

/// Whether the older plain-text keys hold a complete, non-empty key triple.
pub open spec fn has_legacy_triple(keys: Seq<ApiKeyRecord>) -> bool {
    &&& pm_key(keys, "polymarket_api_key"@) matches Some(k) && k.len() > 0
    &&& pm_key(keys, "polymarket_api_secret"@) matches Some(s) && s.len() > 0
    &&& pm_key(keys, "polymarket_passphrase"@) matches Some(p) && p.len() > 0
}

/// The credentials from the older plain-text keys: the key triple is
/// required; the private key is kept with the address it controls
/// (`derived_wallet`, `None` when it is not a valid key), else both are
/// empty. The funder is unset and the signature type is zero.
pub fn legacy_credentials_from_keys(keys: &Vec<ApiKeyRecord>, derived_wallet: Option<String>) -> (c: Option<CachedCredentials>)
    ensures
        c is Some <==> has_legacy_triple(keys@),
        c matches Some(cr) ==> {
            &&& Some(cr.api_key@) == pm_key(keys@, "polymarket_api_key"@)
            &&& Some(cr.api_secret@) == pm_key(keys@, "polymarket_api_secret"@)
            &&& Some(cr.api_passphrase@) == pm_key(keys@, "polymarket_passphrase"@)
            &&& match (pm_key(keys@, "polymarket_private_key"@), derived_wallet) {
                (Some(pk), Some(w)) => cr.private_key@ == pk && cr.wallet_address@ == w@,
                _ => cr.private_key@.len() == 0 && cr.wallet_address@.len() == 0,
            }
            &&& cr.funder is None
            &&& cr.signature_type == 0
            &&& cr.deposit_wallet_address is None
        },
{
    let api_key = find_key_value(keys, "polymarket_api_key");
    let api_secret = find_key_value(keys, "polymarket_api_secret");
    let passphrase = find_key_value(keys, "polymarket_passphrase");
    let (key, secret, pass) = match (api_key, api_secret, passphrase) {
        (Some(k), Some(s), Some(p)) => (k, s, p),
        _ => return None,
    };
    if key.as_str().is_empty() || secret.as_str().is_empty() || pass.as_str().is_empty() {
        return None;
    }
    let private_key = find_key_value(keys, "polymarket_private_key");
    let (pk, wallet) = match (private_key, derived_wallet) {
        (Some(pk), Some(w)) => (pk, w),
        _ => (String::new(), String::new()),
    };
    Some(CachedCredentials {
        api_key: key,
        api_secret: secret,
        api_passphrase: pass,
        private_key: pk,
        funder: None,
        signature_type: 0,
        wallet_address: wallet,
        deposit_wallet_address: None,
    })
}

} // verus!
