use polymarket_v2_backend::api::settings::{
    caches_to_refresh, check_private_key_format, check_store_credentials, credentials_from_keys,
    deposit_wallet_for, encryption_password, mirrored_credential_keys, provider_key_name, provider_key_pattern,
    rotated_cache_entry, settings_response, StoreCredentialsRequest,
};
use polymarket_v2_backend::db::{find_key_value, ApiKeyRecord};

fn key(name: &str, value: &str) -> ApiKeyRecord {
    ApiKeyRecord {
        key_name: name.to_string(),
        key_value: value.to_string(),
        is_valid: true,
        created_at: "2024-01-01".to_string(),
        last_validated: "2024-01-01".to_string(),
    }
}

fn full_keys(signature_type: &str) -> Vec<ApiKeyRecord> {
    vec![
        key("polymarket_api_key", "api-key-1"),
        key("polymarket_api_secret", "secret-1"),
        key("polymarket_passphrase", "phrase-1"),
        key("polymarket_private_key", "0xprivate"),
        key("polymarket_signature_type", signature_type),
        key("polymarket_deposit_wallet_address", "0xdeposit"),
        key("polymarket_funder", "0xfunder"),
    ]
}

fn store_request(key: &str, secret: &str, pass: &str, pk: &str) -> StoreCredentialsRequest {
    StoreCredentialsRequest {
        api_key: key.to_string(),
        api_secret: secret.to_string(),
        api_passphrase: pass.to_string(),
        private_key: pk.to_string(),
        signature_type: None,
        funder: None,
        password: "pw".to_string(),
    }
}

#[test]
fn first_matching_key_wins() {
    let keys = vec![key("a", "1"), key("b", "2"), key("a", "3")];
    assert_eq!(find_key_value(&keys, "a"), Some("1".to_string()));
    assert_eq!(find_key_value(&keys, "c"), None);
}

#[test]
fn cache_entry_from_complete_keys() {
    let c = credentials_from_keys(&full_keys("3"), "0xwallet".to_string()).unwrap();
    assert_eq!(c.api_key, "api-key-1");
    assert_eq!(c.api_secret, "secret-1");
    assert_eq!(c.api_passphrase, "phrase-1");
    assert_eq!(c.private_key, "0xprivate");
    assert_eq!(c.funder.as_deref(), Some("0xfunder"));
    assert_eq!(c.signature_type, 3);
    assert_eq!(c.wallet_address, "0xwallet");
    assert_eq!(c.deposit_wallet_address.as_deref(), Some("0xdeposit"));
}

#[test]
fn deposit_wallet_only_for_signature_type_three() {
    let c = credentials_from_keys(&full_keys("1"), String::new()).unwrap();
    assert_eq!(c.signature_type, 1);
    assert!(c.deposit_wallet_address.is_none());
    let c = credentials_from_keys(&full_keys("not a number"), String::new()).unwrap();
    assert_eq!(c.signature_type, 0);
}

#[test]
fn incomplete_keys_give_no_cache_entry() {
    let mut keys = full_keys("0");
    keys[1] = key("polymarket_api_secret", "short");
    assert!(credentials_from_keys(&keys, String::new()).is_none());
    assert!(credentials_from_keys(&vec![], String::new()).is_none());
}

#[test]
fn settings_view_hides_secrets() {
    let keys = full_keys("0");
    let r = settings_response(Some(&keys), None);
    assert!(r.has_credentials);
    assert_eq!(r.polymarket_api_key.as_deref(), Some("api-key-1"));
    assert_eq!(r.wallet_address.as_deref(), Some("***"));
    assert!(r.funder.is_none());

    let old = ("old-key".to_string(), "blob".to_string());
    let r = settings_response(Some(&vec![]), Some(&old));
    assert!(r.has_credentials);
    assert_eq!(r.polymarket_api_key.as_deref(), Some("old-key"));

    let empty_blob = ("old-key".to_string(), String::new());
    let r = settings_response(None, Some(&empty_blob));
    assert!(!r.has_credentials);
    assert!(r.wallet_address.is_none());

    let short = vec![key("polymarket_api_key", "abc")];
    let r = settings_response(Some(&short), None);
    assert!(!r.has_credentials);
    assert_eq!(r.polymarket_api_key.as_deref(), Some("abc"));
}

#[test]
fn store_request_checks() {
    assert_eq!(
        check_store_credentials(&store_request("", "s", "p", "k")).unwrap_err().error,
        "API key, secret, and passphrase are required"
    );
    assert_eq!(
        check_store_credentials(&store_request("k", "s", "p", "")).unwrap_err().error,
        "Private key is required"
    );
    assert!(check_store_credentials(&store_request("k", "s", "p", "pk")).is_ok());
}

#[test]
fn private_key_format() {
    let pk = "0123456789abcdef0123456789abcdef";
    assert_eq!(check_private_key_format(&format!("  {}  ", pk)).ok(), Some(pk));
    assert_eq!(check_private_key_format("   short   ").unwrap_err().error, "Invalid private key format");
}

#[test]
fn credential_mirroring() {
    assert_eq!(encryption_password("hunter2"), "hunter2_pm_creds");
    let pairs = mirrored_credential_keys("k", "s", "p", "pk", 2);
    let expected: Vec<(String, String)> = [
        ("polymarket_api_key", "k"),
        ("polymarket_api_secret", "s"),
        ("polymarket_passphrase", "p"),
        ("polymarket_private_key", "pk"),
        ("polymarket_signature_type", "2"),
    ]
    .iter()
    .map(|(a, b)| (a.to_string(), b.to_string()))
    .collect();
    assert_eq!(pairs, expected);
    let keys = full_keys("3");
    assert_eq!(deposit_wallet_for(3, Some(&keys)).as_deref(), Some("0xdeposit"));
    assert_eq!(deposit_wallet_for(0, Some(&keys)), None);
    assert_eq!(deposit_wallet_for(3, None), None);
}

#[test]
fn provider_keys_and_cache_refresh() {
    assert_eq!(provider_key_name("telegram", "bot_token"), "telegram_bot_token");
    assert_eq!(provider_key_pattern("polymarket"), "polymarket_%");
    assert_eq!(caches_to_refresh("polymarket_api_key"), (true, false));
    assert_eq!(caches_to_refresh("telegram_chat_id"), (false, true));
    assert_eq!(caches_to_refresh("binance_key"), (false, false));
}

#[test]
fn rotation_keeps_funder_and_deposit_wallet() {
    let existing = credentials_from_keys(&full_keys("3"), "0xold".to_string()).unwrap();
    let c = rotated_cache_entry(
        Some(existing),
        "new-key".to_string(),
        "new-secret".to_string(),
        "new-pass".to_string(),
        "0xpk".to_string(),
        1,
        "0xnew".to_string(),
    )
    .unwrap();
    assert_eq!(c.api_key, "new-key");
    assert_eq!(c.signature_type, 1);
    assert_eq!(c.wallet_address, "0xnew");
    assert_eq!(c.funder.as_deref(), Some("0xfunder"));
    assert_eq!(c.deposit_wallet_address.as_deref(), Some("0xdeposit"));
    let none = rotated_cache_entry(None, "k".into(), "s".into(), "p".into(), "pk".into(), 0, "w".into());
    assert!(none.is_none());
}
