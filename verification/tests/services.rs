use polymarket_v2_backend::crypto::encrypt;
use polymarket_v2_backend::db::ApiKeyRecord;
use polymarket_v2_backend::services::credential_service::{
    needs_wallet_derivation, seal_credentials, startup_credentials, CredentialError, CredentialService, StartupLoad,
    StoredCredentials,
};
use polymarket_v2_backend::services::telegram::{can_send, send_message_url, telegram_credentials};

fn key(name: &str, value: &str) -> ApiKeyRecord {
    ApiKeyRecord {
        key_name: name.to_string(),
        key_value: value.to_string(),
        is_valid: true,
        created_at: String::new(),
        last_validated: String::new(),
    }
}

fn stored(wallet: Option<&str>, private_key: &str) -> StoredCredentials {
    StoredCredentials {
        key: "k".to_string(),
        secret: "s".to_string(),
        passphrase: "p".to_string(),
        private_key: private_key.to_string(),
        funder: None,
        signature_type: Some(2),
        wallet_address: wallet.map(|w| w.to_string()),
    }
}

#[test]
fn stored_blob_decrypts_with_cached_password() {
    let mut service = CredentialService::new();
    let json = r#"{"key":"k","secret":"s"}"#;
    let blob = encrypt(json, "hunter2_pm_creds").unwrap();
    let settings = Some(("k".to_string(), blob.clone()));
    assert!(matches!(service.decrypt_stored(7, settings.clone()), Err(CredentialError::PasswordNotCached)));
    service.set_password(7, "hunter2".to_string());
    assert_eq!(service.decrypt_stored(7, settings.clone()).ok().unwrap(), json);
    service.set_password(7, "wrong".to_string());
    assert!(matches!(service.decrypt_stored(7, settings), Err(CredentialError::DecryptError(_))));
}

#[test]
fn missing_blob_is_not_found() {
    let mut service = CredentialService::new();
    service.set_password(1, "pw".to_string());
    assert!(matches!(service.decrypt_stored(1, None), Err(CredentialError::NotFound)));
    let empty = Some(("k".to_string(), String::new()));
    assert!(matches!(service.decrypt_stored(1, empty), Err(CredentialError::NotFound)));
}

#[test]
fn finished_credentials_are_cached() {
    let mut service = CredentialService::new();
    let c = service.finish_credentials(5, stored(Some("0xstored"), "pk"), Err("unused".to_string())).ok().unwrap();
    assert_eq!(c.wallet_address, "0xstored");
    assert_eq!(c.signature_type, 2);
    let cached = service.cached_credentials(5).unwrap();
    assert_eq!(cached.wallet_address, "0xstored");
    assert_eq!(cached.api_key, "k");
    service.invalidate_cache(5);
    assert!(service.cached_credentials(5).is_none());
}

#[test]
fn wallet_is_derived_when_not_stored() {
    let mut service = CredentialService::new();
    assert!(needs_wallet_derivation(&stored(None, "pk")));
    assert!(needs_wallet_derivation(&stored(Some(""), "pk")));
    assert!(!needs_wallet_derivation(&stored(Some("0xw"), "pk")));
    let c = service.finish_credentials(1, stored(None, "pk"), Ok("0xderived".to_string())).ok().unwrap();
    assert_eq!(c.wallet_address, "0xderived");
    let e = service.finish_credentials(2, stored(None, "pk"), Err("bad key".to_string())).err().unwrap();
    assert_eq!(e.message(), "Invalid private key: bad key");
    let e = service.finish_credentials(3, stored(None, ""), Err("x".to_string())).err().unwrap();
    assert!(matches!(e, CredentialError::PrivateKeyRequired));
    assert!(service.cached_credentials(2).is_none());
    assert!(service.cached_credentials(3).is_none());
}

#[test]
fn clearing_password_drops_cache() {
    let mut service = CredentialService::new();
    service.set_password(4, "pw".to_string());
    service.finish_credentials(4, stored(Some("0xw"), "pk"), Err(String::new())).ok().unwrap();
    service.clear_password(4);
    assert!(service.cached_credentials(4).is_none());
    let blob = encrypt("{}", "pw_pm_creds").unwrap();
    assert!(matches!(service.decrypt_stored(4, Some(("k".to_string(), blob))), Err(CredentialError::PasswordNotCached)));
}

#[test]
fn credential_error_messages() {
    assert_eq!(CredentialError::NotFound.message(), "No credentials found for user");
    assert_eq!(
        CredentialError::PasswordNotCached.message(),
        "Password not cached \u{2014} user needs to re-login or re-save settings"
    );
    assert_eq!(CredentialError::DecryptError("x".to_string()).message(), "Failed to decrypt credentials: x");
    assert_eq!(CredentialError::ParseError("y".to_string()).message(), "Failed to parse credentials: y");
    assert_eq!(CredentialError::DatabaseError("z".to_string()).message(), "Database error: z");
    assert_eq!(CredentialError::PrivateKeyRequired.message(), "Private key required for this operation");
}

#[test]
fn startup_loading() {
    assert!(matches!(startup_credentials(&vec![], Some("0xw".to_string())), StartupLoad::NoPrivateKey));
    let mut keys = vec![
        key("polymarket_private_key", "0xpk"),
        key("polymarket_api_key", "abcde"),
        key("polymarket_api_secret", "fghij"),
        key("polymarket_passphrase", "klmno"),
        key("polymarket_signature_type", "3"),
        key("polymarket_deposit_wallet_address", "0xdep"),
    ];
    assert!(matches!(startup_credentials(&keys, None), StartupLoad::Incomplete));
    match startup_credentials(&keys, Some("0xw".to_string())) {
        StartupLoad::Loaded(c) => {
            assert_eq!(c.wallet_address, "0xw");
            assert_eq!(c.api_key, "abcde");
            assert_eq!(c.signature_type, 3);
            assert_eq!(c.deposit_wallet_address.as_deref(), Some("0xdep"));
            assert!(c.funder.is_none());
        }
        _ => panic!("expected loaded credentials"),
    }
    keys[2] = key("polymarket_api_secret", "abcd");
    assert!(matches!(startup_credentials(&keys, Some("0xw".to_string())), StartupLoad::Incomplete));
}

#[test]
fn telegram_settings() {
    let keys = vec![key("telegram_bot_token", "123:abc"), key("telegram_chat_id", "42")];
    assert_eq!(telegram_credentials(&keys), ("123:abc".to_string(), "42".to_string()));
    assert_eq!(telegram_credentials(&vec![]), (String::new(), String::new()));
    assert!(can_send("t", "c"));
    assert!(!can_send("", "c"));
    assert!(!can_send("t", ""));
    assert_eq!(send_message_url("123:abc"), "https://api.telegram.org/bot123:abc/sendMessage");
}

#[test]
fn saved_settings_read_back_unchanged() {
    let mut service = CredentialService::new();
    let json = r#"{"key":"k","secret":"s","passphrase":"p","private_key":"pk"}"#;
    let blob = seal_credentials("hunter2", json).unwrap();
    service.finish_credentials(9, stored(Some("0xold"), "pk"), Err(String::new())).ok().unwrap();
    service.record_saved_settings(9, "hunter2".to_string());
    assert!(service.cached_credentials(9).is_none());
    let settings = Some(("k".to_string(), blob));
    assert_eq!(service.decrypt_stored(9, settings).ok().unwrap(), json);
    let first = service.finish_credentials(9, stored(Some("0xw"), "pk"), Err(String::new())).ok().unwrap();
    let again = service.cached_credentials(9).unwrap();
    assert_eq!(again.wallet_address, first.wallet_address);
    assert_eq!(again.api_key, first.api_key);
}
