use polymarket_v2_backend::api::auth::{
    check_login, check_username_free, hash_password, token_expiry, validate_registration, RegisterRequest,
};
use polymarket_v2_backend::api::bots::{bot_strategy_and_params, normalize_mode, status_response, trading_mode_for};
use polymarket_v2_backend::api::live_readiness::{all_checks_pass, credential_check, live_readiness, ReadinessCheck};
use polymarket_v2_backend::api::market_condition::{strategy_match_reason, strategy_name, MarketRegime};
use polymarket_v2_backend::api::monitoring::{
    bot_detailed_status, has_polymarket_credentials, logs_limit, logs_query, running_bot_count, GetLogsRequest,
};
use polymarket_v2_backend::api::orders::{
    cancel_outcome, check_order_side, client_creation_error, client_error, client_error_code, create_polymarket_client,
    credentials_error, order_id_or_fallback, quick_trade_token,
};
use polymarket_v2_backend::api::strategy_tests::list_strategies;
use polymarket_v2_backend::api::user::{balance_fallback, legacy_credentials_from_keys, usable_cached};
use polymarket_v2_backend::api::{cache_entry, copy_cached, CachedCredentials};
use polymarket_v2_backend::db::{seed_plan, ApiKeyRecord};
use polymarket_v2_backend::services::credential_service::{CredentialError, PolymarketCredentials};

fn cached(private_key: &str, api_key: &str) -> CachedCredentials {
    CachedCredentials {
        api_key: api_key.to_string(),
        api_secret: "sec".to_string(),
        api_passphrase: "pass".to_string(),
        private_key: private_key.to_string(),
        funder: None,
        signature_type: 2,
        wallet_address: "0xw".to_string(),
        deposit_wallet_address: Some("0xd".to_string()),
    }
}

fn key(name: &str, value: &str) -> ApiKeyRecord {
    ApiKeyRecord {
        key_name: name.to_string(),
        key_value: value.to_string(),
        is_valid: true,
        created_at: String::new(),
        last_validated: String::new(),
    }
}

#[test]
fn registration_checks() {
    let req = |u: &str, p: &str| RegisterRequest { username: u.to_string(), password: p.to_string() };
    assert_eq!(validate_registration(&req("ab", "secret1")).unwrap_err().error, "Username must be at least 3 characters");
    assert_eq!(validate_registration(&req("abc", "12345")).unwrap_err().error, "Password must be at least 6 characters");
    assert!(validate_registration(&req("abc", "123456")).is_ok());
    assert!(check_username_free(Ok(false)).is_ok());
    assert_eq!(check_username_free(Ok(true)).unwrap_err().error, "Username already exists");
    assert_eq!(check_username_free(Err("locked".to_string())).unwrap_err().error, "Internal server error");
}

#[test]
fn registered_password_logs_in() {
    let hash = hash_password("correct horse").ok().unwrap();
    assert!(hash.starts_with("$2b$12$"));
    let user = Some((42, "alice".to_string(), hash.clone()));
    assert_eq!(check_login(user, "correct horse").ok(), Some((42, "alice".to_string())));
    let user = Some((42, "alice".to_string(), hash));
    assert_eq!(check_login(user, "wrong").unwrap_err().error, "Invalid username or password");
    assert_eq!(check_login(None, "x").unwrap_err().error, "Invalid username or password");
    let broken = Some((1, "bob".to_string(), "not a bcrypt hash".to_string()));
    assert_eq!(check_login(broken, "x").unwrap_err().error, "Internal server error");
}

#[test]
fn bot_modes_and_defaults() {
    assert_eq!(normalize_mode("live"), "live");
    assert_eq!(normalize_mode("paper"), "demo");
    assert_eq!(trading_mode_for("live"), "live");
    assert_eq!(trading_mode_for("demo"), "paper");
    let (s, p) = bot_strategy_and_params(None, None, None);
    assert_eq!((s.as_str(), p.as_str()), ("momentum", "{}"));
    let (s, p) = bot_strategy_and_params(Some("trend".to_string()), Some("sniper".to_string()), Some("{\"a\":1}".to_string()));
    assert_eq!((s.as_str(), p.as_str()), ("trend", "{\"a\":1}"));
    let (s, _) = bot_strategy_and_params(None, Some("sniper".to_string()), None);
    assert_eq!(s, "sniper");
    assert_eq!(status_response(true).status, "running");
    assert_eq!(status_response(false).status, "stopped");
}

#[test]
fn readiness_report() {
    let r = live_readiness();
    assert!(!r.ready);
    assert_eq!(r.mode, "live");
    let names: Vec<&str> = r.checks.iter().map(|c| c.name.as_str()).collect();
    assert_eq!(names, vec!["Live Trading Mode", "API Credentials", "Wallet Balance"]);
    let statuses: Vec<&str> = r.checks.iter().map(|c| c.status.as_str()).collect();
    assert_eq!(statuses, vec!["pass", "warn", "warn"]);
    let pass = |n: &str| ReadinessCheck { name: n.to_string(), status: "pass".to_string(), message: String::new() };
    assert!(all_checks_pass(&vec![pass("a"), pass("b")]));
    assert!(all_checks_pass(&vec![]));
}

#[test]
fn strategy_names_and_reasons() {
    assert_eq!(strategy_name("momentum_v2"), "Momentum V2");
    assert_eq!(strategy_name("low_volatility_edge"), "Low Vol Edge");
    assert_eq!(strategy_name("price_reversion_v2"), "Price Reversion V2");
    assert_eq!(strategy_name("my_custom"), "my_custom");
    assert_eq!(strategy_match_reason("momentum", &MarketRegime::Trending), "eros trend -> momentum kovetes");
    assert_eq!(strategy_match_reason("contrarian", &MarketRegime::Ranging), "oldalazas -> visszafordulasok");
    assert_eq!(strategy_match_reason("sniper_value", &MarketRegime::Volatile), "gyors belepes nagy mozgasnal");
    assert_eq!(strategy_match_reason("momentum", &MarketRegime::Ranging), "altalanos illeszkeredes");
    assert_eq!(strategy_match_reason("trend", &MarketRegime::Unknown), "altalanos illeszkeredes");
}

#[test]
fn activity_log_query() {
    let all = GetLogsRequest { bot_id: None, level: None, limit: None };
    assert_eq!(
        logs_query(&all),
        "SELECT id, user_id, bot_id, level, message, metadata, created_at FROM activity_log WHERE user_id = ? ORDER BY created_at DESC LIMIT ?"
    );
    assert_eq!(logs_limit(&all), 50);
    let filtered = GetLogsRequest { bot_id: Some(3), level: Some("ERROR".to_string()), limit: Some(10) };
    assert_eq!(
        logs_query(&filtered),
        "SELECT id, user_id, bot_id, level, message, metadata, created_at FROM activity_log WHERE user_id = ? AND bot_id = ? AND level = ? ORDER BY created_at DESC LIMIT ?"
    );
    assert_eq!(logs_limit(&filtered), 10);
    let by_level = GetLogsRequest { bot_id: None, level: Some("INFO".to_string()), limit: None };
    assert!(logs_query(&by_level).ends_with("WHERE user_id = ? AND level = ? ORDER BY created_at DESC LIMIT ?"));
}

#[test]
fn system_status_counts() {
    let statuses: Vec<String> = ["running", "stopped", "running", "Running"].iter().map(|s| s.to_string()).collect();
    assert_eq!(running_bot_count(&statuses), 2);
    assert_eq!(running_bot_count(&vec![]), 0);
    assert!(has_polymarket_credentials(Some("blob"), &vec![]));
    assert!(!has_polymarket_credentials(Some(""), &vec![false, false]));
    assert!(has_polymarket_credentials(None, &vec![false, true]));
    assert!(!has_polymarket_credentials(None, &vec![]));
    let s = bot_detailed_status(1, "n".into(), "running".into(), "trend".into(), "m".into(), "t".into());
    assert_eq!(s.strategy, "trend");
    assert!(s.last_error.is_none() && s.last_activity.is_none());
}

#[test]
fn trading_client_requires_private_key() {
    assert_eq!(
        create_polymarket_client(&cached("", "k")).err(),
        Some("Private key required for trading operations".to_string())
    );
    let c = create_polymarket_client(&cached("0xpk", "k")).ok().unwrap();
    assert_eq!(c.private_key, "0xpk");
    assert_eq!(c.signature_type, 2);
    assert_eq!((c.api_key.as_str(), c.api_secret.as_str(), c.api_passphrase.as_str()), ("k", "sec", "pass"));
    assert!(c.funder.is_none());
}

#[test]
fn order_errors() {
    assert_eq!(client_error_code("Private key required for trading operations"), "PRIVATE_KEY_REQUIRED");
    assert_eq!(client_error_code("Failed to create client: bad"), "CLIENT_ERROR");
    let r = client_error("Private key required for trading operations".to_string());
    assert!(!r.success);
    assert_eq!(r.error_code.as_deref(), Some("PRIVATE_KEY_REQUIRED"));
    let r = credentials_error("Failed to get credentials: x".to_string());
    assert_eq!(r.error_code.as_deref(), Some("CREDENTIALS_ERROR"));
    assert_eq!(r.message, "Failed to get credentials: x");
    assert!(r.order_id.is_none());
}

#[test]
fn order_side_validation() {
    assert_eq!(check_order_side("buy").ok(), Some("BUY".to_string()));
    assert_eq!(check_order_side("Sell").ok(), Some("SELL".to_string()));
    let r = check_order_side("hold").err().unwrap();
    assert_eq!(r.message, "Side must be BUY or SELL");
    assert_eq!(r.error_code.as_deref(), Some("INVALID_SIDE"));
    assert_eq!(quick_trade_token("UP"), Some((0, "YES")));
    assert_eq!(quick_trade_token("DOWN"), Some((1, "NO")));
    assert_eq!(quick_trade_token("up"), None);
}

#[test]
fn cancel_and_order_ids() {
    let r = cancel_outcome("o1".to_string(), Ok(()));
    assert!(r.success);
    assert_eq!(r.order_id.as_deref(), Some("o1"));
    assert_eq!(r.message, "Order cancelled successfully");
    assert!(r.error_code.is_none());
    let r = cancel_outcome("o1".to_string(), Err("gone".to_string()));
    assert!(!r.success);
    assert_eq!(r.message, "Failed to cancel order: gone");
    assert_eq!(r.error_code.as_deref(), Some("CANCEL_FAILED"));
    assert_eq!(order_id_or_fallback(Some("x".to_string()), "pending", 5), "x");
    assert_eq!(order_id_or_fallback(None, "quick", 1700000000123), "quick_1700000000123");
    assert_eq!(order_id_or_fallback(None, "pending", -1), "pending_-1");
}

#[test]
fn strategy_catalogue() {
    let r = list_strategies();
    assert_eq!(r.strategies.len(), 10);
    assert_eq!(r.strategies[0].id, "window_delta");
    assert_eq!(r.strategies[0].name, "Window Delta");
    assert_eq!(r.strategies[9].id, "oracle_lag");
    assert_eq!(r.strategies[9].description, "CLOB vs spot delta");
    for s in &r.strategies {
        assert_eq!(s.params, vec!["min_delta", "min_price", "max_price"]);
    }
}

#[test]
fn balance_fallbacks() {
    let f = balance_fallback(&CredentialError::PasswordNotCached);
    assert!(f.try_legacy_keys);
    assert_eq!(f.error, "Password not cached \u{2014} please re-login or re-save credentials in Settings.");
    let f = balance_fallback(&CredentialError::NotFound);
    assert!(f.try_legacy_keys);
    assert_eq!(f.error, "No Polymarket credentials configured. Add your API keys in Settings.");
    let f = balance_fallback(&CredentialError::PrivateKeyRequired);
    assert!(!f.try_legacy_keys);
    let f = balance_fallback(&CredentialError::DatabaseError("locked".to_string()));
    assert!(f.try_legacy_keys);
    assert_eq!(f.error, "Failed to load credentials: Database error: locked");
}

#[test]
fn legacy_keys() {
    assert!(usable_cached(None).is_none());
    assert!(usable_cached(Some(&cached("pk", ""))).is_none());
    assert_eq!(usable_cached(Some(&cached("pk", "k"))).unwrap().api_key, "k");

    let keys = vec![
        key("polymarket_api_key", "k"),
        key("polymarket_api_secret", "s"),
        key("polymarket_passphrase", "p"),
        key("polymarket_private_key", "0xpk"),
    ];
    let c = legacy_credentials_from_keys(&keys, Some("0xw".to_string())).unwrap();
    assert_eq!((c.private_key.as_str(), c.wallet_address.as_str()), ("0xpk", "0xw"));
    assert_eq!(c.signature_type, 0);
    assert!(c.funder.is_none() && c.deposit_wallet_address.is_none());
    let c = legacy_credentials_from_keys(&keys, None).unwrap();
    assert!(c.private_key.is_empty() && c.wallet_address.is_empty());
    let c = legacy_credentials_from_keys(&keys[..3].to_vec(), Some("0xw".to_string())).unwrap();
    assert!(c.private_key.is_empty() && c.wallet_address.is_empty());
    let mut empty_secret = keys.clone();
    empty_secret[1] = key("polymarket_api_secret", "");
    assert!(legacy_credentials_from_keys(&empty_secret, None).is_none());
    assert!(legacy_credentials_from_keys(&keys[..2].to_vec(), None).is_none());
}

#[test]
fn cache_entries() {
    let creds = PolymarketCredentials {
        api_key: "k".to_string(),
        api_secret: "s".to_string(),
        api_passphrase: "p".to_string(),
        private_key: "pk".to_string(),
        funder: Some("f".to_string()),
        signature_type: 1,
        wallet_address: "0xw".to_string(),
    };
    let c = cache_entry(creds, None);
    assert_eq!(c.funder.as_deref(), Some("f"));
    assert_eq!(c.wallet_address, "0xw");
    assert!(c.deposit_wallet_address.is_none());
    let d = copy_cached(&c);
    assert_eq!(d.api_key, c.api_key);
    assert_eq!(d.signature_type, 1);
}

#[test]
fn seeding_default_bots() {
    let plan = seed_plan(0);
    assert_eq!(plan.len(), 15);
    assert!(plan.iter().all(|b| b.trading_mode == "paper" && b.market_id == "auto" && b.params == "{}"));
    assert_eq!((plan[0].name, plan[0].strategy_type), ("Momentum", "momentum"));
    assert_eq!((plan[14].name, plan[14].strategy_type), ("Sniper Value", "sniper_value"));
    // After seeding the user has fifteen bots, so seeding again adds none.
    assert!(seed_plan(plan.len() as i64).is_empty());
}

#[test]
fn bot_credential_check() {
    let c = credential_check(Ok(true), Some("0xw".to_string()));
    assert!(c.valid);
    assert_eq!(c.wallet_address.as_deref(), Some("0xw"));
    assert!(c.error.is_none());
    let c = credential_check(Ok(true), None);
    assert!(!c.valid);
    assert_eq!(c.error.as_deref(), Some("No credentials cached for this bot. Store credentials first."));
    let c = credential_check(Ok(false), Some("0xw".to_string()));
    assert!(!c.valid && c.wallet_address.is_none());
    assert_eq!(c.error.as_deref(), Some("Bot not found"));
    let c = credential_check(Err("disk I/O".to_string()), None);
    assert_eq!(c.error.as_deref(), Some("Database error: disk I/O"));
}

#[test]
fn session_tokens_last_a_day() {
    assert_eq!(token_expiry(1_700_000_000), Some(1_700_086_400));
    assert_eq!(token_expiry(i64::MAX - 86400), Some(i64::MAX));
    assert_eq!(token_expiry(i64::MAX - 86399), None);
}

#[test]
fn client_creation_errors() {
    assert_eq!(client_creation_error("bad key"), "Failed to create client: bad key");
    let r = client_error(client_creation_error("bad key"));
    assert_eq!(r.error_code.as_deref(), Some("CLIENT_ERROR"));
}
