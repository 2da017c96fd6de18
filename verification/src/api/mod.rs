//! The HTTP API: request and response types and the logic of each endpoint.

pub mod auth;
pub mod bots;
pub mod funding;
pub mod live_readiness;
pub mod market;
pub mod market_condition;
pub mod monitoring;
pub mod orders;
pub mod positions;
pub mod settings;
pub mod sse;
pub mod strategy_tests;
pub mod user;

use crate::services::credential_service::PolymarketCredentials;
use vstd::prelude::*;

verus! {

/// Cached trading credentials (decrypted, kept in memory only).
#[derive(Clone)]
pub struct CachedCredentials {
    pub api_key: String,
    pub api_secret: String,
    pub api_passphrase: String,
    pub private_key: String,
    pub funder: Option<String>,
    pub signature_type: u8,
    pub wallet_address: String,
    pub deposit_wallet_address: Option<String>,
}

/// The view of an optional string.
pub open spec fn opt_str(s: Option<String>) -> Option<Seq<char>> {
    match s {
        Some(v) => Some(v@),
        None => None,
    }
}

/// A copy of a cache entry, field for field.
pub fn copy_cached(c: &CachedCredentials) -> (d: CachedCredentials)
    ensures
        d == *c,
{
    CachedCredentials {
        api_key: c.api_key.clone(),
        api_secret: c.api_secret.clone(),
        api_passphrase: c.api_passphrase.clone(),
        private_key: c.private_key.clone(),
        funder: match &c.funder {
            Some(f) => Some(f.clone()),
            None => None,
        },
        signature_type: c.signature_type,
        wallet_address: c.wallet_address.clone(),
        deposit_wallet_address: match &c.deposit_wallet_address {
            Some(a) => Some(a.clone()),
            None => None,
        },
    }
}

/// The cache entry for decrypted credentials, with the deposit wallet
/// address known for the user (if any).
pub fn cache_entry(creds: PolymarketCredentials, deposit_wallet_address: Option<String>) -> (c: CachedCredentials)
    ensures
        c.api_key == creds.api_key,
        c.api_secret == creds.api_secret,
        c.api_passphrase == creds.api_passphrase,
        c.private_key == creds.private_key,
        c.funder == creds.funder,
        c.signature_type == creds.signature_type,
        c.wallet_address == creds.wallet_address,
        c.deposit_wallet_address == deposit_wallet_address,
{
    CachedCredentials {
        api_key: creds.api_key,
        api_secret: creds.api_secret,
        api_passphrase: creds.api_passphrase,
        private_key: creds.private_key,
        funder: creds.funder,
        signature_type: creds.signature_type,
        wallet_address: creds.wallet_address,
        deposit_wallet_address,
    }
}

} // verus!
