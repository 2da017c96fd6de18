//! Orders: request checks, the Polymarket client's settings and the results
//! returned to the caller.

use crate::api::{opt_str, CachedCredentials};
use crate::text::{contains, i64_to_string, str_contains, str_eq, str_to_uppercase, unicode_upper, decimal};
use vstd::prelude::*;
use vstd::string::*;

verus! {

pub struct ErrorResponse {
    pub error: String,
}

/// The outcome of an order operation.
pub struct OrderResult {
    pub success: bool,
    pub order_id: Option<String>,
    pub message: String,
    pub error_code: Option<String>,
}

pub struct CancelOrderRequest {
    pub order_id: String,
}

/// What a Polymarket trading client is built from: the signing key, the
/// signature type, the API key triple and the funder address.
pub struct PolymarketClientConfig {
    pub private_key: String,
    pub signature_type: u8,
    pub api_key: String,
    pub api_secret: String,
    pub api_passphrase: String,
    pub funder: Option<String>,
}

/// Whether an order result is a failure with the given message and code.
pub open spec fn is_failure(r: OrderResult, message: Seq<char>, code: Seq<char>) -> bool {
    &&& !r.success
    &&& r.order_id is None
    &&& r.message@ == message
    &&& opt_str(r.error_code) == Some(code)
}

fn failure(message: String, code: &str) -> (r: OrderResult)
    ensures
        is_failure(r, message@, code@),
{
    OrderResult { success: false, order_id: None, message, error_code: Some(code.to_string()) }
}

/// The client settings for cached credentials; trading needs a private key.
pub fn create_polymarket_client(creds: &CachedCredentials) -> (res: Result<PolymarketClientConfig, String>)
    ensures
        res is Err <==> creds.private_key@.len() == 0,
        res matches Err(e) ==> e@ == "Private key required for trading operations"@,
        res matches Ok(c) ==> {
            &&& c.private_key == creds.private_key
            &&& c.signature_type == creds.signature_type
            &&& c.api_key == creds.api_key
            &&& c.api_secret == creds.api_secret
            &&& c.api_passphrase == creds.api_passphrase
            &&& c.funder == creds.funder
        },
{
    if creds.private_key.as_str().unicode_len() == 0 {
        return Err("Private key required for trading operations".to_string());
    }
    Ok(PolymarketClientConfig {
        private_key: creds.private_key.clone(),
        signature_type: creds.signature_type,
        api_key: creds.api_key.clone(),
        api_secret: creds.api_secret.clone(),
        api_passphrase: creds.api_passphrase.clone(),
        funder: match &creds.funder {
            Some(f) => Some(f.clone()),
            None => None,
        },
    })
}

/// The message for a trading client the trading library refused to build:
/// `Failed to create client: {e}`.
pub fn client_creation_error(e: &str) -> (m: String)
    ensures
        m@ == "Failed to create client: "@ + e@,
{
    let mut m = "Failed to create client: ".to_string();
    m.append(e);
    m
}

/// The error code for a client that could not be created.
pub fn client_error_code(message: &str) -> (code: &'static str)
    ensures
        code@ == if contains(message@, "Private key required"@) {
            "PRIVATE_KEY_REQUIRED"@
        } else {
            "CLIENT_ERROR"@
        },
{
    if str_contains(message, "Private key required") {
        "PRIVATE_KEY_REQUIRED"
    } else {
        "CLIENT_ERROR"
    }
}

/// The side of an order, upper-cased; only `BUY` and `SELL` are accepted.
pub fn check_order_side(side: &str) -> (res: Result<String, OrderResult>)
    ensures
        res is Ok <==> (unicode_upper(side@) == "BUY"@ || unicode_upper(side@) == "SELL"@),
        res matches Ok(s) ==> s@ == unicode_upper(side@),
        res matches Err(r) ==> is_failure(r, "Side must be BUY or SELL"@, "INVALID_SIDE"@),
{
    let upper = str_to_uppercase(side);
    if !str_eq(upper.as_str(), "BUY") && !str_eq(upper.as_str(), "SELL") {
        return Err(failure("Side must be BUY or SELL".to_string(), "INVALID_SIDE"));
    }
    Ok(upper)
}

/// The token of a quick trade for an upper-cased side: `UP` buys the first
/// (YES) token, `DOWN` the second (NO) one; no other side is traded.
pub fn quick_trade_token(side: &str) -> (res: Option<(usize, &'static str)>)
    ensures
        side@ == "UP"@ ==> (res matches Some(t) && t.0 == 0 && t.1@ == "YES"@),
        side@ == "DOWN"@ ==> (res matches Some(t) && t.0 == 1 && t.1@ == "NO"@),
        side@ != "UP"@ && side@ != "DOWN"@ ==> res is None,
{
    proof {
        reveal_strlit("UP");
        reveal_strlit("DOWN");
        assert("UP"@[0] != "DOWN"@[0]);
    }
    if str_eq(side, "UP") {
        Some((0, "YES"))
    } else if str_eq(side, "DOWN") {
        Some((1, "NO"))
    } else {
        None
    }
}

/// The result when the user's credentials could not be had.
pub fn credentials_error(message: String) -> (r: OrderResult)
    ensures
        is_failure(r, message@, "CREDENTIALS_ERROR"@),
{
    failure(message, "CREDENTIALS_ERROR")
}

/// The result when no trading client could be created.
pub fn client_error(message: String) -> (r: OrderResult)
    ensures
        is_failure(
            r,
            message@,
            if contains(message@, "Private key required"@) {
                "PRIVATE_KEY_REQUIRED"@
            } else {
                "CLIENT_ERROR"@
            },
        ),
{
    let code = client_error_code(message.as_str());
    failure(message, code)
}

/// The result of cancelling an order, given what the exchange answered.
pub fn cancel_outcome(order_id: String, outcome: Result<(), String>) -> (r: OrderResult)
    ensures
        outcome is Ok ==> r.success && opt_str(r.order_id) == Some(order_id@)
            && r.message@ == "Order cancelled successfully"@ && r.error_code is None,
        outcome matches Err(e) ==> is_failure(r, "Failed to cancel order: "@ + e@, "CANCEL_FAILED"@),
{
    match outcome {
        Ok(()) => OrderResult {
            success: true,
            order_id: Some(order_id),
            message: "Order cancelled successfully".to_string(),
            error_code: None,
        },
        Err(e) => {
            let mut message = "Failed to cancel order: ".to_string();
            message.append(e.as_str());
            failure(message, "CANCEL_FAILED")
        },
    }
}

/// The id of a submitted order: the exchange's id, else the prefix, `_` and
/// the submission time in milliseconds.
pub fn order_id_or_fallback(order_id: Option<String>, prefix: &str, millis: i64) -> (id: String)
    ensures
        id@ == match order_id {
            Some(o) => o@,
            None => prefix@ + "_"@ + decimal(millis as int),
        },
{
    match order_id {
        Some(o) => o,
        None => {
            let mut id = prefix.to_string();
            id.append("_");
            let t = i64_to_string(millis);
            id.append(t.as_str());
            id
        },
    }
}

} // verus!
