//! Bot management: trading modes and the defaults of a new bot.

use crate::text::str_eq;
use vstd::prelude::*;
use vstd::string::*;

verus! {

#[derive(Debug)]
pub struct ErrorResponse {
    pub error: String,
}

pub struct BotStatusResponse {
    pub success: bool,
    pub status: String,
}

pub struct SetModeRequest {
    pub trading_mode: String,
}

/// The session mode of a bot: `live` stays live, anything else is `demo`.
pub fn normalize_mode(mode: &str) -> (m: &'static str)
    ensures
        m@ == if mode@ == "live"@ { "live"@ } else { "demo"@ },
{
    if str_eq(mode, "live") {
        "live"
    } else {
        "demo"
    }
}

/// The trading mode stored for all of a user's bots: `live` stays live,
/// anything else is `paper`.
pub fn trading_mode_for(requested: &str) -> (m: &'static str)
    ensures
        m@ == if requested@ == "live"@ { "live"@ } else { "paper"@ },
{
    if str_eq(requested, "live") {
        "live"
    } else {
        "paper"
    }
}

/// The strategy and parameters of a new bot: `strategy_type`, else
/// `strategy`, else `momentum`; parameters default to `{}`.
pub fn bot_strategy_and_params(
    strategy_type: Option<String>,
    strategy: Option<String>,
    params: Option<String>,
) -> (sp: (String, String))
    ensures
        sp.0@ == match (strategy_type, strategy) {
            (Some(t), _) => t@,
            (None, Some(s)) => s@,
            (None, None) => "momentum"@,
        },
        sp.1@ == match params {
            Some(p) => p@,
            None => "{}"@,
        },
{
    let s = match strategy_type {
        Some(t) => t,
        None => match strategy {
            Some(s) => s,
            None => "momentum".to_string(),
        },
    };
    let p = match params {
        Some(p) => p,
        None => "{}".to_string(),
    };
    (s, p)
}

/// The status response of a started (`running`) or stopped (`stopped`) bot.
pub fn status_response(running: bool) -> (r: BotStatusResponse)
    ensures
        r.success,
        r.status@ == if running { "running"@ } else { "stopped"@ },
{
    BotStatusResponse { success: true, status: if running { "running".to_string() } else { "stopped".to_string() } }
}

} // verus!
