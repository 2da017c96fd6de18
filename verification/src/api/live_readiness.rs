//! Live readiness: whether live trading is configured.

use crate::api::opt_str;
use vstd::prelude::*;
use vstd::string::*;

verus! {

pub struct LiveReadinessResponse {
    pub ready: bool,
    pub checks: Vec<ReadinessCheck>,
    pub mode: String,
}

pub struct ReadinessCheck {
    pub name: String,
    pub status: String,
    pub message: String,
}

pub struct ValidateCredsRequest {
    pub bot_id: i64,
}

/// Whether every check passed.
pub open spec fn all_pass(checks: Seq<ReadinessCheck>) -> bool {
    forall|i: int| 0 <= i < checks.len() ==> #[trigger] checks[i].status@ == "pass"@
}

fn check(name: &str, status: &str, message: &str) -> (c: ReadinessCheck)
    ensures
        c.name@ == name@,
        c.status@ == status@,
        c.message@ == message@,
{
    ReadinessCheck { name: name.to_string(), status: status.to_string(), message: message.to_string() }
}

/// Whether all checks passed.
pub fn all_checks_pass(checks: &Vec<ReadinessCheck>) -> (res: bool)
    ensures
        res == all_pass(checks@),
{
    let mut i: usize = 0;
    while i < checks.len()
        invariant
            0 <= i <= checks@.len(),
            forall|j: int| 0 <= j < i ==> #[trigger] checks@[j].status@ == "pass"@,
        decreases checks@.len() - i,
    {
        if !crate::text::str_eq(checks[i].status.as_str(), "pass") {
            return false;
        }
        i = i + 1;
    }
    true
}

/// The readiness report: live mode passes, credentials and balance are left
/// to `/validate-credentials` (warnings), so live trading is not ready.
pub fn live_readiness() -> (r: LiveReadinessResponse)
    ensures
        r.checks@.len() == 3,
        r.checks@[0].name@ == "Live Trading Mode"@ && r.checks@[0].status@ == "pass"@,
        r.checks@[0].message@ == "Live mode is configured"@,
        r.checks@[1].name@ == "API Credentials"@ && r.checks@[1].status@ == "warn"@,
        r.checks@[1].message@ == "Check credentials via /validate-credentials"@,
        r.checks@[2].name@ == "Wallet Balance"@ && r.checks@[2].status@ == "warn"@,
        r.checks@[2].message@ == "Check balance via /validate-credentials"@,
        r.ready == all_pass(r.checks@),
        !r.ready,
        r.mode@ == "live"@,
{
    let mut checks: Vec<ReadinessCheck> = Vec::new();
    checks.push(check("Live Trading Mode", "pass", "Live mode is configured"));
    checks.push(check("API Credentials", "warn", "Check credentials via /validate-credentials"));
    checks.push(check("Wallet Balance", "warn", "Check balance via /validate-credentials"));
    let ready = all_checks_pass(&checks);
    proof {
        reveal_strlit("warn");
        reveal_strlit("pass");
        assert("warn"@[0] != "pass"@[0]);
        assert(checks@[1].status@ != "pass"@);
    }
    LiveReadinessResponse { ready, checks, mode: "live".to_string() }
}

/// The outcome of checking a bot's credentials: whether credentials are
/// cached for it, its wallet, and the error otherwise.
pub struct CredentialCheck {
    pub valid: bool,
    pub wallet_address: Option<String>,
    pub error: Option<String>,
}

/// Checks a bot's credentials from the bot lookup (found, not found, or the
/// database error) and the wallet of the credentials cached under the bot's
/// id, if any.
pub fn credential_check(bot_lookup: Result<bool, String>, cached_wallet: Option<String>) -> (c: CredentialCheck)
    ensures
        c.valid == (bot_lookup == Ok::<bool, String>(true) && cached_wallet is Some),
        c.valid ==> c.wallet_address == cached_wallet && c.error is None,
        !c.valid ==> c.wallet_address is None,
        bot_lookup == Ok::<bool, String>(true) && cached_wallet is None
            ==> opt_str(c.error) == Some("No credentials cached for this bot. Store credentials first."@),
        bot_lookup == Ok::<bool, String>(false) ==> opt_str(c.error) == Some("Bot not found"@),
        bot_lookup matches Err(e) ==> opt_str(c.error) == Some("Database error: "@ + e@),
{
    match bot_lookup {
        Ok(true) => match cached_wallet {
            Some(w) => CredentialCheck { valid: true, wallet_address: Some(w), error: None },
            None => CredentialCheck {
                valid: false,
                wallet_address: None,
                error: Some("No credentials cached for this bot. Store credentials first.".to_string()),
            },
        },
        Ok(false) => CredentialCheck { valid: false, wallet_address: None, error: Some("Bot not found".to_string()) },
        Err(e) => {
            let mut m = "Database error: ".to_string();
            m.append(e.as_str());
            CredentialCheck { valid: false, wallet_address: None, error: Some(m) }
        },
    }
}

} // verus!
