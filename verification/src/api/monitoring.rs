//! System monitoring: the activity-log query, bot counts and bot status.

use crate::text::{contains, occurs_at, starts_with, str_eq};
use vstd::prelude::*;
use vstd::string::*;

verus! {

pub struct ErrorResponse {
    pub error: String,
}

/// Filters of an activity-log request.
pub struct GetLogsRequest {
    pub bot_id: Option<i64>,
    pub level: Option<String>,
    pub limit: Option<i64>,
}

pub struct BotDetailedStatus {
    pub id: i64,
    pub name: String,
    pub status: String,
    pub strategy: String,
    pub market_id: String,
    pub created_at: String,
    pub last_error: Option<String>,
    pub last_activity: Option<String>,
}

pub struct RiskWarningResponse {
    pub bot_id: i64,
    pub warning_type: String,
    pub message: String,
    pub severity: String,
    pub timestamp: i64,
}

/// The number of log entries returned when the request names none.
pub const DEFAULT_LOG_LIMIT: i64 = 50;

/// The activity-log query: always filtered by user, then by bot and by level
/// where the request names them, newest first and limited.
pub open spec fn logs_query_text(by_bot: bool, by_level: bool) -> Seq<char> {
    "SELECT id, user_id, bot_id, level, message, metadata, created_at FROM activity_log WHERE user_id = ?"@
        + (if by_bot { " AND bot_id = ?"@ } else { Seq::empty() })
        + (if by_level { " AND level = ?"@ } else { Seq::empty() })
        + " ORDER BY created_at DESC LIMIT ?"@
}

/// The activity-log query filters by the user first, by the bot whenever
/// one is asked for and by the level whenever one is asked for (bot filter
/// before level filter, so the parameters bind as user, bot, level, limit),
/// and ends with the newest-first limit; it holds nothing else.
pub proof fn lemma_logs_query_filters(by_bot: bool, by_level: bool)
    ensures
        starts_with(
            logs_query_text(by_bot, by_level),
            "SELECT id, user_id, bot_id, level, message, metadata, created_at FROM activity_log WHERE user_id = ?"@,
        ),
        by_bot ==> contains(logs_query_text(by_bot, by_level), " AND bot_id = ?"@),
        by_level ==> contains(logs_query_text(by_bot, by_level), " AND level = ?"@),
        by_bot && by_level ==> exists|i: int, j: int|
            i < j && occurs_at(logs_query_text(by_bot, by_level), " AND bot_id = ?"@, i)
                && occurs_at(logs_query_text(by_bot, by_level), " AND level = ?"@, j),
        logs_query_text(by_bot, by_level).len() == "SELECT id, user_id, bot_id, level, message, metadata, created_at FROM activity_log WHERE user_id = ?"@.len()
            + (if by_bot { " AND bot_id = ?"@.len() } else { 0 })
            + (if by_level { " AND level = ?"@.len() } else { 0 })
            + " ORDER BY created_at DESC LIMIT ?"@.len(),
        logs_query_text(by_bot, by_level).subrange(
            logs_query_text(by_bot, by_level).len() - " ORDER BY created_at DESC LIMIT ?"@.len(),
            logs_query_text(by_bot, by_level).len() as int,
        ) == " ORDER BY created_at DESC LIMIT ?"@,
{
    let p = "SELECT id, user_id, bot_id, level, message, metadata, created_at FROM activity_log WHERE user_id = ?"@;
    let b: Seq<char> = if by_bot { " AND bot_id = ?"@ } else { Seq::empty() };
    let l: Seq<char> = if by_level { " AND level = ?"@ } else { Seq::empty() };
    let o = " ORDER BY created_at DESC LIMIT ?"@;
    let q = logs_query_text(by_bot, by_level);
    assert(q =~= p + b + l + o);
    assert(q.subrange(0, p.len() as int) =~= p);
    assert(q.subrange(q.len() - o.len(), q.len() as int) =~= o);
    if by_bot {
        assert(q.subrange(p.len() as int, (p.len() + b.len()) as int) =~= b);
        assert(occurs_at(q, " AND bot_id = ?"@, p.len() as int));
    }
    if by_level {
        let j: int = (p.len() + b.len()) as int;
        assert(q.subrange(j, j + l.len() as int) =~= l);
        assert(occurs_at(q, " AND level = ?"@, j));
        if by_bot {
            reveal_strlit(" AND bot_id = ?");
            assert(occurs_at(q, " AND bot_id = ?"@, p.len() as int));
        }
    }
}

/// The SQL text of an activity-log request; its parameters are bound in the
/// order user, bot (if any), level (if any), limit.
pub fn logs_query(req: &GetLogsRequest) -> (q: String)
    ensures
        q@ == logs_query_text(req.bot_id is Some, req.level is Some),
        req.bot_id is Some ==> contains(q@, " AND bot_id = ?"@),
        req.level is Some ==> contains(q@, " AND level = ?"@),
{
    proof {
        lemma_logs_query_filters(req.bot_id is Some, req.level is Some);
    }
    let mut q = "SELECT id, user_id, bot_id, level, message, metadata, created_at FROM activity_log WHERE user_id = ?".to_string();
    let ghost q0 = q@;
    if req.bot_id.is_some() {
        q.append(" AND bot_id = ?");
    }
    let ghost q1 = q@;
    if req.level.is_some() {
        q.append(" AND level = ?");
    }
    let ghost q2 = q@;
    q.append(" ORDER BY created_at DESC LIMIT ?");
    proof {
        let b: Seq<char> = if req.bot_id is Some { " AND bot_id = ?"@ } else { Seq::empty() };
        let l: Seq<char> = if req.level is Some { " AND level = ?"@ } else { Seq::empty() };
        assert(q1 =~= q0 + b);
        assert(q2 =~= q0 + b + l);
    }
    q
}

/// The number of entries to return: the request's limit, else 50.
pub fn logs_limit(req: &GetLogsRequest) -> (n: i64)
    ensures
        n == match req.limit {
            Some(l) => l,
            None => DEFAULT_LOG_LIMIT,
        },
{
    match req.limit {
        Some(l) => l,
        None => DEFAULT_LOG_LIMIT,
    }
}

/// How many of the given bot statuses are `running`.
pub open spec fn running_count(statuses: Seq<String>) -> nat
    decreases statuses.len(),
{
    if statuses.len() == 0 {
        0
    } else {
        running_count(statuses.drop_last()) + if statuses.last()@ == "running"@ { 1nat } else { 0nat }
    }
}

/// Counting running bots: a list of only running bots counts all of them, a
/// list without one counts none, and appending one more status adds one
/// exactly when it is `running`; joining two lists adds their counts.
pub proof fn lemma_running_count_law(statuses: Seq<String>, more: Seq<String>)
    ensures
        (forall|i: int| 0 <= i < statuses.len() ==> (#[trigger] statuses[i])@ == "running"@)
            ==> running_count(statuses) == statuses.len(),
        (forall|i: int| 0 <= i < statuses.len() ==> (#[trigger] statuses[i])@ != "running"@)
            ==> running_count(statuses) == 0,
        running_count(statuses + more) == running_count(statuses) + running_count(more),
    decreases statuses.len() + more.len(),
{
    if more.len() > 0 {
        assert((statuses + more).drop_last() =~= statuses + more.drop_last());
        lemma_running_count_law(statuses, more.drop_last());
    } else {
        assert(statuses + more =~= statuses);
        if statuses.len() > 0 {
            let rest = statuses.drop_last();
            assert(forall|i: int| 0 <= i < rest.len() ==> #[trigger] rest[i] == statuses[i]);
            lemma_running_count_law(rest, more);
        }
    }
}

/// The number of running bots among a user's bots, given their statuses.
pub fn running_bot_count(statuses: &Vec<String>) -> (n: usize)
    ensures
        n == running_count(statuses@),
        n <= statuses@.len(),
        (forall|i: int| 0 <= i < statuses@.len() ==> (#[trigger] statuses@[i])@ == "running"@) ==> n == statuses@.len(),
        (forall|i: int| 0 <= i < statuses@.len() ==> (#[trigger] statuses@[i])@ != "running"@) ==> n == 0,
{
    proof {
        lemma_running_count_law(statuses@, Seq::empty());
    }
    let mut n: usize = 0;
    let mut i: usize = 0;
    while i < statuses.len()
        invariant
            0 <= i <= statuses@.len(),
            n == running_count(statuses@.subrange(0, i as int)),
            n <= i,
        decreases statuses@.len() - i,
    {
        assert(statuses@.subrange(0, i as int) =~= statuses@.subrange(0, i + 1).drop_last());
        if str_eq(statuses[i].as_str(), "running") {
            n = n + 1;
        }
        i = i + 1;
    }
    assert(statuses@.subrange(0, i as int) =~= statuses@);
    n
}

/// Whether a user has Polymarket credentials: a non-empty encrypted blob in
/// the settings, or at least one valid entry in the key table.
pub open spec fn has_credentials(blob: Option<Seq<char>>, key_valid: Seq<bool>) -> bool {
    (match blob {
        Some(b) => b.len() > 0,
        None => false,
    }) || exists|i: int| 0 <= i < key_valid.len() && key_valid[i]
}

/// Whether a user has Polymarket credentials, from the stored settings blob
/// (if any settings row exists) and the validity flags of the stored keys.
pub fn has_polymarket_credentials(blob: Option<&str>, key_valid: &Vec<bool>) -> (res: bool)
    ensures
        res == has_credentials(
            match blob {
                Some(b) => Some(b@),
                None => None,
            },
            key_valid@,
        ),
        res <==> ((blob matches Some(b) && b@.len() > 0) || exists|i: int| 0 <= i < key_valid@.len() && key_valid@[i]),
{
    let has_blob = match blob {
        Some(b) => b.unicode_len() > 0,
        None => false,
    };
    if has_blob {
        return true;
    }
    let mut i: usize = 0;
    while i < key_valid.len()
        invariant
            0 <= i <= key_valid@.len(),
            forall|j: int| 0 <= j < i ==> !key_valid@[j],
        decreases key_valid@.len() - i,
    {
        if key_valid[i] {
            return true;
        }
        i = i + 1;
    }
    false
}

/// The detailed status of a bot: its record, with no error or activity yet.
pub fn bot_detailed_status(
    id: i64,
    name: String,
    status: String,
    strategy_type: String,
    market_id: String,
    created_at: String,
) -> (s: BotDetailedStatus)
    ensures
        s.id == id,
        s.name == name,
        s.status == status,
        s.strategy == strategy_type,
        s.market_id == market_id,
        s.created_at == created_at,
        s.last_error is None,
        s.last_activity is None,
{
    BotDetailedStatus {
        id,
        name,
        status,
        strategy: strategy_type,
        market_id,
        created_at,
        last_error: None,
        last_activity: None,
    }
}

} // verus!
