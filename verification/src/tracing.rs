//! Structured tracing: log entries with trace context (run id, bot id, mode)
//! and the context carried by request headers.

use crate::text::{parse_i64, parse_i64_spec, parse_u64, parse_u64_spec};
use vstd::prelude::*;
use vstd::string::*;

verus! {

/// Structured log entry with trace context.
pub struct TraceLog {
    pub timestamp: String,
    pub level: String,
    pub message: String,
    pub run_id: Option<u64>,
    pub bot_id: Option<i64>,
    pub mode: Option<String>,
    pub user_id: Option<i64>,
    pub duration_ms: Option<u64>,
}

/// Calls `chrono::Utc::now().to_rfc3339()`: the current time, of which
/// nothing is promised.
#[verifier::external_body]
fn utc_now_rfc3339() -> String {
    chrono::Utc::now().to_rfc3339()
}

impl TraceLog {
    /// A log entry stamped with the current time and no trace context.
    pub fn new(level: &str, message: &str) -> (log: Self)
        ensures
            log.level@ == level@,
            log.message@ == message@,
            log.run_id is None,
            log.bot_id is None,
            log.mode is None,
            log.user_id is None,
            log.duration_ms is None,
    {
        TraceLog {
            timestamp: utc_now_rfc3339(),
            level: level.to_string(),
            message: message.to_string(),
            run_id: None,
            bot_id: None,
            mode: None,
            user_id: None,
            duration_ms: None,
        }
    }

    /// The entry with its run id set.
    pub fn with_run_id(self, id: u64) -> (log: Self)
        ensures
            log == (TraceLog { run_id: Some(id), ..self }),
    {
        TraceLog { run_id: Some(id), ..self }
    }

    /// The entry with its bot id set.
    pub fn with_bot_id(self, id: i64) -> (log: Self)
        ensures
            log == (TraceLog { bot_id: Some(id), ..self }),
    {
        TraceLog { bot_id: Some(id), ..self }
    }

    /// The entry with its trading mode set.
    pub fn with_mode(self, mode: &str) -> (log: Self)
        ensures
            log.mode matches Some(m) && m@ == mode@,
            log == (TraceLog { mode: log.mode, ..self }),
    {
        TraceLog { mode: Some(mode.to_string()), ..self }
    }

    /// The entry with its user id set.
    pub fn with_user_id(self, id: i64) -> (log: Self)
        ensures
            log == (TraceLog { user_id: Some(id), ..self }),
    {
        TraceLog { user_id: Some(id), ..self }
    }

    /// The entry with its duration set.
    pub fn with_duration_ms(self, ms: u64) -> (log: Self)
        ensures
            log == (TraceLog { duration_ms: Some(ms), ..self }),
    {
        TraceLog { duration_ms: Some(ms), ..self }
    }
}

/// Trace context extracted from request headers.
#[derive(Debug, Clone)]
pub struct TraceContext {
    pub run_id: Option<u64>,
    pub bot_id: Option<i64>,
    pub mode: Option<String>,
}

impl TraceContext {
    /// An empty context.
    pub fn new() -> (ctx: Self)
        ensures
            ctx.run_id is None,
            ctx.bot_id is None,
            ctx.mode is None,
    {
        TraceContext { run_id: None, bot_id: None, mode: None }
    }

    /// The context with its run id set.
    pub fn with_run_id(self, id: u64) -> (ctx: Self)
        ensures
            ctx == (TraceContext { run_id: Some(id), ..self }),
    {
        TraceContext { run_id: Some(id), ..self }
    }

    /// The context with its bot id set.
    pub fn with_bot_id(self, id: i64) -> (ctx: Self)
        ensures
            ctx == (TraceContext { bot_id: Some(id), ..self }),
    {
        TraceContext { bot_id: Some(id), ..self }
    }

    /// The context with its trading mode set.
    pub fn with_mode(self, mode: &str) -> (ctx: Self)
        ensures
            ctx.mode matches Some(m) && m@ == mode@,
            ctx.run_id == self.run_id,
            ctx.bot_id == self.bot_id,
    {
        TraceContext { mode: Some(mode.to_string()), ..self }
    }
}

impl Default for TraceContext {
    fn default() -> (ctx: Self)
        ensures
            ctx.run_id is None,
            ctx.bot_id is None,
            ctx.mode is None,
    {
        Self::new()
    }
}

/// Builds the trace context from the values of the `X-Run-Id`, `X-Bot-Id` and
/// `X-Trading-Mode` headers (each absent when the header is missing or not
/// visible ASCII): the ids are kept when they parse as numbers.
pub fn extract_trace_context(run_id: Option<&str>, bot_id: Option<&str>, mode: Option<&str>) -> (ctx: TraceContext)
    ensures
        ctx.run_id == (match run_id {
            Some(s) => parse_u64_spec(s@),
            None => None,
        }),
        ctx.bot_id == (match bot_id {
            Some(s) => parse_i64_spec(s@),
            None => None,
        }),
        mode is None ==> ctx.mode is None,
        mode matches Some(m) ==> (ctx.mode matches Some(c) && c@ == m@),
{
    let run_id = match run_id {
        Some(s) => parse_u64(s),
        None => None,
    };
    let bot_id = match bot_id {
        Some(s) => parse_i64(s),
        None => None,
    };
    let mode = match mode {
        Some(m) => Some(m.to_string()),
        None => None,
    };
    TraceContext { run_id, bot_id, mode }
}

/// Multiplier that spreads the clock over the id space (the FNV-64 offset
/// basis).
pub const RUN_ID_MULTIPLIER: u64 = 14695981039346656037;

/// The run id made from a clock reading in nanoseconds and a random number:
/// `nanos * 14695981039346656037 + random`, wrapping at 2^64.
pub open spec fn run_id_of(nanos: u64, random: u64) -> u64 {
    ((nanos as int * RUN_ID_MULTIPLIER as int + random as int) % 0x1_0000_0000_0000_0000) as u64
}

/// Calls `SystemTime::now().duration_since(UNIX_EPOCH)` and gives the
/// nanoseconds since the Unix epoch, or `None` when the clock is set before
/// it. Nothing is promised of the value.
#[verifier::external_body]
fn unix_time_nanos() -> Option<u128> {
    std::time::SystemTime::now().duration_since(std::time::UNIX_EPOCH).ok().map(|d| d.as_nanos())
}

/// Calls `rand::random::<u64>()`: a random number, of which nothing is
/// promised.
#[verifier::external_body]
fn random_u64() -> u64 {
    rand::random::<u64>()
}

/// Mixes a clock reading (truncated to 64 bits) with a random number.
pub fn mix_run_id(nanos: u128, random: u64) -> (id: u64)
    ensures
        id == run_id_of((nanos % 0x1_0000_0000_0000_0000) as u64, random),
{
    let now = (nanos % 0x1_0000_0000_0000_0000) as u64;
    let product = now.wrapping_mul(RUN_ID_MULTIPLIER);
    let id = product.wrapping_add(random);
    proof {
        let m: int = 0x1_0000_0000_0000_0000;
        let a = now as int * RUN_ID_MULTIPLIER as int;
        assert(product as int == a % m);
        assert(id as int == (product as int + random as int) % m);
        vstd::arithmetic::div_mod::lemma_add_mod_noop(a, random as int, m);
        vstd::arithmetic::div_mod::lemma_mod_twice(random as int, m);
        vstd::arithmetic::div_mod::lemma_small_mod(random as nat, m as nat);
    }
    id
}

/// A new run id: the nanosecond clock (zero if the clock is set before the
/// Unix epoch) mixed with a random number.
pub fn generate_run_id() -> (id: u64)
    ensures
        exists|nanos: u64, random: u64| id == run_id_of(nanos, random),
{
    let nanos = match unix_time_nanos() {
        Some(n) => n,
        None => 0,
    };
    let random = random_u64();
    mix_run_id(nanos, random)
}

} // verus!
