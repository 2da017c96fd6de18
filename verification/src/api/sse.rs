//! Live market stream: which market to follow and when to look for the next.

use crate::api::market::{candidate_slugs, timeframe_duration, timeframe_slug, updown_slug, window_start};
use vstd::prelude::*;
use vstd::string::*;

verus! {

/// The length of a market window, in seconds.
pub const MARKET_DURATION_SECS: i64 = 300;

/// The slugs tried when looking for the market to follow at `now`: the
/// current 5-minute BTC window and the three before it, then the same ETH
/// windows.
pub open spec fn discovery_slug(now: int, k: int) -> Seq<char> {
    let asset = if k < 4 { "btc"@ } else { "eth"@ };
    let back = if k < 4 { k } else { k - 4 };
    updown_slug(asset, timeframe_slug("5"@), window_start(now, timeframe_duration("5"@) as int) - back * timeframe_duration("5"@))
}

/// The slugs to try, in order, when looking for an active market.
pub fn discovery_slugs(now: i64) -> (slugs: Vec<String>)
    requires
        now >= i64::MIN + 4 * 86400,
    ensures
        slugs@.len() == 8,
        forall|k: int| 0 <= k < 8 ==> #[trigger] slugs@[k]@ == discovery_slug(now as int, k),
{
    let mut slugs = candidate_slugs("btc", "5", now);
    let mut eth = candidate_slugs("eth", "5", now);
    let ghost btc_v = slugs@;
    let ghost eth_v = eth@;
    slugs.append(&mut eth);
    assert forall|k: int| 0 <= k < 8 implies #[trigger] slugs@[k]@ == discovery_slug(now as int, k) by {
        if k < 4 {
            assert(slugs@[k] == btc_v[k]);
        } else {
            assert(slugs@[k] == eth_v[k - 4]);
        }
    }
    slugs
}

/// Whether the followed market must be replaced: there is none, its end
/// time is unknown, or it has ended.
pub fn needs_new_market(end_time: Option<i64>, now: i64) -> (res: bool)
    ensures
        res == match end_time {
            Some(t) => t < now,
            None => true,
        },
{
    match end_time {
        Some(t) => t < now,
        None => true,
    }
}

/// Seconds left in the followed market: until its end time, the full window
/// when that is unknown, never below zero.
pub fn seconds_remaining(end_time: Option<i64>, now: i64) -> (r: i64)
    requires
        end_time matches Some(t) ==> i64::MIN <= t - now <= i64::MAX,
    ensures
        r == match end_time {
            Some(t) => if t - now > 0 { t - now } else { 0 },
            None => MARKET_DURATION_SECS as int,
        },
{
    match end_time {
        Some(t) => {
            let d = t - now;
            if d > 0 { d } else { 0 }
        },
        None => MARKET_DURATION_SECS,
    }
}

/// Whether a market found by its slug can be followed: the event and its
/// first market are both marked active and not closed, and the market's end
/// time is known and not past.
pub fn followable_market(
    event_active: Option<bool>,
    event_closed: Option<bool>,
    market_active: Option<bool>,
    market_closed: Option<bool>,
    end_time: Option<i64>,
    now: i64,
) -> (res: bool)
    ensures
        res == (event_active == Some(true) && event_closed != Some(true) && market_active == Some(true)
            && market_closed != Some(true) && (end_time matches Some(t) && t >= now)),
{
    if event_active != Some(true) || event_closed == Some(true) {
        return false;
    }
    if market_active != Some(true) || market_closed == Some(true) {
        return false;
    }
    match end_time {
        Some(t) => t >= now,
        None => false,
    }
}

/// Whether `numbers` are 1, 2, 3, ... in order: no gaps, no repeats.
pub open spec fn numbered_in_order(numbers: Seq<u64>) -> bool {
    forall|k: int| 0 <= k < numbers.len() ==> #[trigger] numbers[k] == k + 1
}

/// What the live stream keeps between ticks: the numbers of the events sent
/// so far, and the market it follows (id, YES token and window start; empty
/// and zero until one is found).
pub struct StreamCursor {
    seq: u64,
    sent: Ghost<Seq<u64>>,
    market_id: String,
    yes_token: String,
    event_start_time: i64,
}

impl StreamCursor {
    /// The numbers of the events sent so far, in the order they were sent.
    pub closed spec fn sent(&self) -> Seq<u64> {
        self.sent@
    }

    /// The id of the followed market (empty when none).
    pub closed spec fn followed_market(&self) -> Seq<char> {
        self.market_id@
    }

    /// The YES token of the followed market (empty when unknown).
    pub closed spec fn followed_token(&self) -> Seq<char> {
        self.yes_token@
    }

    /// The window start of the followed market (zero when unknown).
    pub closed spec fn followed_start(&self) -> i64 {
        self.event_start_time
    }

    /// The number of the last event sent (zero before the first).
    pub closed spec fn last_seq(&self) -> u64 {
        self.seq
    }

    /// The numbering the stream keeps: the events sent so far are numbered
    /// 1, 2, 3, ... and the last number is their count.
    pub closed spec fn well_formed(&self) -> bool {
        &&& numbered_in_order(self.sent@)
        &&& self.sent@.len() == self.seq
    }

    /// A fresh stream: no event sent, no market followed.
    pub fn new() -> (c: Self)
        ensures
            c.well_formed(),
            c.sent() == Seq::<u64>::empty(),
            c.followed_market().len() == 0,
            c.followed_token().len() == 0,
            c.followed_start() == 0,
    {
        StreamCursor {
            seq: 0,
            sent: Ghost(Seq::empty()),
            market_id: String::new(),
            yes_token: String::new(),
            event_start_time: 0,
        }
    }

    /// The number of the last event sent.
    pub fn seq(&self) -> (n: u64)
        requires
            self.well_formed(),
        ensures
            n == self.last_seq(),
            n == self.sent().len(),
    {
        self.seq
    }

    /// Numbers the next event: one more than the last. Every event of the
    /// stream is thus numbered by its place in it, 1, 2, 3, ..., with no gap
    /// and no repeat, whatever markets are followed in between.
    pub fn next_seq(&mut self) -> (n: u64)
        requires
            old(self).well_formed(),
            old(self).last_seq() < u64::MAX,
        ensures
            n == old(self).last_seq() + 1,
            n == old(self).sent().len() + 1,
            final(self).sent() == old(self).sent().push(n),
            final(self).last_seq() == n,
            final(self).well_formed(),
            numbered_in_order(final(self).sent()),
            final(self).followed_market() == old(self).followed_market(),
            final(self).followed_token() == old(self).followed_token(),
            final(self).followed_start() == old(self).followed_start(),
    {
        self.seq = self.seq + 1;
        let ghost n = self.seq;
        proof {
            self.sent@ = self.sent@.push(n);
        }
        self.seq
    }

    /// Follows a newly found market: its id and YES token (empty when the
    /// market lacks them) and its window start. The event numbering goes on.
    pub fn follow(&mut self, market_id: Option<&str>, yes_token: Option<&str>, event_start_time: i64)
        requires
            old(self).well_formed(),
        ensures
            final(self).well_formed(),
            final(self).sent() == old(self).sent(),
            final(self).last_seq() == old(self).last_seq(),
            final(self).followed_market() == match market_id {
                Some(m) => m@,
                None => Seq::<char>::empty(),
            },
            final(self).followed_token() == match yes_token {
                Some(t) => t@,
                None => Seq::<char>::empty(),
            },
            final(self).followed_start() == event_start_time,
    {
        self.market_id = match market_id {
            Some(m) => m.to_string(),
            None => String::new(),
        };
        self.yes_token = match yes_token {
            Some(t) => t.to_string(),
            None => String::new(),
        };
        self.event_start_time = event_start_time;
    }

    /// Whether a price update is sent on this tick: only while a market is
    /// followed.
    pub fn has_market(&self) -> (res: bool)
        ensures
            res == (self.followed_market().len() > 0),
    {
        !self.market_id.as_str().is_empty()
    }

    /// The id of the followed market.
    pub fn market_id(&self) -> (m: &str)
        ensures
            m@ == self.followed_market(),
    {
        self.market_id.as_str()
    }

    /// The YES token of the followed market.
    pub fn yes_token(&self) -> (t: &str)
        ensures
            t@ == self.followed_token(),
    {
        self.yes_token.as_str()
    }

    /// The window start of the followed market.
    pub fn event_start_time(&self) -> (t: i64)
        ensures
            t == self.followed_start(),
    {
        self.event_start_time
    }
}

} // verus!
