//! Market discovery: timeframes, the slugs of the recurring up/down markets
//! and the YES/NO token ids of a market.

use crate::text::{
    contains, decimal, i64_to_string, parse_i64, parse_i64_spec, starts_with, str_contains, str_eq,
    str_starts_with, str_to_lowercase, str_to_uppercase, unicode_lower, unicode_upper,
};
use vstd::prelude::*;
use vstd::string::*;

verus! {

/// Request for the YES/NO price of a token.
pub struct MarketPriceRequest {
    pub token_id: Option<String>,
    pub condition_id: Option<String>,
}

/// Query of the active markets endpoint.
pub struct ActiveMarketsQuery {
    pub timeframe: Option<String>,
    pub asset: Option<String>,
}

/// Duration in seconds of a market timeframe (`"5"`, `"15"`, `"60"`, `"240"`,
/// `"D"`), five minutes for any other.
pub open spec fn timeframe_duration(timeframe: Seq<char>) -> u64 {
    if timeframe == "5"@ {
        300
    } else if timeframe == "15"@ {
        900
    } else if timeframe == "60"@ {
        3600
    } else if timeframe == "240"@ {
        14400
    } else if timeframe == "D"@ {
        86400
    } else {
        300
    }
}

/// Slug suffix of a timeframe (`5m`, `15m`, `1h`, `4h`, `1d`).
pub open spec fn timeframe_slug(timeframe: Seq<char>) -> Seq<char> {
    if timeframe == "D"@ {
        "1d"@
    } else if timeframe == "240"@ {
        "4h"@
    } else if timeframe == "60"@ {
        "1h"@
    } else if timeframe == "15"@ {
        "15m"@
    } else {
        "5m"@
    }
}

/// Get duration for timeframe.
pub fn get_duration_for_timeframe(timeframe: &str) -> (d: u64)
    ensures
        d == timeframe_duration(timeframe@),
{
    if str_eq(timeframe, "5") {
        300
    } else if str_eq(timeframe, "15") {
        900
    } else if str_eq(timeframe, "60") {
        3600
    } else if str_eq(timeframe, "240") {
        14400
    } else if str_eq(timeframe, "D") {
        86400
    } else {
        300
    }
}

/// Get timeframe slug suffix (5m, 15m, 1h, 4h, 1d).
pub fn get_timeframe_slug(timeframe: &str) -> (s: &'static str)
    ensures
        s@ == timeframe_slug(timeframe@),
{
    if str_eq(timeframe, "D") {
        "1d"
    } else if str_eq(timeframe, "240") {
        "4h"
    } else if str_eq(timeframe, "60") {
        "1h"
    } else if str_eq(timeframe, "15") {
        "15m"
    } else {
        "5m"
    }
}

/// The slug of the up/down market of an asset for a timeframe slug and a
/// window start: `{asset}-updown-{tf_slug}-{start}`.
pub open spec fn updown_slug(asset: Seq<char>, tf_slug: Seq<char>, start: int) -> Seq<char> {
    asset + "-updown-"@ + tf_slug + "-"@ + decimal(start)
}

/// `{asset}-updown-{tf_slug}-{start}`.
pub fn market_slug(asset: &str, tf_slug: &str, start: i64) -> (slug: String)
    ensures
        slug@ == updown_slug(asset@, tf_slug@, start as int),
{
    let mut slug = asset.to_string();
    slug.append("-updown-");
    slug.append(tf_slug);
    slug.append("-");
    let ts = i64_to_string(start);
    slug.append(ts.as_str());
    slug
}

/// Start of the window that holds `now`: `now` rounded toward zero to a
/// multiple of `duration`, as `(now / duration) * duration` computes it.
pub open spec fn window_start(now: int, duration: int) -> int {
    if now >= 0 {
        (now / duration) * duration
    } else {
        -(((-now) / duration) * duration)
    }
}

/// The slugs to try for an asset's up/down market at time `now_ts`: the
/// current window and the three before it, newest first.
pub fn candidate_slugs(asset: &str, timeframe: &str, now_ts: i64) -> (slugs: Vec<String>)
    requires
        now_ts >= i64::MIN + 4 * 86400,
    ensures
        slugs@.len() == 4,
        forall|k: int|
            0 <= k < 4 ==> #[trigger] slugs@[k]@ == updown_slug(
                asset@,
                timeframe_slug(timeframe@),
                window_start(now_ts as int, timeframe_duration(timeframe@) as int) - k
                    * timeframe_duration(timeframe@),
            ),
{
    let duration = get_duration_for_timeframe(timeframe) as i64;
    let rounded: i64 = if now_ts >= 0 {
        (now_ts / duration) * duration
    } else {
        let pos: i64 = (-now_ts) / duration;
        -(pos * duration)
    };
    proof {
        assert(0 <= now_ts / duration <= now_ts || now_ts < 0) by (nonlinear_arith)
            requires
                duration > 0,
        ;
    }
    let tf_slug = get_timeframe_slug(timeframe);
    let mut slugs: Vec<String> = Vec::new();
    let mut offset: i64 = 0;
    while offset < 4
        invariant
            0 <= offset <= 4,
            slugs@.len() == offset,
            duration == timeframe_duration(timeframe@),
            tf_slug@ == timeframe_slug(timeframe@),
            rounded == window_start(now_ts as int, duration as int),
            now_ts >= i64::MIN + 4 * 86400,
            forall|k: int|
                0 <= k < offset ==> #[trigger] slugs@[k]@ == updown_slug(
                    asset@,
                    timeframe_slug(timeframe@),
                    window_start(now_ts as int, timeframe_duration(timeframe@) as int) - k
                        * timeframe_duration(timeframe@),
                ),
        decreases 4 - offset,
    {
        let try_time = rounded - offset * duration;
        slugs.push(market_slug(asset, tf_slug, try_time));
        offset = offset + 1;
    }
    slugs
}

/// The window start that a 5-minute BTC or ETH up/down slug names, or zero
/// when the slug has neither prefix or its timestamp does not parse.
pub open spec fn slug_event_start(slug: Seq<char>) -> i64 {
    if starts_with(slug, "btc-updown-5m-"@) {
        match parse_i64_spec(slug.subrange(14, slug.len() as int)) {
            Some(t) => t,
            None => 0,
        }
    } else if starts_with(slug, "eth-updown-5m-"@) {
        match parse_i64_spec(slug.subrange(14, slug.len() as int)) {
            Some(t) => t,
            None => 0,
        }
    } else {
        0
    }
}

/// Extracts the event start time from a `btc-updown-5m-{timestamp}` (or ETH)
/// slug.
pub fn event_start_time_from_slug(slug: &str) -> (t: i64)
    ensures
        t == slug_event_start(slug@),
{
    proof {
        reveal_strlit("btc-updown-5m-");
        reveal_strlit("eth-updown-5m-");
    }
    if str_starts_with(slug, "btc-updown-5m-") || str_starts_with(slug, "eth-updown-5m-") {
        let rest = slug.substring_char(14, slug.unicode_len());
        match parse_i64(rest) {
            Some(t) => t,
            None => 0,
        }
    } else {
        0
    }
}

// ---------------------------------------------------------------------------
// Token ids
// ---------------------------------------------------------------------------

/// The strings of a JSON array of strings, as `serde_json::from_str::<Vec<String>>`
/// reads them, or `None` when the text is not such an array.
pub uninterp spec fn json_string_array(text: Seq<char>) -> Option<Seq<Seq<char>>>;

/// Calls `serde_json::from_str::<Vec<String>>`.
#[verifier::external_body]
fn parse_json_string_array(text: &str) -> (res: Option<Vec<String>>)
    ensures
        match res {
            Some(v) => json_string_array(text@) == Some(v@.map_values(|s: String| s@)),
            None => json_string_array(text@) is None,
        },
{
    serde_json::from_str::<Vec<String>>(text).ok()
}

/// The (token id, outcome) pairs of a market given its token ids: the first
/// is `Up`, the second `Down`; `None` with fewer than two ids.
pub fn tokens_from_ids(ids: &Vec<String>) -> (tokens: Option<Vec<(String, String)>>)
    ensures
        ids@.len() < 2 ==> tokens is None,
        ids@.len() >= 2 ==> (tokens matches Some(t) && t@.len() == 2 && t@[0].0@ == ids@[0]@
            && t@[0].1@ == "Up"@ && t@[1].0@ == ids@[1]@ && t@[1].1@ == "Down"@),
{
    if ids.len() < 2 {
        return None;
    }
    let mut t: Vec<(String, String)> = Vec::new();
    t.push((ids[0].clone(), "Up".to_string()));
    t.push((ids[1].clone(), "Down".to_string()));
    Some(t)
}

/// Parse clobTokenIds string into tokens array format.
pub fn parse_clob_token_ids(clob_token_ids: &str) -> (tokens: Option<Vec<(String, String)>>)
    ensures
        match json_string_array(clob_token_ids@) {
            Some(ids) => if ids.len() < 2 {
                tokens is None
            } else {
                tokens matches Some(t) && t@.len() == 2 && t@[0].0@ == ids[0] && t@[0].1@ == "Up"@
                    && t@[1].0@ == ids[1] && t@[1].1@ == "Down"@
            },
            None => tokens is None,
        },
{
    match parse_json_string_array(clob_token_ids) {
        Some(ids) => tokens_from_ids(&ids),
        None => None,
    }
}

/// The (token id, outcome) pairs of the tokens that have both.
pub fn tokens_with_outcomes(tokens: &Vec<(Option<String>, Option<String>)>) -> (pairs: Vec<(String, String)>)
    ensures
        pairs@.map_values(|p: (String, String)| (p.0@, p.1@)) == complete_tokens(
            tokens@.map_values(|t: (Option<String>, Option<String>)| (opt_view(t.0), opt_view(t.1))),
        ),
{
    let ghost src = tokens@.map_values(|t: (Option<String>, Option<String>)| (opt_view(t.0), opt_view(t.1)));
    let mut pairs: Vec<(String, String)> = Vec::new();
    let mut i: usize = 0;
    while i < tokens.len()
        invariant
            0 <= i <= tokens@.len(),
            src == tokens@.map_values(|t: (Option<String>, Option<String>)| (opt_view(t.0), opt_view(t.1))),
            pairs@.map_values(|p: (String, String)| (p.0@, p.1@)) == complete_tokens(src.take(i as int)),
        decreases tokens@.len() - i,
    {
        proof {
            assert(src.take(i as int + 1).drop_last() =~= src.take(i as int));
        }
        match (&tokens[i].0, &tokens[i].1) {
            (Some(id), Some(out)) => {
                pairs.push((id.clone(), out.clone()));
                proof {
                    assert(pairs@.map_values(|p: (String, String)| (p.0@, p.1@)) =~= complete_tokens(
                        src.take(i as int),
                    ).push((id@, out@)));
                }
            },
            _ => {},
        }
        i = i + 1;
    }
    proof {
        assert(src.take(tokens@.len() as int) =~= src);
    }
    pairs
}

/// The view of an optional string.
pub open spec fn opt_view(s: Option<String>) -> Option<Seq<char>> {
    match s {
        Some(v) => Some(v@),
        None => None,
    }
}

/// The pairs whose id and outcome are both present, in order.
pub open spec fn complete_tokens(tokens: Seq<(Option<Seq<char>>, Option<Seq<char>>)>) -> Seq<(Seq<char>, Seq<char>)>
    decreases tokens.len(),
{
    if tokens.len() == 0 {
        seq![]
    } else {
        let rest = complete_tokens(tokens.drop_last());
        match tokens.last() {
            (Some(id), Some(out)) => rest.push((id, out)),
            _ => rest,
        }
    }
}

/// Whether an outcome names the up side: `Up`, `Long`, or any outcome whose
/// lower case contains `up`.
pub open spec fn is_up_outcome(outcome: Seq<char>) -> bool {
    outcome == "Up"@ || outcome == "Long"@ || contains(unicode_lower(outcome), "up"@)
}

/// Whether an outcome names the down side: `Down`, `Short`, or any outcome
/// whose lower case contains `down`.
pub open spec fn is_down_outcome(outcome: Seq<char>) -> bool {
    outcome == "Down"@ || outcome == "Short"@ || contains(unicode_lower(outcome), "down"@)
}

/// The id of the first token whose outcome satisfies `side`, else the id at
/// `fallback`, else the empty string.
pub open spec fn pick_token(
    tokens: Seq<(Seq<char>, Seq<char>)>,
    side: spec_fn(Seq<char>) -> bool,
    fallback: int,
) -> Seq<char> {
    if exists|i: int| 0 <= i < tokens.len() && side(tokens[i].1) {
        let i = choose|i: int|
            0 <= i < tokens.len() && side(tokens[i].1) && forall|j: int| 0 <= j < i ==> !side(tokens[j].1);
        tokens[i].0
    } else if fallback < tokens.len() {
        tokens[fallback].0
    } else {
        seq![]
    }
}

fn is_up(outcome: &str) -> (res: bool)
    ensures
        res == is_up_outcome(outcome@),
{
    if str_eq(outcome, "Up") || str_eq(outcome, "Long") {
        return true;
    }
    let lower = str_to_lowercase(outcome);
    str_contains(lower.as_str(), "up")
}

fn is_down(outcome: &str) -> (res: bool)
    ensures
        res == is_down_outcome(outcome@),
{
    if str_eq(outcome, "Down") || str_eq(outcome, "Short") {
        return true;
    }
    let lower = str_to_lowercase(outcome);
    str_contains(lower.as_str(), "down")
}

/// Picks the YES (up) and NO (down) token ids of a market: the first token
/// whose outcome names the side, else the first (for YES) or second (for NO)
/// token, else the empty string; both empty when there are no tokens.
pub fn select_up_down_tokens(tokens: Option<&Vec<(String, String)>>) -> (ids: (String, String))
    ensures
        match tokens {
            Some(t) => {
                let v = t@.map_values(|p: (String, String)| (p.0@, p.1@));
                ids.0@ == pick_token(v, |o: Seq<char>| is_up_outcome(o), 0)
                    && ids.1@ == pick_token(v, |o: Seq<char>| is_down_outcome(o), 1)
            },
            None => ids.0@ == Seq::<char>::empty() && ids.1@ == Seq::<char>::empty(),
        },
{
    match tokens {
        None => (String::new(), String::new()),
        Some(t) => {
            let up = pick_side(t, true);
            let down = pick_side(t, false);
            (up, down)
        },
    }
}

fn pick_side(t: &Vec<(String, String)>, up: bool) -> (id: String)
    ensures
        up ==> id@ == pick_token(
            t@.map_values(|p: (String, String)| (p.0@, p.1@)),
            |o: Seq<char>| is_up_outcome(o),
            0,
        ),
        !up ==> id@ == pick_token(
            t@.map_values(|p: (String, String)| (p.0@, p.1@)),
            |o: Seq<char>| is_down_outcome(o),
            1,
        ),
{
    let ghost v = t@.map_values(|p: (String, String)| (p.0@, p.1@));
    let ghost side = if up { |o: Seq<char>| is_up_outcome(o) } else { |o: Seq<char>| is_down_outcome(o) };
    let ghost fallback: int = if up { 0 } else { 1 };
    let mut i: usize = 0;
    while i < t.len()
        invariant
            0 <= i <= t@.len(),
            v == t@.map_values(|p: (String, String)| (p.0@, p.1@)),
            side == (if up { |o: Seq<char>| is_up_outcome(o) } else { |o: Seq<char>| is_down_outcome(o) }),
            forall|j: int| 0 <= j < i ==> !side(#[trigger] v[j].1),
        decreases t@.len() - i,
    {
        let hit = if up { is_up(t[i].1.as_str()) } else { is_down(t[i].1.as_str()) };
        if hit {
            proof {
                assert(side(v[i as int].1));
                let k = choose|k: int|
                    0 <= k < v.len() && side(v[k].1) && forall|j: int| 0 <= j < k ==> !side(v[j].1);
                if k < i {
                } else if k > i {
                    assert(!side(v[i as int].1));
                }
                assert(k == i);
            }
            return t[i].0.clone();
        }
        i = i + 1;
    }
    proof {
        assert(!exists|k: int| 0 <= k < v.len() && side(v[k].1));
    }
    let fb: usize = if up { 0 } else { 1 };
    if fb < t.len() {
        t[fb].0.clone()
    } else {
        String::new()
    }
}

} // verus!

verus! {

// ---------------------------------------------------------------------------
// Market listings
// ---------------------------------------------------------------------------

/// The assets whose up/down markets are listed, in order.
pub open spec fn listed_assets() -> Seq<Seq<char>> {
    seq!["btc"@, "eth"@, "sol"@, "xrp"@]
}

/// The assets whose up/down markets are listed.
pub fn active_market_assets() -> (a: Vec<&'static str>)
    ensures
        a@.len() == 4,
        forall|i: int| 0 <= i < 4 ==> #[trigger] a@[i]@ == listed_assets()[i],
{
    let mut a: Vec<&'static str> = Vec::new();
    a.push("btc");
    a.push("eth");
    a.push("sol");
    a.push("xrp");
    a
}

/// The timeframe of a listing request: the one asked for, else `5`.
pub fn requested_timeframe(timeframe: Option<String>) -> (t: String)
    ensures
        t@ == match timeframe {
            Some(v) => v@,
            None => "5"@,
        },
{
    match timeframe {
        Some(v) => v,
        None => "5".to_string(),
    }
}

/// Whether a market of the asset passes the listing's asset filter: the two
/// names agree in lower case.
pub fn asset_matches(market_asset: &str, filter: &str) -> (res: bool)
    ensures
        res == (unicode_lower(market_asset@) == unicode_lower(filter@)),
{
    let a = str_to_lowercase(market_asset);
    let b = str_to_lowercase(filter);
    str_eq(a.as_str(), b.as_str())
}

/// Whether a found market is new to the listing: no listed market has its
/// condition id.
pub fn is_new_condition(listed: &Vec<String>, condition_id: &str) -> (res: bool)
    ensures
        res == !(exists|i: int| 0 <= i < listed@.len() && #[trigger] listed@[i]@ == condition_id@),
{
    let mut i: usize = 0;
    while i < listed.len()
        invariant
            0 <= i <= listed@.len(),
            forall|j: int| 0 <= j < i ==> #[trigger] listed@[j]@ != condition_id@,
        decreases listed@.len() - i,
    {
        if str_eq(listed[i].as_str(), condition_id) {
            return false;
        }
        i = i + 1;
    }
    true
}

/// Whether no two entries of a sequence of ids are equal.
pub open spec fn all_distinct(ids: Seq<Seq<char>>) -> bool {
    forall|i: int, j: int| 0 <= i < j < ids.len() ==> #[trigger] ids[i] != #[trigger] ids[j]
}

/// The condition ids of the markets listed so far; a market whose condition
/// id is already listed is not listed again.
pub struct MarketListing {
    ids: Vec<String>,
}

impl MarketListing {
    /// The listed condition ids, in the order they were added.
    pub closed spec fn listed(&self) -> Seq<Seq<char>> {
        self.ids@.map_values(|s: String| s@)
    }

    /// Every listed condition id is listed once.
    pub closed spec fn well_formed(&self) -> bool {
        all_distinct(self.listed())
    }

    /// An empty listing.
    pub fn new() -> (l: Self)
        ensures
            l.listed() == Seq::<Seq<char>>::empty(),
            l.well_formed(),
    {
        MarketListing { ids: Vec::new() }
    }

    /// Lists a market's condition id unless it is listed already; tells
    /// whether it was added.
    pub fn try_add(&mut self, condition_id: &str) -> (added: bool)
        requires
            old(self).well_formed(),
        ensures
            added == !old(self).listed().contains(condition_id@),
            added ==> final(self).listed() == old(self).listed().push(condition_id@),
            !added ==> final(self).listed() == old(self).listed(),
            final(self).well_formed(),
    {
        let fresh = is_new_condition(&self.ids, condition_id);
        proof {
            let v = self.listed();
            if fresh {
                assert forall|i: int| 0 <= i < v.len() implies v[i] != condition_id@ by {
                    assert(v[i] == self.ids@[i]@);
                }
            } else {
                let k = choose|i: int| 0 <= i < self.ids@.len() && #[trigger] self.ids@[i]@ == condition_id@;
                assert(v[k] == condition_id@);
            }
        }
        if fresh {
            self.ids.push(condition_id.to_string());
            proof {
                assert(self.listed() =~= old(self).listed().push(condition_id@));
            }
        }
        fresh
    }
}

/// Whether, ordering by key, the entry at `a` comes before the one at `b`:
/// a smaller key, or the same key and an earlier position.
pub open spec fn comes_before(keys: Seq<i64>, a: int, b: int) -> bool {
    keys[a] < keys[b] || (keys[a] == keys[b] && a < b)
}

/// Whether position `k` occurs in `order`.
pub open spec fn occurs_in(order: Seq<usize>, k: int) -> bool {
    exists|i: int| 0 <= i < order.len() && #[trigger] order[i] == k
}

/// Whether `order` lists every position of `keys` once, by increasing key,
/// equal keys in their original order (a stable sort).
pub open spec fn is_stable_order(keys: Seq<i64>, order: Seq<usize>) -> bool {
    &&& order.len() == keys.len()
    &&& forall|i: int| 0 <= i < order.len() ==> #[trigger] order[i] < keys.len()
    &&& forall|k: int| 0 <= k < keys.len() ==> #[trigger] occurs_in(order, k)
    &&& forall|i: int, j: int|
        0 <= i < j < order.len() ==> comes_before(keys, #[trigger] order[i] as int, #[trigger] order[j] as int)
}

/// The order in which markets are listed, soonest to close first, given the
/// seconds each has left; markets with equal times keep their order.
pub fn order_by_time_remaining(remaining: &Vec<i64>) -> (order: Vec<usize>)
    ensures
        is_stable_order(remaining@, order@),
{
    let ghost keys = remaining@;
    let mut order: Vec<usize> = Vec::new();
    let mut j: usize = 0;
    while j < remaining.len()
        invariant
            keys == remaining@,
            0 <= j <= keys.len(),
            order@.len() == j,
            forall|i: int| 0 <= i < order@.len() ==> #[trigger] order@[i] < j,
            forall|k: int| 0 <= k < j ==> #[trigger] occurs_in(order@, k),
            forall|a: int, b: int|
                0 <= a < b < order@.len() ==> comes_before(keys, #[trigger] order@[a] as int, #[trigger] order@[b] as int),
        decreases keys.len() - j,
    {
        let mut p: usize = 0;
        while p < order.len() && remaining[order[p]] <= remaining[j]
            invariant
                keys == remaining@,
                j < keys.len(),
                0 <= p <= order@.len(),
                forall|i: int| 0 <= i < order@.len() ==> #[trigger] order@[i] < j,
                forall|q: int| 0 <= q < p ==> keys[#[trigger] order@[q] as int] <= keys[j as int],
            decreases order@.len() - p,
        {
            p = p + 1;
        }
        let ghost old_order = order@;
        proof {
            assert forall|q: int| p <= q < old_order.len() implies keys[#[trigger] old_order[q] as int] > keys[j as int] by {
                if q > p {
                    assert(comes_before(keys, old_order[p as int] as int, old_order[q] as int));
                }
            }
        }
        order.insert(p, j);
        proof {
            let n = order@;
            assert(n == old_order.insert(p as int, j));
            assert forall|a: int, b: int| 0 <= a < b < n.len() implies comes_before(keys, #[trigger] n[a] as int, #[trigger] n[b] as int) by {
                if b < p {
                    assert(n[a] == old_order[a] && n[b] == old_order[b]);
                } else if b == p {
                    assert(n[a] == old_order[a]);
                } else if a < p {
                    assert(n[a] == old_order[a] && n[b] == old_order[b - 1]);
                    assert(comes_before(keys, old_order[a] as int, old_order[b - 1] as int));
                } else if a == p {
                    assert(n[b] == old_order[b - 1]);
                } else {
                    assert(n[a] == old_order[a - 1] && n[b] == old_order[b - 1]);
                    assert(comes_before(keys, old_order[a - 1] as int, old_order[b - 1] as int));
                }
            }
            assert forall|k: int| 0 <= k < j + 1 implies #[trigger] occurs_in(n, k) by {
                if k == j {
                    assert(n[p as int] == k);
                } else {
                    assert(occurs_in(old_order, k));
                    let w = choose|i: int| 0 <= i < old_order.len() && #[trigger] old_order[i] == k;
                    if w < p {
                        assert(n[w] == k);
                    } else {
                        assert(n[w + 1] == k);
                    }
                }
            }
            assert forall|i: int| 0 <= i < n.len() implies #[trigger] n[i] < j + 1 by {
                if i < p {
                    assert(n[i] == old_order[i]);
                } else if i > p {
                    assert(n[i] == old_order[i - 1]);
                }
            }
        }
        j = j + 1;
    }
    order
}

/// The token id of the first token with the given outcome; `None` when no
/// token has it, or that token has no id.
pub open spec fn outcome_token(tokens: Seq<(Option<Seq<char>>, Option<Seq<char>>)>, outcome: Seq<char>) -> Option<Seq<char>>
    decreases tokens.len(),
{
    if tokens.len() == 0 {
        None
    } else if tokens[0].1 == Some(outcome) {
        tokens[0].0
    } else {
        outcome_token(tokens.drop_first(), outcome)
    }
}

/// The views of a market's `(token id, outcome)` pairs.
pub open spec fn token_views(tokens: Seq<(Option<String>, Option<String>)>) -> Seq<(Option<Seq<char>>, Option<Seq<char>>)> {
    tokens.map_values(|t: (Option<String>, Option<String>)| (opt_view(t.0), opt_view(t.1)))
}

/// The id of the token for an outcome (`Yes` or `No`) of a market.
pub fn outcome_token_id(tokens: &Vec<(Option<String>, Option<String>)>, outcome: &str) -> (id: Option<String>)
    ensures
        opt_view(id) == outcome_token(token_views(tokens@), outcome@),
{
    let ghost v = token_views(tokens@);
    assert(v.subrange(0, v.len() as int) =~= v);
    let mut i: usize = 0;
    while i < tokens.len()
        invariant
            0 <= i <= tokens@.len(),
            v == token_views(tokens@),
            outcome_token(v, outcome@) == outcome_token(v.subrange(i as int, v.len() as int), outcome@),
        decreases tokens@.len() - i,
    {
        proof {
            let rest = v.subrange(i as int, v.len() as int);
            assert(rest.drop_first() =~= v.subrange(i + 1, v.len() as int));
            assert(rest[0] == v[i as int]);
        }
        let hit = match &tokens[i].1 {
            Some(o) => str_eq(o.as_str(), outcome),
            None => false,
        };
        if hit {
            return match &tokens[i].0 {
                Some(t) => Some(t.clone()),
                None => None,
            };
        }
        i = i + 1;
    }
    proof {
        assert(v.subrange(i as int, v.len() as int).len() == 0);
    }
    None
}

/// The start of a market and the seconds it has left, from its end time:
/// the window opens one timeframe before the end.
pub fn market_times(end_time: i64, now: i64, timeframe: &str) -> (t: (i64, i64))
    requires
        end_time >= i64::MIN + 86400,
        i64::MIN <= end_time - now <= i64::MAX,
    ensures
        t.0 == end_time - timeframe_duration(timeframe@),
        t.1 == end_time - now,
{
    let duration = get_duration_for_timeframe(timeframe);
    (end_time - duration as i64, end_time - now)
}

/// Whether a market found by its slug is listed: not closed, with a known
/// end time that has not passed.
pub fn market_is_open(closed: Option<bool>, end_time: Option<i64>, now: i64) -> (res: bool)
    ensures
        res == (closed != Some(true) && (end_time matches Some(t) && t >= now)),
{
    if closed == Some(true) {
        return false;
    }
    match end_time {
        Some(t) => t >= now,
        None => false,
    }
}

} // verus!

verus! {

// ---------------------------------------------------------------------------
// Listed markets
// ---------------------------------------------------------------------------

/// The Unix time (seconds) of an RFC 3339 date-time, as
/// `chrono::DateTime::parse_from_rfc3339` reads it, or `None` when the text is
/// not one.
pub uninterp spec fn rfc3339_timestamp(text: Seq<char>) -> Option<i64>;

/// Calls `chrono::DateTime::parse_from_rfc3339` and takes the timestamp of
/// the result.
#[verifier::external_body]
fn parse_rfc3339_timestamp(text: &str) -> (t: Option<i64>)
    ensures
        t == rfc3339_timestamp(text@),
{
    chrono::DateTime::parse_from_rfc3339(text).ok().map(|dt| dt.timestamp())
}

/// The end time of a market from its `endDate`, when present and readable.
pub fn market_end_time(end_date: Option<&str>) -> (t: Option<i64>)
    ensures
        t == match end_date {
            Some(d) => rfc3339_timestamp(d@),
            None => None,
        },
{
    match end_date {
        Some(d) => parse_rfc3339_timestamp(d),
        None => None,
    }
}

/// The outcome price texts of a market: its `outcomePrices` JSON array of
/// strings, else `["0.5", "0.5"]`.
pub fn outcome_price_texts(outcome_prices: Option<&str>) -> (prices: Vec<String>)
    ensures
        prices@.map_values(|s: String| s@) == match outcome_prices {
            Some(p) => match json_string_array(p@) {
                Some(v) => v,
                None => seq!["0.5"@, "0.5"@],
            },
            None => seq!["0.5"@, "0.5"@],
        },
{
    let parsed = match outcome_prices {
        Some(p) => parse_json_string_array(p),
        None => None,
    };
    match parsed {
        Some(v) => v,
        None => {
            let mut v: Vec<String> = Vec::new();
            v.push("0.5".to_string());
            v.push("0.5".to_string());
            assert(v@.map_values(|s: String| s@) =~= seq!["0.5"@, "0.5"@]);
            v
        },
    }
}

/// The labels of a listed market: the asset in upper case, the category
/// `{ASSET} {timeframe}`, and the status `active`.
pub fn listing_labels(asset: &str, timeframe: &str) -> (l: (String, String, String))
    ensures
        l.0@ == unicode_upper(asset@),
        l.1@ == unicode_upper(asset@) + " "@ + timeframe@,
        l.2@ == "active"@,
{
    let upper = str_to_uppercase(asset);
    let mut category = str_to_uppercase(asset);
    category.append(" ");
    category.append(timeframe);
    (upper, category, "active".to_string())
}

/// The token of a price request: it must be given and non-empty.
pub fn required_token_id(token_id: Option<String>) -> (res: Result<String, String>)
    ensures
        match token_id {
            Some(t) if t@.len() > 0 => res == Ok::<String, String>(t),
            _ => res matches Err(e) && e@ == "token_id required"@,
        },
{
    match token_id {
        Some(t) => {
            if t.as_str().is_empty() {
                Err("token_id required".to_string())
            } else {
                Ok(t)
            }
        },
        None => Err("token_id required".to_string()),
    }
}

} // verus!
