//! Stored records and the default bot fleet.

use crate::text::str_eq;
use vstd::prelude::*;
use vstd::string::*;
use vstd::utf8::*;

verus! {

/// A stored API key (one named value of a user).
#[derive(Debug, Clone)]
pub struct ApiKeyRecord {
    pub key_name: String,
    pub key_value: String,
    pub is_valid: bool,
    pub created_at: String,
    pub last_validated: String,
}

/// Length in bytes of a string, as `str::len` returns it.
pub open spec fn byte_len(s: Seq<char>) -> usize {
    encode_utf8(s).len() as usize
}

/// The value of the first record with the given key name, if any.
pub open spec fn lookup_key(keys: Seq<ApiKeyRecord>, name: Seq<char>) -> Option<Seq<char>>
    decreases keys.len(),
{
    if keys.len() == 0 {
        None
    } else if keys[0].key_name@ == name {
        Some(keys[0].key_value@)
    } else {
        lookup_key(keys.drop_first(), name)
    }
}

/// Whether record `i` is the first one stored under `name`.
pub open spec fn first_named(keys: Seq<ApiKeyRecord>, name: Seq<char>, i: int) -> bool {
    &&& 0 <= i < keys.len()
    &&& keys[i].key_name@ == name
    &&& forall|j: int| 0 <= j < i ==> (#[trigger] keys[j]).key_name@ != name
}

/// Looking a name up gives the value of the first record stored under that
/// name, and nothing when no record has it.
pub proof fn lemma_lookup_key_first(keys: Seq<ApiKeyRecord>, name: Seq<char>)
    ensures
        lookup_key(keys, name) is None <==> forall|i: int|
            0 <= i < keys.len() ==> (#[trigger] keys[i]).key_name@ != name,
        forall|i: int| #[trigger] first_named(keys, name, i) ==> lookup_key(keys, name) == Some(keys[i].key_value@),
        lookup_key(keys, name) matches Some(v) ==> exists|i: int|
            #[trigger] first_named(keys, name, i) && v == keys[i].key_value@,
    decreases keys.len(),
{
    if keys.len() > 0 {
        let rest = keys.drop_first();
        lemma_lookup_key_first(rest, name);
        assert(forall|i: int| 0 <= i < rest.len() ==> #[trigger] rest[i] == keys[i + 1]);
        if keys[0].key_name@ == name {
            assert(first_named(keys, name, 0));
            assert forall|i: int| #[trigger] first_named(keys, name, i) implies i == 0 by {
                if i > 0 {
                    assert(keys[0].key_name@ != name);
                }
            }
        } else {
            assert forall|i: int| #[trigger] first_named(keys, name, i) implies first_named(rest, name, i - 1) by {
                assert forall|j: int| 0 <= j < i - 1 implies (#[trigger] rest[j]).key_name@ != name by {
                    assert(keys[j + 1].key_name@ != name);
                }
            }
            if lookup_key(keys, name) is None {
                assert forall|i: int| 0 <= i < keys.len() implies (#[trigger] keys[i]).key_name@ != name by {
                    if i > 0 {
                        assert(rest[i - 1].key_name@ != name);
                    }
                }
            } else {
                let k = choose|k: int| #[trigger] first_named(rest, name, k) && lookup_key(keys, name)->0 == rest[k].key_value@;
                assert forall|j: int| 0 <= j < k + 1 implies (#[trigger] keys[j]).key_name@ != name by {
                    if j > 0 {
                        assert(rest[j - 1].key_name@ != name);
                    }
                }
                assert(first_named(keys, name, k + 1));
            }
            if forall|i: int| 0 <= i < keys.len() ==> (#[trigger] keys[i]).key_name@ != name {
                assert forall|i: int| 0 <= i < rest.len() implies (#[trigger] rest[i]).key_name@ != name by {
                    assert(keys[i + 1].key_name@ != name);
                }
            }
        }
    }
}

/// The value of the first record named `name`.
pub fn find_key_value(keys: &Vec<ApiKeyRecord>, name: &str) -> (v: Option<String>)
    ensures
        match v {
            Some(s) => lookup_key(keys@, name@) == Some(s@),
            None => lookup_key(keys@, name@) is None,
        },
        v is None <==> forall|i: int| 0 <= i < keys@.len() ==> (#[trigger] keys@[i]).key_name@ != name@,
        forall|i: int| #[trigger] first_named(keys@, name@, i) ==> v is Some && v->0@ == keys@[i].key_value@,
{
    proof {
        lemma_lookup_key_first(keys@, name@);
    }
    let mut i: usize = 0;
    assert(keys@.subrange(0, keys@.len() as int) =~= keys@);
    while i < keys.len()
        invariant
            0 <= i <= keys@.len(),
            lookup_key(keys@, name@) == lookup_key(keys@.subrange(i as int, keys@.len() as int), name@),
        decreases keys@.len() - i,
    {
        proof {
            let rest = keys@.subrange(i as int, keys@.len() as int);
            assert(rest.drop_first() =~= keys@.subrange(i as int + 1, keys@.len() as int));
        }
        if str_eq(keys[i].key_name.as_str(), name) {
            proof {
                lemma_lookup_key_first(keys@, name@);
            }
            return Some(keys[i].key_value.clone());
        }
        i = i + 1;
    }
    proof {
        assert(keys@.subrange(i as int, keys@.len() as int) =~= Seq::<ApiKeyRecord>::empty());
    }
    None
}

/// The bots seeded for the first user, as (name, strategy type): one per
/// built-in strategy.
pub open spec fn default_fleet() -> Seq<(Seq<char>, Seq<char>)> {
    seq![
        ("Momentum"@, "momentum"@),
        ("Mean Reversion"@, "mean_reversion"@),
        ("Trend Follower"@, "trend"@),
        ("Contrarian"@, "contrarian"@),
        ("Volatility Breakout"@, "volatility_breakout"@),
        ("Oracle Lag"@, "binance_signal"@),
        ("Fair Value Arb"@, "fair_value"@),
        ("T-10 Sniper"@, "last_seconds_scalp"@),
        ("Window Delta"@, "window_delta"@),
        ("Binance Velocity"@, "binance_velocity"@),
        ("Smart Trend"@, "smart_trend"@),
        ("Ultra Low Entry"@, "ultra_low_entry"@),
        ("Trend Pullback"@, "trend_pullback"@),
        ("Price Reversion"@, "price_reversion"@),
        ("Sniper Value"@, "sniper_value"@),
    ]
}

/// A bot to seed: every seeded bot follows the automatic market with empty
/// parameters, in paper trading.
pub struct SeededBot {
    pub name: &'static str,
    pub strategy_type: &'static str,
    pub market_id: &'static str,
    pub params: &'static str,
    pub trading_mode: &'static str,
}

/// Whether a seeded bot is the fleet entry `entry`.
pub open spec fn seeds(bot: SeededBot, entry: (Seq<char>, Seq<char>)) -> bool {
    &&& bot.name@ == entry.0
    &&& bot.strategy_type@ == entry.1
    &&& bot.market_id@ == "auto"@
    &&& bot.params@ == "{}"@
    &&& bot.trading_mode@ == "paper"@
}

fn seeded(name: &'static str, strategy_type: &'static str) -> (b: SeededBot)
    ensures
        seeds(b, (name@, strategy_type@)),
{
    SeededBot { name, strategy_type, market_id: "auto", params: "{}", trading_mode: "paper" }
}

/// The number of bots a user has after seeding, from the number before:
/// a user without bots gets the whole fleet, any other user nothing.
pub open spec fn bots_after_seeding(existing: int) -> int {
    if existing > 0 {
        existing
    } else {
        existing + default_fleet().len()
    }
}

/// The default fleet runs fifteen different strategies under fifteen
/// different names: no strategy is seeded twice and no name is repeated.
pub proof fn lemma_fleet_distinct()
    ensures
        default_fleet().len() == 15,
        forall|i: int, j: int| 0 <= i < j < default_fleet().len() ==>
            #[trigger] default_fleet()[i].1 != #[trigger] default_fleet()[j].1,
        forall|i: int, j: int| 0 <= i < j < default_fleet().len() ==>
            #[trigger] default_fleet()[i].0 != #[trigger] default_fleet()[j].0,
{
    reveal_strlit("Momentum");
    reveal_strlit("momentum");
    reveal_strlit("Mean Reversion");
    reveal_strlit("mean_reversion");
    reveal_strlit("Trend Follower");
    reveal_strlit("trend");
    reveal_strlit("Contrarian");
    reveal_strlit("contrarian");
    reveal_strlit("Volatility Breakout");
    reveal_strlit("volatility_breakout");
    reveal_strlit("Oracle Lag");
    reveal_strlit("binance_signal");
    reveal_strlit("Fair Value Arb");
    reveal_strlit("fair_value");
    reveal_strlit("T-10 Sniper");
    reveal_strlit("last_seconds_scalp");
    reveal_strlit("Window Delta");
    reveal_strlit("window_delta");
    reveal_strlit("Binance Velocity");
    reveal_strlit("binance_velocity");
    reveal_strlit("Smart Trend");
    reveal_strlit("smart_trend");
    reveal_strlit("Ultra Low Entry");
    reveal_strlit("ultra_low_entry");
    reveal_strlit("Trend Pullback");
    reveal_strlit("trend_pullback");
    reveal_strlit("Price Reversion");
    reveal_strlit("price_reversion");
    reveal_strlit("Sniper Value");
    reveal_strlit("sniper_value");
    let f = default_fleet();
    assert forall|i: int, j: int| 0 <= i < j < f.len() implies f[i].1 != f[j].1 && f[i].0 != f[j].0 by {
        assert(f[i].1.len() != f[j].1.len() || f[i].1[0] != f[j].1[0] || f[i].1.last() != f[j].1.last());
        assert(f[i].0.len() != f[j].0.len() || f[i].0[0] != f[j].0[0] || f[i].0.last() != f[j].0.last());
    }
}

/// The bots to insert for a user who has `existing_bots` bots: the default
/// fleet for a user without bots, nothing otherwise.
pub fn seed_plan(existing_bots: i64) -> (bots: Vec<SeededBot>)
    ensures
        existing_bots > 0 ==> bots@.len() == 0,
        existing_bots <= 0 ==> bots@.len() == default_fleet().len(),
        existing_bots <= 0 ==> forall|i: int| 0 <= i < bots@.len() ==> seeds(#[trigger] bots@[i], default_fleet()[i]),
        existing_bots + bots@.len() == bots_after_seeding(existing_bots as int),
        existing_bots <= 0 ==> bots@[0].name@ == "Momentum"@ && bots@[0].strategy_type@ == "momentum"@,
        existing_bots <= 0 ==> bots@[1].name@ == "Mean Reversion"@ && bots@[1].strategy_type@ == "mean_reversion"@,
        existing_bots <= 0 ==> bots@[2].name@ == "Trend Follower"@ && bots@[2].strategy_type@ == "trend"@,
        existing_bots <= 0 ==> bots@[3].name@ == "Contrarian"@ && bots@[3].strategy_type@ == "contrarian"@,
        existing_bots <= 0 ==> bots@[4].name@ == "Volatility Breakout"@ && bots@[4].strategy_type@ == "volatility_breakout"@,
        existing_bots <= 0 ==> bots@[5].name@ == "Oracle Lag"@ && bots@[5].strategy_type@ == "binance_signal"@,
        existing_bots <= 0 ==> bots@[6].name@ == "Fair Value Arb"@ && bots@[6].strategy_type@ == "fair_value"@,
        existing_bots <= 0 ==> bots@[7].name@ == "T-10 Sniper"@ && bots@[7].strategy_type@ == "last_seconds_scalp"@,
        existing_bots <= 0 ==> bots@[8].name@ == "Window Delta"@ && bots@[8].strategy_type@ == "window_delta"@,
        existing_bots <= 0 ==> bots@[9].name@ == "Binance Velocity"@ && bots@[9].strategy_type@ == "binance_velocity"@,
        existing_bots <= 0 ==> bots@[10].name@ == "Smart Trend"@ && bots@[10].strategy_type@ == "smart_trend"@,
        existing_bots <= 0 ==> bots@[11].name@ == "Ultra Low Entry"@ && bots@[11].strategy_type@ == "ultra_low_entry"@,
        existing_bots <= 0 ==> bots@[12].name@ == "Trend Pullback"@ && bots@[12].strategy_type@ == "trend_pullback"@,
        existing_bots <= 0 ==> bots@[13].name@ == "Price Reversion"@ && bots@[13].strategy_type@ == "price_reversion"@,
        existing_bots <= 0 ==> bots@[14].name@ == "Sniper Value"@ && bots@[14].strategy_type@ == "sniper_value"@,
        forall|i: int, j: int| 0 <= i < j < bots@.len() ==>
            (#[trigger] bots@[i]).strategy_type@ != (#[trigger] bots@[j]).strategy_type@
                && bots@[i].name@ != bots@[j].name@,
{
    proof {
        lemma_fleet_distinct();
    }
    let mut bots: Vec<SeededBot> = Vec::new();
    if existing_bots > 0 {
        return bots;
    }
    bots.push(seeded("Momentum", "momentum"));
    bots.push(seeded("Mean Reversion", "mean_reversion"));
    bots.push(seeded("Trend Follower", "trend"));
    bots.push(seeded("Contrarian", "contrarian"));
    bots.push(seeded("Volatility Breakout", "volatility_breakout"));
    bots.push(seeded("Oracle Lag", "binance_signal"));
    bots.push(seeded("Fair Value Arb", "fair_value"));
    bots.push(seeded("T-10 Sniper", "last_seconds_scalp"));
    bots.push(seeded("Window Delta", "window_delta"));
    bots.push(seeded("Binance Velocity", "binance_velocity"));
    bots.push(seeded("Smart Trend", "smart_trend"));
    bots.push(seeded("Ultra Low Entry", "ultra_low_entry"));
    bots.push(seeded("Trend Pullback", "trend_pullback"));
    bots.push(seeded("Price Reversion", "price_reversion"));
    bots.push(seeded("Sniper Value", "sniper_value"));
    bots
}

/// Seeding is idempotent: a user without bots gets the fifteen default
/// bots, and seeding again adds nothing.
pub proof fn lemma_seeding_idempotent(existing: int)
    requires
        existing >= 0,
    ensures
        bots_after_seeding(bots_after_seeding(existing)) == bots_after_seeding(existing),
        existing == 0 ==> bots_after_seeding(existing) == 15,
{
}

} // verus!
