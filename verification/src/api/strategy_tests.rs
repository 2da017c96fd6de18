//! Strategy lab: the catalogue of strategies that can be tested.

use crate::text::ascii_upper;
use vstd::prelude::*;
use vstd::string::*;

verus! {

pub struct StrategiesResponse {
    pub strategies: Vec<StrategyInfo>,
}

/// One strategy of the catalogue, with the names of its tunable parameters.
pub struct StrategyInfo {
    pub id: String,
    pub name: String,
    pub description: String,
    pub params: Vec<String>,
}

/// The catalogue: id, display name and description of each strategy, in the
/// order in which it is listed.
pub open spec fn strategy_catalog() -> Seq<(Seq<char>, Seq<char>, Seq<char>)> {
    seq![
        ("window_delta"@, "Window Delta"@, "BTC price vs window opening"@),
        ("momentum"@, "Momentum"@, "BTC 24h change momentum"@),
        ("trend"@, "Trend"@, "BTC price trend following"@),
        ("volatility"@, "Volatility"@, "Volatility breakout"@),
        ("sniper"@, "Sniper"@, "Ultra-low entry sniper"@),
        ("contrarian"@, "Contrarian"@, "Counter-trend reversal"@),
        ("mean_reversion"@, "Mean Reversion"@, "Price deviation from mean"@),
        ("binance_velocity"@, "Binance Velocity"@, "BTC velocity + acceleration"@),
        ("fair_value"@, "Fair Value"@, "Delta-based fair probability"@),
        ("oracle_lag"@, "Oracle Lag"@, "CLOB vs spot delta"@),
    ]
}

/// The display name of a strategy id: underscores become spaces and each
/// word starts with a capital (`mean_reversion` is `Mean Reversion`).
pub open spec fn id_display_name(id: Seq<char>) -> Seq<char> {
    Seq::new(
        id.len(),
        |k: int|
            if id[k] == '_' {
                ' '
            } else if k == 0 || id[k - 1] == '_' {
                ascii_upper(id[k])
            } else {
                id[k]
            },
    )
}

/// Every strategy of the catalogue is listed under the display name of its
/// id, and no id is listed twice: choosing an entry by its name runs the
/// strategy of that name.
pub proof fn lemma_catalog_names_match_ids()
    ensures
        forall|i: int| 0 <= i < strategy_catalog().len() ==>
            #[trigger] strategy_catalog()[i].1 == id_display_name(strategy_catalog()[i].0),
        forall|i: int, j: int| 0 <= i < j < strategy_catalog().len() ==>
            #[trigger] strategy_catalog()[i].0 != #[trigger] strategy_catalog()[j].0,
{
    reveal_strlit("window_delta");
    reveal_strlit("Window Delta");
    reveal_strlit("momentum");
    reveal_strlit("Momentum");
    reveal_strlit("trend");
    reveal_strlit("Trend");
    reveal_strlit("volatility");
    reveal_strlit("Volatility");
    reveal_strlit("sniper");
    reveal_strlit("Sniper");
    reveal_strlit("contrarian");
    reveal_strlit("Contrarian");
    reveal_strlit("mean_reversion");
    reveal_strlit("Mean Reversion");
    reveal_strlit("binance_velocity");
    reveal_strlit("Binance Velocity");
    reveal_strlit("fair_value");
    reveal_strlit("Fair Value");
    reveal_strlit("oracle_lag");
    reveal_strlit("Oracle Lag");
    let c = strategy_catalog();
    assert(id_display_name(c[0].0) =~= c[0].1);
    assert(id_display_name(c[1].0) =~= c[1].1);
    assert(id_display_name(c[2].0) =~= c[2].1);
    assert(id_display_name(c[3].0) =~= c[3].1);
    assert(id_display_name(c[4].0) =~= c[4].1);
    assert(id_display_name(c[5].0) =~= c[5].1);
    assert(id_display_name(c[6].0) =~= c[6].1);
    assert(id_display_name(c[7].0) =~= c[7].1);
    assert(id_display_name(c[8].0) =~= c[8].1);
    assert(id_display_name(c[9].0) =~= c[9].1);
    assert forall|i: int, j: int| 0 <= i < j < c.len() implies c[i].0 != c[j].0 by {
        assert(c[i].0.len() != c[j].0.len() || c[i].0[0] != c[j].0[0]);
    }
}

/// The parameters every strategy of the catalogue takes.
pub open spec fn strategy_params() -> Seq<Seq<char>> {
    seq!["min_delta"@, "min_price"@, "max_price"@]
}

/// Whether an entry lists the given strategy with the common parameters.
pub open spec fn describes(info: StrategyInfo, entry: (Seq<char>, Seq<char>, Seq<char>)) -> bool {
    &&& info.id@ == entry.0
    &&& info.name@ == entry.1
    &&& info.description@ == entry.2
    &&& info.params@.len() == 3
    &&& forall|k: int| 0 <= k < 3 ==> #[trigger] info.params@[k]@ == strategy_params()[k]
}

fn info(id: &str, name: &str, description: &str) -> (s: StrategyInfo)
    ensures
        describes(s, (id@, name@, description@)),
{
    let mut params: Vec<String> = Vec::new();
    params.push("min_delta".to_string());
    params.push("min_price".to_string());
    params.push("max_price".to_string());
    StrategyInfo { id: id.to_string(), name: name.to_string(), description: description.to_string(), params }
}

/// The strategies available for testing.
pub fn list_strategies() -> (r: StrategiesResponse)
    ensures
        r.strategies@.len() == strategy_catalog().len(),
        forall|i: int| 0 <= i < r.strategies@.len() ==> describes(#[trigger] r.strategies@[i], strategy_catalog()[i]),
        forall|i: int| 0 <= i < r.strategies@.len() ==>
            (#[trigger] r.strategies@[i]).name@ == id_display_name(r.strategies@[i].id@),
        r.strategies@[0].id@ == "window_delta"@ && r.strategies@[0].name@ == "Window Delta"@
            && r.strategies@[0].description@ == "BTC price vs window opening"@,
        r.strategies@[1].id@ == "momentum"@ && r.strategies@[1].name@ == "Momentum"@
            && r.strategies@[1].description@ == "BTC 24h change momentum"@,
        r.strategies@[2].id@ == "trend"@ && r.strategies@[2].name@ == "Trend"@
            && r.strategies@[2].description@ == "BTC price trend following"@,
        r.strategies@[3].id@ == "volatility"@ && r.strategies@[3].name@ == "Volatility"@
            && r.strategies@[3].description@ == "Volatility breakout"@,
        r.strategies@[4].id@ == "sniper"@ && r.strategies@[4].name@ == "Sniper"@
            && r.strategies@[4].description@ == "Ultra-low entry sniper"@,
        r.strategies@[5].id@ == "contrarian"@ && r.strategies@[5].name@ == "Contrarian"@
            && r.strategies@[5].description@ == "Counter-trend reversal"@,
        r.strategies@[6].id@ == "mean_reversion"@ && r.strategies@[6].name@ == "Mean Reversion"@
            && r.strategies@[6].description@ == "Price deviation from mean"@,
        r.strategies@[7].id@ == "binance_velocity"@ && r.strategies@[7].name@ == "Binance Velocity"@
            && r.strategies@[7].description@ == "BTC velocity + acceleration"@,
        r.strategies@[8].id@ == "fair_value"@ && r.strategies@[8].name@ == "Fair Value"@
            && r.strategies@[8].description@ == "Delta-based fair probability"@,
        r.strategies@[9].id@ == "oracle_lag"@ && r.strategies@[9].name@ == "Oracle Lag"@
            && r.strategies@[9].description@ == "CLOB vs spot delta"@,
{
    proof {
        lemma_catalog_names_match_ids();
    }
    let mut v: Vec<StrategyInfo> = Vec::new();
    v.push(info("window_delta", "Window Delta", "BTC price vs window opening"));
    v.push(info("momentum", "Momentum", "BTC 24h change momentum"));
    v.push(info("trend", "Trend", "BTC price trend following"));
    v.push(info("volatility", "Volatility", "Volatility breakout"));
    v.push(info("sniper", "Sniper", "Ultra-low entry sniper"));
    v.push(info("contrarian", "Contrarian", "Counter-trend reversal"));
    v.push(info("mean_reversion", "Mean Reversion", "Price deviation from mean"));
    v.push(info("binance_velocity", "Binance Velocity", "BTC velocity + acceleration"));
    v.push(info("fair_value", "Fair Value", "Delta-based fair probability"));
    v.push(info("oracle_lag", "Oracle Lag", "CLOB vs spot delta"));
    StrategiesResponse { strategies: v }
}

} // verus!
