//! Market regime and how well each strategy suits it.

use crate::api::strategy_tests::id_display_name;
use crate::text::str_eq;
use vstd::prelude::*;

verus! {

/// The regime the BTC market is in.
#[derive(Debug, Clone, Copy, PartialEq, Eq, Structural)]
pub enum MarketRegime {
    Trending,
    Ranging,
    Volatile,
    Unknown,
}

/// Display name of a strategy type; unknown types are shown as they are.
pub open spec fn strategy_display_name(strategy: Seq<char>) -> Seq<char> {
    if strategy == "momentum"@ {
        "Momentum"@
    } else if strategy == "momentum_v2"@ {
        "Momentum V2"@
    } else if strategy == "strict_momentum"@ {
        "Strict Momentum"@
    } else if strategy == "trend"@ {
        "Trend"@
    } else if strategy == "trend_pullback"@ {
        "Trend Pullback"@
    } else {
        strategy_display_name_1(strategy)
    }
}

/// Continues [`strategy_display_name`] with the next strategy types.
pub open spec fn strategy_display_name_1(strategy: Seq<char>) -> Seq<char> {
    if strategy == "contrarian"@ {
        "Contrarian"@
    } else if strategy == "mean_reversion"@ {
        "Mean Reversion"@
    } else if strategy == "mean_reversion_v2"@ {
        "Mean Reversion V2"@
    } else if strategy == "volatility"@ {
        "Volatility"@
    } else if strategy == "volatility_filtered"@ {
        "Volatility Filtered"@
    } else {
        strategy_display_name_2(strategy)
    }
}

/// Continues [`strategy_display_name`] with the next strategy types.
pub open spec fn strategy_display_name_2(strategy: Seq<char>) -> Seq<char> {
    if strategy == "sniper"@ {
        "Sniper"@
    } else if strategy == "sniper_value"@ {
        "Sniper Value"@
    } else if strategy == "sniper_arb"@ {
        "Sniper Arb"@
    } else if strategy == "edge_hunter"@ {
        "Edge Hunter"@
    } else if strategy == "extreme_edge"@ {
        "Extreme Edge"@
    } else {
        strategy_display_name_3(strategy)
    }
}

/// Continues [`strategy_display_name`] with the next strategy types.
pub open spec fn strategy_display_name_3(strategy: Seq<char>) -> Seq<char> {
    if strategy == "binance_velocity"@ {
        "Binance Velocity"@
    } else if strategy == "binance_velocity_v2"@ {
        "Binance Velocity V2"@
    } else if strategy == "fair_value"@ {
        "Fair Value"@
    } else if strategy == "oracle_lag"@ {
        "Oracle Lag"@
    } else if strategy == "oracle_lag_v2"@ {
        "Oracle Lag V2"@
    } else {
        strategy_display_name_4(strategy)
    }
}

/// Continues [`strategy_display_name`] with the next strategy types.
pub open spec fn strategy_display_name_4(strategy: Seq<char>) -> Seq<char> {
    if strategy == "low_volatility_edge"@ {
        "Low Vol Edge"@
    } else if strategy == "patient_waiter"@ {
        "Patient Waiter"@
    } else if strategy == "ultra_low_entry"@ {
        "Ultra Low Entry"@
    } else if strategy == "odds_swing"@ {
        "Odds Swing"@
    } else if strategy == "price_reversion"@ {
        "Price Reversion"@
    } else {
        strategy_display_name_5(strategy)
    }
}

/// Continues [`strategy_display_name`] with the next strategy types.
pub open spec fn strategy_display_name_5(strategy: Seq<char>) -> Seq<char> {
    if strategy == "price_reversion_v2"@ {
        "Price Reversion V2"@
    } else {
        strategy
    }
}

/// Every known strategy type but `low_volatility_edge` (shown as
/// `Low Vol Edge`) is shown under the display name of its id: underscores
/// become spaces and each word starts with a capital. Unknown types are
/// shown as they are.
pub proof fn lemma_display_names_follow_ids(strategy: Seq<char>)
    ensures
        strategy_display_name(strategy) == strategy
            || strategy == "low_volatility_edge"@
            || strategy_display_name(strategy) == id_display_name(strategy),
        strategy == "low_volatility_edge"@ ==> strategy_display_name(strategy) == "Low Vol Edge"@,
{
    reveal_strlit("low_volatility_edge");
    reveal_strlit("Low Vol Edge");
    reveal_strlit("momentum");
    reveal_strlit("Momentum");
    reveal_strlit("momentum_v2");
    reveal_strlit("Momentum V2");
    reveal_strlit("strict_momentum");
    reveal_strlit("Strict Momentum");
    reveal_strlit("trend");
    reveal_strlit("Trend");
    reveal_strlit("trend_pullback");
    reveal_strlit("Trend Pullback");
    reveal_strlit("contrarian");
    reveal_strlit("Contrarian");
    reveal_strlit("mean_reversion");
    reveal_strlit("Mean Reversion");
    reveal_strlit("mean_reversion_v2");
    reveal_strlit("Mean Reversion V2");
    reveal_strlit("volatility");
    reveal_strlit("Volatility");
    reveal_strlit("volatility_filtered");
    reveal_strlit("Volatility Filtered");
    reveal_strlit("sniper");
    reveal_strlit("Sniper");
    reveal_strlit("sniper_value");
    reveal_strlit("Sniper Value");
    reveal_strlit("sniper_arb");
    reveal_strlit("Sniper Arb");
    reveal_strlit("edge_hunter");
    reveal_strlit("Edge Hunter");
    reveal_strlit("extreme_edge");
    reveal_strlit("Extreme Edge");
    reveal_strlit("binance_velocity");
    reveal_strlit("Binance Velocity");
    reveal_strlit("binance_velocity_v2");
    reveal_strlit("Binance Velocity V2");
    reveal_strlit("fair_value");
    reveal_strlit("Fair Value");
    reveal_strlit("oracle_lag");
    reveal_strlit("Oracle Lag");
    reveal_strlit("oracle_lag_v2");
    reveal_strlit("Oracle Lag V2");
    reveal_strlit("patient_waiter");
    reveal_strlit("Patient Waiter");
    reveal_strlit("ultra_low_entry");
    reveal_strlit("Ultra Low Entry");
    reveal_strlit("odds_swing");
    reveal_strlit("Odds Swing");
    reveal_strlit("price_reversion");
    reveal_strlit("Price Reversion");
    reveal_strlit("price_reversion_v2");
    reveal_strlit("Price Reversion V2");
    assert(id_display_name("momentum"@) =~= "Momentum"@);
    assert(id_display_name("momentum_v2"@) =~= "Momentum V2"@);
    assert(id_display_name("strict_momentum"@) =~= "Strict Momentum"@);
    assert(id_display_name("trend"@) =~= "Trend"@);
    assert(id_display_name("trend_pullback"@) =~= "Trend Pullback"@);
    assert(id_display_name("contrarian"@) =~= "Contrarian"@);
    assert(id_display_name("mean_reversion"@) =~= "Mean Reversion"@);
    assert(id_display_name("mean_reversion_v2"@) =~= "Mean Reversion V2"@);
    assert(id_display_name("volatility"@) =~= "Volatility"@);
    assert(id_display_name("volatility_filtered"@) =~= "Volatility Filtered"@);
    assert(id_display_name("sniper"@) =~= "Sniper"@);
    assert(id_display_name("sniper_value"@) =~= "Sniper Value"@);
    assert(id_display_name("sniper_arb"@) =~= "Sniper Arb"@);
    assert(id_display_name("edge_hunter"@) =~= "Edge Hunter"@);
    assert(id_display_name("extreme_edge"@) =~= "Extreme Edge"@);
    assert(id_display_name("binance_velocity"@) =~= "Binance Velocity"@);
    assert(id_display_name("binance_velocity_v2"@) =~= "Binance Velocity V2"@);
    assert(id_display_name("fair_value"@) =~= "Fair Value"@);
    assert(id_display_name("oracle_lag"@) =~= "Oracle Lag"@);
    assert(id_display_name("oracle_lag_v2"@) =~= "Oracle Lag V2"@);
    assert(id_display_name("patient_waiter"@) =~= "Patient Waiter"@);
    assert(id_display_name("ultra_low_entry"@) =~= "Ultra Low Entry"@);
    assert(id_display_name("odds_swing"@) =~= "Odds Swing"@);
    assert(id_display_name("price_reversion"@) =~= "Price Reversion"@);
    assert(id_display_name("price_reversion_v2"@) =~= "Price Reversion V2"@);
    assert("low_volatility_edge"@[0] != "volatility_filtered"@[0]);
    assert("low_volatility_edge"@[0] != "binance_velocity_v2"@[0]);
}

/// Display name of a strategy type; unknown types are shown as they are.
pub fn strategy_name(strategy: &str) -> (name: &str)
    ensures
        name@ == strategy_display_name(strategy@),
        name@ == strategy@ || strategy@ == "low_volatility_edge"@ || name@ == id_display_name(strategy@),
        strategy@ == "low_volatility_edge"@ ==> name@ == "Low Vol Edge"@,
{
    proof {
        lemma_display_names_follow_ids(strategy@);
    }
    if str_eq(strategy, "momentum") {
        return "Momentum";
    }
    if str_eq(strategy, "momentum_v2") {
        return "Momentum V2";
    }
    if str_eq(strategy, "strict_momentum") {
        return "Strict Momentum";
    }
    if str_eq(strategy, "trend") {
        return "Trend";
    }
    if str_eq(strategy, "trend_pullback") {
        return "Trend Pullback";
    }
    if str_eq(strategy, "contrarian") {
        return "Contrarian";
    }
    if str_eq(strategy, "mean_reversion") {
        return "Mean Reversion";
    }
    if str_eq(strategy, "mean_reversion_v2") {
        return "Mean Reversion V2";
    }
    if str_eq(strategy, "volatility") {
        return "Volatility";
    }
    if str_eq(strategy, "volatility_filtered") {
        return "Volatility Filtered";
    }
    if str_eq(strategy, "sniper") {
        return "Sniper";
    }
    if str_eq(strategy, "sniper_value") {
        return "Sniper Value";
    }
    if str_eq(strategy, "sniper_arb") {
        return "Sniper Arb";
    }
    if str_eq(strategy, "edge_hunter") {
        return "Edge Hunter";
    }
    if str_eq(strategy, "extreme_edge") {
        return "Extreme Edge";
    }
    if str_eq(strategy, "binance_velocity") {
        return "Binance Velocity";
    }
    if str_eq(strategy, "binance_velocity_v2") {
        return "Binance Velocity V2";
    }
    if str_eq(strategy, "fair_value") {
        return "Fair Value";
    }
    if str_eq(strategy, "oracle_lag") {
        return "Oracle Lag";
    }
    if str_eq(strategy, "oracle_lag_v2") {
        return "Oracle Lag V2";
    }
    if str_eq(strategy, "low_volatility_edge") {
        return "Low Vol Edge";
    }
    if str_eq(strategy, "patient_waiter") {
        return "Patient Waiter";
    }
    if str_eq(strategy, "ultra_low_entry") {
        return "Ultra Low Entry";
    }
    if str_eq(strategy, "odds_swing") {
        return "Odds Swing";
    }
    if str_eq(strategy, "price_reversion") {
        return "Price Reversion";
    }
    if str_eq(strategy, "price_reversion_v2") {
        return "Price Reversion V2";
    }
    strategy
}

/// Why a strategy suits a regime, for the pairs that match; a generic
/// phrase otherwise.
pub open spec fn match_reason(strategy: Seq<char>, regime: MarketRegime) -> Seq<char> {
    if (strategy == "momentum"@ || strategy == "momentum_v2"@ || strategy == "strict_momentum"@) && regime == MarketRegime::Trending {
        "eros trend -> momentum kovetes"@
    } else if (strategy == "trend"@ || strategy == "trend_pullback"@) && regime == MarketRegime::Trending {
        "trend folytatasa varhato"@
    } else if (strategy == "contrarian"@) && regime == MarketRegime::Ranging {
        "oldalazas -> visszafordulasok"@
    } else if (strategy == "edge_hunter"@ || strategy == "extreme_edge"@) && regime == MarketRegime::Ranging {
        "kis mozgasok -> elvadaszat"@
    } else if (strategy == "mean_reversion"@ || strategy == "mean_reversion_v2"@) && regime == MarketRegime::Ranging {
        "atlagoz visszateres"@
    } else if (strategy == "volatility"@ || strategy == "volatility_filtered"@) && regime == MarketRegime::Volatile {
        "nagy hullamzas -> kitores"@
    } else if (strategy == "sniper"@ || strategy == "sniper_value"@) && regime == MarketRegime::Volatile {
        "gyors belepes nagy mozgasnal"@
    } else if (strategy == "binance_velocity"@ || strategy == "binance_velocity_v2"@) && regime == MarketRegime::Volatile {
        "sebesseg kihasznalasa"@
    } else {
        "altalanos illeszkeredes"@
    }
}

/// A strategy gets a reason of its own in at most one regime, never when
/// the regime is unknown, and never when it is not a known strategy type (one
/// shown under its own id); everything else gets the generic phrase.
pub proof fn lemma_match_reason_specific(strategy: Seq<char>, r1: MarketRegime, r2: MarketRegime)
    ensures
        match_reason(strategy, MarketRegime::Unknown) == "altalanos illeszkeredes"@,
        strategy_display_name(strategy) == strategy ==> match_reason(strategy, r1) == "altalanos illeszkeredes"@,
        match_reason(strategy, r1) != "altalanos illeszkeredes"@
            && match_reason(strategy, r2) != "altalanos illeszkeredes"@ ==> r1 == r2,
{
    reveal_strlit("altalanos illeszkeredes");
    reveal_strlit("atlagoz visszateres");
    reveal_strlit("eros trend -> momentum kovetes");
    reveal_strlit("gyors belepes nagy mozgasnal");
    reveal_strlit("kis mozgasok -> elvadaszat");
    reveal_strlit("nagy hullamzas -> kitores");
    reveal_strlit("oldalazas -> visszafordulasok");
    reveal_strlit("sebesseg kihasznalasa");
    reveal_strlit("trend folytatasa varhato");
    reveal_strlit("sniper_arb");
    reveal_strlit("fair_value");
    reveal_strlit("oracle_lag");
    reveal_strlit("oracle_lag_v2");
    reveal_strlit("low_volatility_edge");
    reveal_strlit("patient_waiter");
    reveal_strlit("ultra_low_entry");
    reveal_strlit("odds_swing");
    reveal_strlit("price_reversion");
    reveal_strlit("price_reversion_v2");
    reveal_strlit("binance_velocity");
    reveal_strlit("Binance Velocity");
    reveal_strlit("binance_velocity_v2");
    reveal_strlit("Binance Velocity V2");
    reveal_strlit("contrarian");
    reveal_strlit("Contrarian");
    reveal_strlit("edge_hunter");
    reveal_strlit("Edge Hunter");
    reveal_strlit("extreme_edge");
    reveal_strlit("Extreme Edge");
    reveal_strlit("mean_reversion");
    reveal_strlit("Mean Reversion");
    reveal_strlit("mean_reversion_v2");
    reveal_strlit("Mean Reversion V2");
    reveal_strlit("momentum");
    reveal_strlit("Momentum");
    reveal_strlit("momentum_v2");
    reveal_strlit("Momentum V2");
    reveal_strlit("sniper");
    reveal_strlit("Sniper");
    reveal_strlit("sniper_value");
    reveal_strlit("Sniper Value");
    reveal_strlit("strict_momentum");
    reveal_strlit("Strict Momentum");
    reveal_strlit("trend");
    reveal_strlit("Trend");
    reveal_strlit("trend_pullback");
    reveal_strlit("Trend Pullback");
    reveal_strlit("volatility");
    reveal_strlit("Volatility");
    reveal_strlit("volatility_filtered");
    reveal_strlit("Volatility Filtered");
    assert(strategy_display_name("binance_velocity"@) != "binance_velocity"@) by {
        assert("Binance Velocity"@[0] != "binance_velocity"@[0]);
    }
    assert(strategy_display_name("binance_velocity_v2"@) != "binance_velocity_v2"@) by {
        assert("Binance Velocity V2"@[0] != "binance_velocity_v2"@[0]);
    }
    assert(strategy_display_name("contrarian"@) != "contrarian"@) by {
        assert("Contrarian"@[0] != "contrarian"@[0]);
    }
    assert(strategy_display_name("edge_hunter"@) != "edge_hunter"@) by {
        assert("Edge Hunter"@[0] != "edge_hunter"@[0]);
    }
    assert(strategy_display_name("extreme_edge"@) != "extreme_edge"@) by {
        assert("Extreme Edge"@[0] != "extreme_edge"@[0]);
    }
    assert(strategy_display_name("mean_reversion"@) != "mean_reversion"@) by {
        assert("Mean Reversion"@[0] != "mean_reversion"@[0]);
    }
    assert(strategy_display_name("mean_reversion_v2"@) != "mean_reversion_v2"@) by {
        assert("Mean Reversion V2"@[0] != "mean_reversion_v2"@[0]);
    }
    assert(strategy_display_name("momentum"@) != "momentum"@) by {
        assert("Momentum"@[0] != "momentum"@[0]);
    }
    assert(strategy_display_name("momentum_v2"@) != "momentum_v2"@) by {
        assert("Momentum V2"@[0] != "momentum_v2"@[0]);
    }
    assert(strategy_display_name("sniper"@) != "sniper"@) by {
        assert("Sniper"@[0] != "sniper"@[0]);
    }
    assert(strategy_display_name("sniper_value"@) != "sniper_value"@) by {
        assert("Sniper Value"@[0] != "sniper_value"@[0]);
    }
    assert(strategy_display_name("strict_momentum"@) != "strict_momentum"@) by {
        assert("Strict Momentum"@[0] != "strict_momentum"@[0]);
    }
    assert(strategy_display_name("trend"@) != "trend"@) by {
        assert("Trend"@[0] != "trend"@[0]);
    }
    assert(strategy_display_name("trend_pullback"@) != "trend_pullback"@) by {
        assert("Trend Pullback"@[0] != "trend_pullback"@[0]);
    }
    assert(strategy_display_name("volatility"@) != "volatility"@) by {
        assert("Volatility"@[0] != "volatility"@[0]);
    }
    assert(strategy_display_name("volatility_filtered"@) != "volatility_filtered"@) by {
        assert("Volatility Filtered"@[0] != "volatility_filtered"@[0]);
    }
    assert("binance_velocity_v2"@[0] != "volatility_filtered"@[0]);
    assert("contrarian"@[0] != "volatility"@[0]);
    assert("edge_hunter"@[0] != "momentum_v2"@[0]);
    assert("extreme_edge"@[0] != "sniper_value"@[0]);
    assert("mean_reversion"@[0] != "trend_pullback"@[0]);
    let g = "altalanos illeszkeredes"@;
    let trending = strategy == "momentum"@ || strategy == "momentum_v2"@ || strategy == "strict_momentum"@
        || strategy == "trend"@ || strategy == "trend_pullback"@;
    let ranging = strategy == "contrarian"@ || strategy == "edge_hunter"@ || strategy == "extreme_edge"@
        || strategy == "mean_reversion"@ || strategy == "mean_reversion_v2"@;
    let volatile = strategy == "volatility"@ || strategy == "volatility_filtered"@ || strategy == "sniper"@
        || strategy == "sniper_value"@ || strategy == "binance_velocity"@ || strategy == "binance_velocity_v2"@;
    assert(match_reason(strategy, MarketRegime::Trending) != g ==> trending);
    assert(match_reason(strategy, MarketRegime::Ranging) != g ==> ranging);
    assert(match_reason(strategy, MarketRegime::Volatile) != g ==> volatile);
    assert(!(trending && ranging)) by {
        assert("momentum"@[0] != "contrarian"@[0]);
        assert("momentum"@[0] != "edge_hunter"@[0]);
        assert("momentum"@[0] != "extreme_edge"@[0]);
        assert("momentum"@[1] != "mean_reversion"@[1]);
        assert("momentum"@[1] != "mean_reversion_v2"@[1]);
        assert("momentum_v2"@[0] != "contrarian"@[0]);
        assert("momentum_v2"@[0] != "edge_hunter"@[0]);
        assert("momentum_v2"@[0] != "extreme_edge"@[0]);
        assert("momentum_v2"@[1] != "mean_reversion"@[1]);
        assert("momentum_v2"@[1] != "mean_reversion_v2"@[1]);
        assert("strict_momentum"@[0] != "contrarian"@[0]);
        assert("strict_momentum"@[0] != "edge_hunter"@[0]);
        assert("strict_momentum"@[0] != "extreme_edge"@[0]);
        assert("strict_momentum"@[0] != "mean_reversion"@[0]);
        assert("strict_momentum"@[0] != "mean_reversion_v2"@[0]);
        assert("trend"@[0] != "contrarian"@[0]);
        assert("trend"@[0] != "edge_hunter"@[0]);
        assert("trend"@[0] != "extreme_edge"@[0]);
        assert("trend"@[0] != "mean_reversion"@[0]);
        assert("trend"@[0] != "mean_reversion_v2"@[0]);
        assert("trend_pullback"@[0] != "contrarian"@[0]);
        assert("trend_pullback"@[0] != "edge_hunter"@[0]);
        assert("trend_pullback"@[0] != "extreme_edge"@[0]);
        assert("trend_pullback"@[0] != "mean_reversion"@[0]);
        assert("trend_pullback"@[0] != "mean_reversion_v2"@[0]);
    }
    assert(!(trending && volatile)) by {
        assert("momentum"@[0] != "volatility"@[0]);
        assert("momentum"@[0] != "volatility_filtered"@[0]);
        assert("momentum"@[0] != "sniper"@[0]);
        assert("momentum"@[0] != "sniper_value"@[0]);
        assert("momentum"@[0] != "binance_velocity"@[0]);
        assert("momentum"@[0] != "binance_velocity_v2"@[0]);
        assert("momentum_v2"@[0] != "volatility"@[0]);
        assert("momentum_v2"@[0] != "volatility_filtered"@[0]);
        assert("momentum_v2"@[0] != "sniper"@[0]);
        assert("momentum_v2"@[0] != "sniper_value"@[0]);
        assert("momentum_v2"@[0] != "binance_velocity"@[0]);
        assert("momentum_v2"@[0] != "binance_velocity_v2"@[0]);
        assert("strict_momentum"@[0] != "volatility"@[0]);
        assert("strict_momentum"@[0] != "volatility_filtered"@[0]);
        assert("strict_momentum"@[1] != "sniper"@[1]);
        assert("strict_momentum"@[1] != "sniper_value"@[1]);
        assert("strict_momentum"@[0] != "binance_velocity"@[0]);
        assert("strict_momentum"@[0] != "binance_velocity_v2"@[0]);
        assert("trend"@[0] != "volatility"@[0]);
        assert("trend"@[0] != "volatility_filtered"@[0]);
        assert("trend"@[0] != "sniper"@[0]);
        assert("trend"@[0] != "sniper_value"@[0]);
        assert("trend"@[0] != "binance_velocity"@[0]);
        assert("trend"@[0] != "binance_velocity_v2"@[0]);
        assert("trend_pullback"@[0] != "volatility"@[0]);
        assert("trend_pullback"@[0] != "volatility_filtered"@[0]);
        assert("trend_pullback"@[0] != "sniper"@[0]);
        assert("trend_pullback"@[0] != "sniper_value"@[0]);
        assert("trend_pullback"@[0] != "binance_velocity"@[0]);
        assert("trend_pullback"@[0] != "binance_velocity_v2"@[0]);
    }
    assert(!(ranging && volatile)) by {
        assert("contrarian"@[0] != "volatility"@[0]);
        assert("contrarian"@[0] != "volatility_filtered"@[0]);
        assert("contrarian"@[0] != "sniper"@[0]);
        assert("contrarian"@[0] != "sniper_value"@[0]);
        assert("contrarian"@[0] != "binance_velocity"@[0]);
        assert("contrarian"@[0] != "binance_velocity_v2"@[0]);
        assert("edge_hunter"@[0] != "volatility"@[0]);
        assert("edge_hunter"@[0] != "volatility_filtered"@[0]);
        assert("edge_hunter"@[0] != "sniper"@[0]);
        assert("edge_hunter"@[0] != "sniper_value"@[0]);
        assert("edge_hunter"@[0] != "binance_velocity"@[0]);
        assert("edge_hunter"@[0] != "binance_velocity_v2"@[0]);
        assert("extreme_edge"@[0] != "volatility"@[0]);
        assert("extreme_edge"@[0] != "volatility_filtered"@[0]);
        assert("extreme_edge"@[0] != "sniper"@[0]);
        assert("extreme_edge"@[0] != "sniper_value"@[0]);
        assert("extreme_edge"@[0] != "binance_velocity"@[0]);
        assert("extreme_edge"@[0] != "binance_velocity_v2"@[0]);
        assert("mean_reversion"@[0] != "volatility"@[0]);
        assert("mean_reversion"@[0] != "volatility_filtered"@[0]);
        assert("mean_reversion"@[0] != "sniper"@[0]);
        assert("mean_reversion"@[0] != "sniper_value"@[0]);
        assert("mean_reversion"@[0] != "binance_velocity"@[0]);
        assert("mean_reversion"@[0] != "binance_velocity_v2"@[0]);
        assert("mean_reversion_v2"@[0] != "volatility"@[0]);
        assert("mean_reversion_v2"@[0] != "volatility_filtered"@[0]);
        assert("mean_reversion_v2"@[0] != "sniper"@[0]);
        assert("mean_reversion_v2"@[0] != "sniper_value"@[0]);
        assert("mean_reversion_v2"@[0] != "binance_velocity"@[0]);
        assert("mean_reversion_v2"@[0] != "binance_velocity_v2"@[0]);
    }
}

/// Why a strategy suits a regime, for the pairs that match; a generic
/// phrase otherwise.
pub fn strategy_match_reason<'a>(strategy: &'a str, regime: &MarketRegime) -> (reason: &'a str)
    ensures
        reason@ == match_reason(strategy@, *regime),
        *regime == MarketRegime::Unknown ==> reason@ == "altalanos illeszkeredes"@,
        strategy_display_name(strategy@) == strategy@ ==> reason@ == "altalanos illeszkeredes"@,
{
    proof {
        lemma_match_reason_specific(strategy@, *regime, *regime);
    }
    if (str_eq(strategy, "momentum") || str_eq(strategy, "momentum_v2") || str_eq(strategy, "strict_momentum")) && *regime == MarketRegime::Trending {
        return "eros trend -> momentum kovetes";
    }
    if (str_eq(strategy, "trend") || str_eq(strategy, "trend_pullback")) && *regime == MarketRegime::Trending {
        return "trend folytatasa varhato";
    }
    if (str_eq(strategy, "contrarian")) && *regime == MarketRegime::Ranging {
        return "oldalazas -> visszafordulasok";
    }
    if (str_eq(strategy, "edge_hunter") || str_eq(strategy, "extreme_edge")) && *regime == MarketRegime::Ranging {
        return "kis mozgasok -> elvadaszat";
    }
    if (str_eq(strategy, "mean_reversion") || str_eq(strategy, "mean_reversion_v2")) && *regime == MarketRegime::Ranging {
        return "atlagoz visszateres";
    }
    if (str_eq(strategy, "volatility") || str_eq(strategy, "volatility_filtered")) && *regime == MarketRegime::Volatile {
        return "nagy hullamzas -> kitores";
    }
    if (str_eq(strategy, "sniper") || str_eq(strategy, "sniper_value")) && *regime == MarketRegime::Volatile {
        return "gyors belepes nagy mozgasnal";
    }
    if (str_eq(strategy, "binance_velocity") || str_eq(strategy, "binance_velocity_v2")) && *regime == MarketRegime::Volatile {
        return "sebesseg kihasznalasa";
    }
    "altalanos illeszkeredes"
}

} // verus!
