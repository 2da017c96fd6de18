//! Strategy base types shared by all strategies.

use vstd::prelude::*;

verus! {

/// Trading signal produced by a strategy.
#[derive(Debug, Clone, Copy, PartialEq, Eq, Structural)]
pub enum Signal {
    /// Buy YES: bet that the outcome happens.
    Yes,
    /// Buy NO: bet against the outcome.
    No,
    /// No action.
    Hold,
}

impl Signal {
    /// Whether the signal asks for a trade (YES or NO).
    pub fn is_trade(&self) -> (res: bool)
        ensures
            res <==> (*self == Signal::Yes || *self == Signal::No),
    {
        match self {
            Signal::Yes | Signal::No => true,
            Signal::Hold => false,
        }
    }

    /// The upper-case label of the signal.
    pub fn as_str(&self) -> (res: &'static str)
        ensures
            res@ == signal_label(*self),
    {
        match self {
            Signal::Yes => "YES",
            Signal::No => "NO",
            Signal::Hold => "HOLD",
        }
    }
}

/// Whether the seconds left in a market lie within a strategy's limits,
/// both included.
pub fn time_in_window(time_remaining: i64, min_time_remaining: i64, max_time_remaining: i64) -> (res: bool)
    ensures
        res == (min_time_remaining <= time_remaining && time_remaining <= max_time_remaining),
{
    time_remaining >= min_time_remaining && time_remaining <= max_time_remaining
}

/// The label of each signal.
pub open spec fn signal_label(s: Signal) -> Seq<char> {
    match s {
        Signal::Yes => "YES"@,
        Signal::No => "NO"@,
        Signal::Hold => "HOLD"@,
    }
}

} // verus!
