//! The cyclic time-range selector that drives the metrics queries.

use vstd::prelude::*;

verus! {

/// The time window over which metric rates are aggregated. The
/// variants form a cycle for `next`/`prev` navigation; `All` asks for
/// an unwindowed aggregate instead of a rate.
#[derive(Debug, Clone, Copy, PartialEq, Eq, Structural)]
pub enum TimeRange {
    OneMin,
    FiveMin,
    ThirtyMin,
    OneHour,
    OneDay,
    All,
}

impl TimeRange {
    /// The short label shown in the panel title.
    pub open spec fn spec_str(self) -> Seq<char> {
        match self {
            TimeRange::OneMin => "1m"@,
            TimeRange::FiveMin => "5m"@,
            TimeRange::ThirtyMin => "30m"@,
            TimeRange::OneHour => "1h"@,
            TimeRange::OneDay => "24h"@,
            TimeRange::All => "All"@,
        }
    }

    pub fn as_str(&self) -> (r: &str)
        ensures
            r@ == self.spec_str(),
    {
        match self {
            TimeRange::OneMin => "1m",
            TimeRange::FiveMin => "5m",
            TimeRange::ThirtyMin => "30m",
            TimeRange::OneHour => "1h",
            TimeRange::OneDay => "24h",
            TimeRange::All => "All",
        }
    }

    /// The window length in minutes; `None` means no time limit.
    pub open spec fn spec_minutes(self) -> Option<i64> {
        match self {
            TimeRange::OneMin => Some(1i64),
            TimeRange::FiveMin => Some(5i64),
            TimeRange::ThirtyMin => Some(30i64),
            TimeRange::OneHour => Some(60i64),
            TimeRange::OneDay => Some(1440i64),
            TimeRange::All => None,
        }
    }

    pub fn as_minutes(&self) -> (r: Option<i64>)
        ensures
            r == self.spec_minutes(),
    {
        match self {
            TimeRange::OneMin => Some(1),
            TimeRange::FiveMin => Some(5),
            TimeRange::ThirtyMin => Some(30),
            TimeRange::OneHour => Some(60),
            TimeRange::OneDay => Some(1440),
            TimeRange::All => None,
        }
    }

    /// The range selector inserted into the metrics queries; `all` is
    /// the special marker for an unwindowed aggregate.
    pub open spec fn spec_prometheus_range(self) -> Seq<char> {
        match self {
            TimeRange::OneMin => "1m"@,
            TimeRange::FiveMin => "5m"@,
            TimeRange::ThirtyMin => "30m"@,
            TimeRange::OneHour => "1h"@,
            TimeRange::OneDay => "24h"@,
            TimeRange::All => "all"@,
        }
    }

    pub fn to_prometheus_range(&self) -> (r: String)
        ensures
            r@ == self.spec_prometheus_range(),
    {
        match self {
            TimeRange::OneMin => String::from_str("1m"),
            TimeRange::FiveMin => String::from_str("5m"),
            TimeRange::ThirtyMin => String::from_str("30m"),
            TimeRange::OneHour => String::from_str("1h"),
            TimeRange::OneDay => String::from_str("24h"),
            TimeRange::All => String::from_str("all"),
        }
    }

    /// The successor in the cycle.
    pub open spec fn spec_next(self) -> TimeRange {
        match self {
            TimeRange::OneMin => TimeRange::FiveMin,
            TimeRange::FiveMin => TimeRange::ThirtyMin,
            TimeRange::ThirtyMin => TimeRange::OneHour,
            TimeRange::OneHour => TimeRange::OneDay,
            TimeRange::OneDay => TimeRange::All,
            TimeRange::All => TimeRange::OneMin,
        }
    }

    pub fn next(&self) -> (r: TimeRange)
        ensures
            r == self.spec_next(),
    {
        match self {
            TimeRange::OneMin => TimeRange::FiveMin,
            TimeRange::FiveMin => TimeRange::ThirtyMin,
            TimeRange::ThirtyMin => TimeRange::OneHour,
            TimeRange::OneHour => TimeRange::OneDay,
            TimeRange::OneDay => TimeRange::All,
            TimeRange::All => TimeRange::OneMin,
        }
    }

    /// The predecessor in the cycle.
    pub open spec fn spec_prev(self) -> TimeRange {
        match self {
            TimeRange::OneMin => TimeRange::All,
            TimeRange::FiveMin => TimeRange::OneMin,
            TimeRange::ThirtyMin => TimeRange::FiveMin,
            TimeRange::OneHour => TimeRange::ThirtyMin,
            TimeRange::OneDay => TimeRange::OneHour,
            TimeRange::All => TimeRange::OneDay,
        }
    }

    pub fn prev(&self) -> (r: TimeRange)
        ensures
            r == self.spec_prev(),
    {
        match self {
            TimeRange::OneMin => TimeRange::All,
            TimeRange::FiveMin => TimeRange::OneMin,
            TimeRange::ThirtyMin => TimeRange::FiveMin,
            TimeRange::OneHour => TimeRange::ThirtyMin,
            TimeRange::OneDay => TimeRange::OneHour,
            TimeRange::All => TimeRange::OneDay,
        }
    }
}

/// Stepping forward and then back through the cycle, or back and then
/// forward, returns to the starting range.
pub proof fn lemma_next_prev_inverse(r: TimeRange)
    ensures
        r.spec_next().spec_prev() == r,
        r.spec_prev().spec_next() == r,
{
}

} // verus!
