//! Listening-history statistics as the stats screen shows them.

use vstd::prelude::*;

verus! {

/// The period a stats view covers.
#[derive(Debug, Clone, Copy, PartialEq, Eq, Structural)]
pub enum RecapPeriod {
    Week,
    Month,
    Year,
    AllTime,
}

impl RecapPeriod {
    /// The following period, wrapping from the last to the first.
    pub fn next(&self) -> (p: RecapPeriod)
        ensures
            p == period_after(*self),
    {
        match self {
            RecapPeriod::Week => RecapPeriod::Month,
            RecapPeriod::Month => RecapPeriod::Year,
            RecapPeriod::Year => RecapPeriod::AllTime,
            RecapPeriod::AllTime => RecapPeriod::Week,
        }
    }

    /// The preceding period, wrapping from the first to the last.
    pub fn prev(&self) -> (p: RecapPeriod)
        ensures
            period_after(p) == *self,
    {
        match self {
            RecapPeriod::Week => RecapPeriod::AllTime,
            RecapPeriod::Month => RecapPeriod::Week,
            RecapPeriod::Year => RecapPeriod::Month,
            RecapPeriod::AllTime => RecapPeriod::Year,
        }
    }
}

/// The cyclic successor of a period.
pub open spec fn period_after(p: RecapPeriod) -> RecapPeriod {
    match p {
        RecapPeriod::Week => RecapPeriod::Month,
        RecapPeriod::Month => RecapPeriod::Year,
        RecapPeriod::Year => RecapPeriod::AllTime,
        RecapPeriod::AllTime => RecapPeriod::Week,
    }
}

/// One row of a ranked list.
#[derive(Debug, Clone, PartialEq, Eq)]
pub struct RankedEntry {
    pub display: String,
    pub detail: String,
    pub value: u64,
    pub uri: Option<String>,
}

/// Listening statistics for one period.
#[derive(Debug, Clone, PartialEq, Eq)]
pub struct StatsData {
    pub total_plays: u64,
    pub total_time_ms: u64,
    pub top_tracks: Vec<RankedEntry>,
    pub top_artists: Vec<RankedEntry>,
    pub top_albums: Vec<RankedEntry>,
    pub days: Vec<RankedEntry>,
}

} // verus!
