//! Configuration of the statistics stage.

use vstd::prelude::*;

verus! {

/// How the spread between the two series is derived: a single static OLS
/// hedge ratio, or a per-bar hedge ratio from the recursive filter.
#[derive(Debug, Clone, Copy, PartialEq, Eq, Structural)]
pub enum SpreadType {
    Static,
    Dynamic,
}

/// The statistics configuration: the spread kind, the z-score window and
/// the rolling-diagnostics window.
#[derive(Debug, Clone, Copy, PartialEq, Eq, Structural)]
pub struct StatsCriteria {
    pub spread_type: SpreadType,
    pub zscore_window: usize,
    pub roll_window: usize,
}

impl StatsCriteria {
    /// The configuration to run with: the caller's, or the defaults
    /// (dynamic spread, 35-bar z-score window, 90-bar rolling window).
    pub fn resolve(opt: Option<StatsCriteria>) -> (r: StatsCriteria)
        ensures
            opt matches Some(c) ==> r == c,
            opt is None ==> r == (StatsCriteria {
                spread_type: SpreadType::Dynamic,
                zscore_window: 35,
                roll_window: 90,
            }),
    {
        match opt {
            Some(c) => c,
            None => StatsCriteria {
                spread_type: SpreadType::Dynamic,
                zscore_window: 35,
                roll_window: 90,
            },
        }
    }
}

} // verus!
