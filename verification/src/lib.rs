use vstd::prelude::*;

pub mod backtest;
pub mod pricing;
pub mod stats;
pub mod text;

verus! {

/// Error kinds reported by the analysis pipeline. Every failure is an
/// explicit result value; no function of this crate panics on inputs its
/// contract admits.
#[derive(Debug, Clone, PartialEq, Eq)]
pub enum SmartError {
    /// Two series (or a series and its labels) differ in length or alignment.
    InputShapeMismatch,
    /// A variance or denominator needed by a statistic is zero.
    DegenerateStatistic,
    /// A rolling window is longer than the series it is applied to.
    WindowTooLarge,
    /// A configuration invariant (threshold ordering) is violated.
    InvalidConfiguration,
    /// No data-source encoding exists for the requested exchange/interval pair.
    UnsupportedInterval,
    /// An error reported by the upstream data collaborator, carried opaquely.
    UpstreamData(String),
}

} // verus!
