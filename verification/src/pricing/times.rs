//! Candle-time arithmetic on unix timestamps: aligning a timestamp to the
//! start of its interval, stepping a timestamp back by a number of
//! intervals, and rendering timestamps for providers that want ISO strings.

use vstd::prelude::*;

use crate::SmartError;
use crate::pricing::models::IntervalPeriod;

verus! {

/// The interval divisor is usable: minute and hour intervals must be
/// non-zero (a day interval always aligns to the fixed two-day grid).
pub open spec fn spec_interval_usable(iv: IntervalPeriod) -> bool {
    match iv {
        IntervalPeriod::Min(n, _) => n >= 1,
        IntervalPeriod::Hour(n, _) => n >= 1,
        IntervalPeriod::Day(_, _) => true,
    }
}

/// The interval count is non-zero in every variant, so that a period can
/// be divided into intervals.
pub open spec fn spec_interval_positive(iv: IntervalPeriod) -> bool {
    match iv {
        IntervalPeriod::Min(n, _) => n >= 1,
        IntervalPeriod::Hour(n, _) => n >= 1,
        IntervalPeriod::Day(n, _) => n >= 1,
    }
}

/// The seconds one interval spans.
pub open spec fn spec_interval_seconds(iv: IntervalPeriod) -> int {
    match iv {
        IntervalPeriod::Min(n, _) => (n as int) * 60,
        IntervalPeriod::Hour(n, _) => (n as int) * 3600,
        IntervalPeriod::Day(n, _) => (n as int) * 86400,
    }
}

/// The seconds one interval spans, computed executably.
pub fn interval_seconds(interval: &IntervalPeriod) -> (r: i64)
    ensures
        r == spec_interval_seconds(*interval),
        0 <= r <= 22_032_000,
{
    match interval {
        IntervalPeriod::Min(n, _) => (*n as i64) * 60,
        IntervalPeriod::Hour(n, _) => (*n as i64) * 3600,
        IntervalPeriod::Day(n, _) => (*n as i64) * 86400,
    }
}

/// The last interval boundary at or before the timestamp: minute and hour
/// intervals align within the day, day intervals align to a fixed two-day
/// grid.
pub open spec fn spec_interval_start(ts: int, iv: IntervalPeriod) -> int {
    match iv {
        IntervalPeriod::Min(n, _) => ts - (ts % 86400) % ((n as int) * 60),
        IntervalPeriod::Hour(n, _) => ts - (ts % 86400) % ((n as int) * 3600),
        IntervalPeriod::Day(_, _) => ts - ts % 172800,
    }
}

/// The interval boundary at or before `ts`, stepped back by `limit`
/// intervals.
pub open spec fn spec_subtract_time(ts: int, iv: IntervalPeriod, limit: int) -> int {
    spec_interval_start(ts, iv) - limit * spec_interval_seconds(iv)
}

/// Aligns a timestamp to the start of its current interval.
pub fn get_unix_datetime_at_interval(timestamp: i64, interval: &IntervalPeriod) -> (r: i64)
    requires
        0 <= timestamp,
        spec_interval_usable(*interval),
    ensures
        r == spec_interval_start(timestamp as int, *interval),
        0 <= r <= timestamp,
{
    match interval {
        IntervalPeriod::Min(n, _) => {
            let modulus: i64 = (*n as i64) * 60;
            let seconds_since_midnight: i64 = timestamp % 86400;
            let rem: i64 = seconds_since_midnight % modulus;
            proof {
                lemma_mod_between(timestamp as int, seconds_since_midnight as int, 86400);
                lemma_mod_between(seconds_since_midnight as int, rem as int, modulus as int);
            }
            timestamp - rem
        },
        IntervalPeriod::Hour(n, _) => {
            let modulus: i64 = (*n as i64) * 3600;
            let seconds_since_midnight: i64 = timestamp % 86400;
            let rem: i64 = seconds_since_midnight % modulus;
            proof {
                lemma_mod_between(timestamp as int, seconds_since_midnight as int, 86400);
                lemma_mod_between(seconds_since_midnight as int, rem as int, modulus as int);
            }
            timestamp - rem
        },
        IntervalPeriod::Day(_, _) => {
            let rem: i64 = timestamp % 172800;
            proof {
                lemma_mod_between(timestamp as int, rem as int, 172800);
            }
            timestamp - rem
        },
    }
}

/// A remainder taken from a non-negative value lies between zero and that
/// value.
proof fn lemma_mod_between(x: int, r: int, m: int)
    requires
        0 <= x,
        0 < m,
        r == x % m,
    ensures
        0 <= r <= x,
{
    assert(0 <= x % m <= x) by (nonlinear_arith)
        requires
            0 <= x,
            0 < m,
    ;
}

/// The timestamp `limit` intervals before the interval boundary at or
/// before the given timestamp.
pub fn subtract_time(timestamp: i64, interval: &IntervalPeriod, limit: &i64) -> (r: i64)
    requires
        0 <= timestamp,
        spec_interval_usable(*interval),
        0 <= *limit <= 1_000_000_000,
    ensures
        r == spec_subtract_time(timestamp as int, *interval, *limit as int),
        r <= timestamp,
{
    let aligned: i64 = get_unix_datetime_at_interval(timestamp, interval);
    let step: i64 = match interval {
        IntervalPeriod::Min(n, _) => (*n as i64) * 60,
        IntervalPeriod::Hour(n, _) => (*n as i64) * 3600,
        IntervalPeriod::Day(n, _) => (*n as i64) * 86400,
    };
    assert(0 <= *limit * step <= 1_000_000_000i64 * 22_032_000i64) by (nonlinear_arith)
        requires
            0 <= *limit <= 1_000_000_000,
            0 <= step <= 22_032_000,
    ;
    aligned - limit * step
}

/// The ISO-8601 UTC rendering (with milliseconds and a `Z` suffix) of a
/// unix timestamp; it depends on the timestamp alone.
pub uninterp spec fn iso_utc_of(timestamp: int) -> Seq<char>;

/// Relies on chrono's `DateTime::from_timestamp` and `format`: renders the
/// timestamp as `%Y-%m-%dT%H:%M:%S%.3fZ` in UTC. Timestamps through
/// 9999-12-31 are well within chrono's supported range.
#[verifier::external_body]
pub fn convert_timestamp_to_iso(timestamp: i64) -> (r: String)
    requires
        0 <= timestamp <= 253_402_300_799,
    ensures
        r@ == iso_utc_of(timestamp as int),
{
    let dt = chrono::DateTime::<chrono::Utc>::from_timestamp(timestamp, 0)
        .expect("timestamp within the supported range");
    dt.format("%Y-%m-%dT%H:%M:%S%.3fZ").to_string()
}

/// Relies on chrono's `Utc::now`: reads the system clock. Nothing is
/// assumed about the value; callers must handle every timestamp.
#[verifier::external_body]
pub fn get_world_time_utc() -> (r: Result<i64, SmartError>)
    ensures
        r is Ok,
{
    Ok(chrono::Utc::now().timestamp())
}

} // verus!
