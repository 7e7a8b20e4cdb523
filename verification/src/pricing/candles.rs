//! The candle request builder: per-exchange query URLs, interval encodings,
//! and the verified planning of how many calls a period needs and which
//! time range each call covers.

use vstd::prelude::*;

use crate::SmartError;
use crate::pricing::models::{CallItem, Exchange, IntervalPeriod};
use crate::pricing::times::{
    convert_timestamp_to_iso, get_world_time_utc, interval_seconds, iso_utc_of,
    spec_interval_positive, spec_interval_seconds, spec_interval_start, subtract_time,
};
use crate::text::{dec_chars_signed, i64_dec_string};

verus! {

/// The row limit an exchange accepts per candle call, less a safety buffer.
pub open spec fn spec_max_limit(e: Exchange) -> int {
    match e {
        Exchange::Binance | Exchange::BinanceUs => 995,
        Exchange::ByBit => 195,
        Exchange::Coinbase => 295,
        Exchange::Dydx => 95,
        Exchange::Twelve => 4995,
    }
}

/// The key a caller handed over, or nothing.
pub open spec fn spec_key(key: Option<&str>) -> Seq<char> {
    match key {
        Some(k) => k@,
        None => Seq::<char>::empty(),
    }
}

/// The candle query-URL template of an exchange; the Twelve template
/// carries the API key appended.
pub open spec fn spec_candles_url(e: Exchange, key: Seq<char>) -> Seq<char> {
    match e {
        Exchange::Binance => "https://fapi.binance.com/fapi/v1/klines?symbol={symbol}&interval={interval}&startTime={fromTime}&endTime={toTime}&limit={limit}"@,
        Exchange::BinanceUs => "https://api.binance.us/api/v3/klines?symbol={symbol}&interval={interval}&startTime={fromTime}&endTime={toTime}&limit={limit}"@,
        Exchange::ByBit => "https://api.bybit.com/v5/market/kline?category=linear&symbol={symbol}&interval={interval}&start={fromTime}&end={toTime}&limit={limit}"@,
        Exchange::Coinbase => "https://api.exchange.coinbase.com/products/{symbol}/candles?granularity={interval}&start={fromTime}&end={toTime}"@,
        Exchange::Dydx => "https://api.dydx.exchange/v3/candles/{symbol}?resolution={interval}&fromISO={fromTime}&toISO={toTime}&limit={limit}"@,
        Exchange::Twelve => "https://api.twelvedata.com/time_series?interval={interval}&symbol={symbol}&start_date={fromTime}&end_date={toTime}&outputsize={limit}&timezone=utc"@
            + "&apikey="@ + key,
    }
}

/// The units of a period, measured in whole intervals.
pub open spec fn spec_total_units(iv: IntervalPeriod) -> int {
    match iv {
        IntervalPeriod::Min(n, p) => p as int / n as int,
        IntervalPeriod::Hour(n, p) => p as int / n as int,
        IntervalPeriod::Day(n, p) => p as int / n as int,
    }
}

/// The exchange-specific interval code of `structure_interval`.
pub open spec fn spec_interval_code(e: Exchange, iv: IntervalPeriod) -> Option<Seq<char>> {
    match e {
        Exchange::Binance | Exchange::BinanceUs => match iv {
            IntervalPeriod::Min(i, _) => if i == 5 {
                Some("5m"@)
            } else if i == 15 {
                Some("15m"@)
            } else if i == 30 {
                Some("30m"@)
            } else {
                None
            },
            IntervalPeriod::Hour(i, _) => if i == 1 {
                Some("1h"@)
            } else if i == 2 {
                Some("2h"@)
            } else if i == 4 {
                Some("4h"@)
            } else if i == 6 {
                Some("6h"@)
            } else if i == 8 {
                Some("8h"@)
            } else if i == 12 {
                Some("12h"@)
            } else {
                None
            },
            IntervalPeriod::Day(i, _) => if i == 1 {
                Some("1d"@)
            } else {
                None
            },
        },
        Exchange::ByBit => match iv {
            IntervalPeriod::Min(i, _) => if i == 5 {
                Some("5"@)
            } else if i == 15 {
                Some("15"@)
            } else if i == 30 {
                Some("30"@)
            } else {
                None
            },
            IntervalPeriod::Hour(i, _) => if i == 1 {
                Some("60"@)
            } else if i == 2 {
                Some("120"@)
            } else if i == 4 {
                Some("240"@)
            } else if i == 6 {
                Some("360"@)
            } else if i == 12 {
                Some("720"@)
            } else {
                None
            },
            IntervalPeriod::Day(i, _) => if i == 1 {
                Some("D"@)
            } else {
                None
            },
        },
        Exchange::Coinbase => match iv {
            IntervalPeriod::Min(i, _) => if i == 5 {
                Some("300"@)
            } else if i == 15 {
                Some("900"@)
            } else {
                None
            },
            IntervalPeriod::Hour(i, _) => if i == 1 {
                Some("3600"@)
            } else if i == 6 {
                Some("21600"@)
            } else {
                None
            },
            IntervalPeriod::Day(i, _) => if i == 1 {
                Some("86400"@)
            } else {
                None
            },
        },
        Exchange::Dydx => match iv {
            IntervalPeriod::Min(i, _) => if i == 5 {
                Some("5MINS"@)
            } else if i == 15 {
                Some("15MINS"@)
            } else if i == 30 {
                Some("30MINS"@)
            } else {
                None
            },
            IntervalPeriod::Hour(i, _) => if i == 1 {
                Some("1HOUR"@)
            } else if i == 4 {
                Some("4HOURS"@)
            } else {
                None
            },
            IntervalPeriod::Day(i, _) => if i == 1 {
                Some("1DAY"@)
            } else {
                None
            },
        },
        Exchange::Twelve => match iv {
            IntervalPeriod::Min(i, _) => if i == 5 {
                Some("5min"@)
            } else if i == 15 {
                Some("15min"@)
            } else if i == 30 {
                Some("30min"@)
            } else {
                None
            },
            IntervalPeriod::Hour(i, _) => if i == 1 {
                Some("1h"@)
            } else if i == 2 {
                Some("2h"@)
            } else if i == 4 {
                Some("4h"@)
            } else {
                None
            },
            IntervalPeriod::Day(i, _) => if i == 1 {
                Some("1day"@)
            } else {
                None
            },
        },
    }
}

/// Builds candle requests for one symbol on one exchange.
#[derive(Debug)]
pub struct CandleBuilder {
    pub symbol: String,
    pub interval: IntervalPeriod,
    pub exchange: Exchange,
    pub max_limit: i64,
    pub query_url: String,
}

impl CandleBuilder {
    /// Prepares a builder: looks up the exchange's row limit and URL
    /// template. The Twelve provider needs an API key.
    pub fn new(
        symbol: String,
        interval: IntervalPeriod,
        exchange: Exchange,
        twelve_api_key: Option<&str>,
    ) -> (r: Self)
        requires
            exchange is Twelve ==> twelve_api_key is Some,
        ensures
            r.symbol@ == symbol@,
            r.interval == interval,
            r.exchange == exchange,
            r.max_limit == spec_max_limit(exchange),
            r.query_url@ == spec_candles_url(exchange, spec_key(twelve_api_key)),
    {
        let max_limit: i64 = Self::get_max_limit(&exchange);
        let query_url: String = match exchange {
            Exchange::Binance => String::from_str(
                "https://fapi.binance.com/fapi/v1/klines?symbol={symbol}&interval={interval}&startTime={fromTime}&endTime={toTime}&limit={limit}",
            ),
            Exchange::BinanceUs => String::from_str(
                "https://api.binance.us/api/v3/klines?symbol={symbol}&interval={interval}&startTime={fromTime}&endTime={toTime}&limit={limit}",
            ),
            Exchange::ByBit => String::from_str(
                "https://api.bybit.com/v5/market/kline?category=linear&symbol={symbol}&interval={interval}&start={fromTime}&end={toTime}&limit={limit}",
            ),
            Exchange::Coinbase => String::from_str(
                "https://api.exchange.coinbase.com/products/{symbol}/candles?granularity={interval}&start={fromTime}&end={toTime}",
            ),
            Exchange::Dydx => String::from_str(
                "https://api.dydx.exchange/v3/candles/{symbol}?resolution={interval}&fromISO={fromTime}&toISO={toTime}&limit={limit}",
            ),
            Exchange::Twelve => match twelve_api_key {
                Some(api_key) => {
                    let base = String::from_str(
                        "https://api.twelvedata.com/time_series?interval={interval}&symbol={symbol}&start_date={fromTime}&end_date={toTime}&outputsize={limit}&timezone=utc",
                    );
                    base.concat("&apikey=").concat(api_key)
                },
                None => {
                    proof {
                        assert(false);
                    }
                    String::new()
                },
            },
        };
        CandleBuilder { symbol, interval, exchange, max_limit, query_url }
    }

    /// The per-call row limit of an exchange, with a small buffer held back
    /// so that overlapping ranges can be deduplicated later.
    pub fn get_max_limit(exchange: &Exchange) -> (r: i64)
        ensures
            r == spec_max_limit(*exchange),
    {
        let buffer: i64 = 5;
        match exchange {
            Exchange::Binance | Exchange::BinanceUs => 1000 - buffer,
            Exchange::ByBit => 200 - buffer,
            Exchange::Coinbase => 300 - buffer,
            Exchange::Dydx => 100 - buffer,
            Exchange::Twelve => 5000 - buffer,
        }
    }

    /// The symbol the builder was made for.
    pub fn get_symbol(&self) -> (r: String)
        ensures
            r@ == self.symbol@,
    {
        self.symbol.clone()
    }

    /// The interval the builder was made for.
    pub fn get_interval(&self) -> (r: IntervalPeriod)
        ensures
            r == self.interval,
    {
        self.interval.clone()
    }

    /// The exchange the builder was made for.
    pub fn get_exchange(&self) -> (r: Exchange)
        ensures
            r == self.exchange,
    {
        self.exchange.clone()
    }

    /// The URL template the builder will fill in.
    pub fn get_request_url(&self) -> (r: String)
        ensures
            r@ == self.query_url@,
    {
        self.query_url.clone()
    }

    /// Encodes the builder's interval in the exchange's own notation, or
    /// reports the pair as unsupported.
    pub fn structure_interval(&self) -> (r: Result<&'static str, SmartError>)
        ensures
            match spec_interval_code(self.exchange, self.interval) {
                Some(code) => r matches Ok(s) && s@ == code,
                None => r == Err::<&'static str, SmartError>(SmartError::UnsupportedInterval),
            },
    {
        let code: Option<&'static str> = match self.exchange {
            Exchange::Binance | Exchange::BinanceUs => match self.interval {
                IntervalPeriod::Min(5, _) => Some("5m"),
                IntervalPeriod::Min(15, _) => Some("15m"),
                IntervalPeriod::Min(30, _) => Some("30m"),
                IntervalPeriod::Hour(1, _) => Some("1h"),
                IntervalPeriod::Hour(2, _) => Some("2h"),
                IntervalPeriod::Hour(4, _) => Some("4h"),
                IntervalPeriod::Hour(6, _) => Some("6h"),
                IntervalPeriod::Hour(8, _) => Some("8h"),
                IntervalPeriod::Hour(12, _) => Some("12h"),
                IntervalPeriod::Day(1, _) => Some("1d"),
                _ => None,
            },
            Exchange::ByBit => match self.interval {
                IntervalPeriod::Min(5, _) => Some("5"),
                IntervalPeriod::Min(15, _) => Some("15"),
                IntervalPeriod::Min(30, _) => Some("30"),
                IntervalPeriod::Hour(1, _) => Some("60"),
                IntervalPeriod::Hour(2, _) => Some("120"),
                IntervalPeriod::Hour(4, _) => Some("240"),
                IntervalPeriod::Hour(6, _) => Some("360"),
                IntervalPeriod::Hour(12, _) => Some("720"),
                IntervalPeriod::Day(1, _) => Some("D"),
                _ => None,
            },
            Exchange::Coinbase => match self.interval {
                IntervalPeriod::Min(5, _) => Some("300"),
                IntervalPeriod::Min(15, _) => Some("900"),
                IntervalPeriod::Hour(1, _) => Some("3600"),
                IntervalPeriod::Hour(6, _) => Some("21600"),
                IntervalPeriod::Day(1, _) => Some("86400"),
                _ => None,
            },
            Exchange::Dydx => match self.interval {
                IntervalPeriod::Min(5, _) => Some("5MINS"),
                IntervalPeriod::Min(15, _) => Some("15MINS"),
                IntervalPeriod::Min(30, _) => Some("30MINS"),
                IntervalPeriod::Hour(1, _) => Some("1HOUR"),
                IntervalPeriod::Hour(4, _) => Some("4HOURS"),
                IntervalPeriod::Day(1, _) => Some("1DAY"),
                _ => None,
            },
            Exchange::Twelve => match self.interval {
                IntervalPeriod::Min(5, _) => Some("5min"),
                IntervalPeriod::Min(15, _) => Some("15min"),
                IntervalPeriod::Min(30, _) => Some("30min"),
                IntervalPeriod::Hour(1, _) => Some("1h"),
                IntervalPeriod::Hour(2, _) => Some("2h"),
                IntervalPeriod::Hour(4, _) => Some("4h"),
                IntervalPeriod::Day(1, _) => Some("1day"),
                _ => None,
            },
        };
        match code {
            Some(s) => Ok(s),
            None => Err(SmartError::UnsupportedInterval),
        }
    }

    /// How many full-size calls the period needs, and how many rows are
    /// left for one final smaller call.
    pub fn calculate_call_count(&self) -> (r: (usize, i64))
        requires
            spec_interval_positive(self.interval),
            1 <= self.max_limit <= 10_000,
        ensures
            r.0 as int == spec_total_units(self.interval) / (self.max_limit as int),
            r.1 == spec_total_units(self.interval) % (self.max_limit as int),
            0 <= r.1 < self.max_limit,
            0 <= spec_total_units(self.interval) <= u32::MAX as int,
    {
        let total: i64 = match self.interval {
            IntervalPeriod::Min(n, p) => (p / (n as u32)) as i64,
            IntervalPeriod::Hour(n, p) => (p / (n as u32)) as i64,
            IntervalPeriod::Day(n, p) => (p / (n as u32)) as i64,
        };
        let iterations: i64 = total / self.max_limit;
        let final_n: i64 = total % self.max_limit;
        proof {
            lemma_div_shrinks(total as int, self.max_limit as int);
        }
        (iterations as usize, final_n)
    }

    /// The call ranges that cover the period, ending at the last interval
    /// boundary before `now`: full-size ranges plus one smaller final
    /// range, in chronological order, each range starting where the
    /// previous ended. A clock before the epoch, or a period reaching
    /// before the epoch, is reported as an upstream error.
    pub fn calls_required_at(&self, now: i64) -> (r: Result<Vec<CallItem>, SmartError>)
        requires
            spec_interval_positive(self.interval),
            1 <= self.max_limit <= 10_000,
        ensures
            ({
                let step = spec_interval_seconds(self.interval);
                let span = self.max_limit as int * step;
                let iters = spec_total_units(self.interval) / (self.max_limit as int);
                let fin = spec_total_units(self.interval) % (self.max_limit as int);
                let count = iters + if fin > 0 {
                    1int
                } else {
                    0int
                };
                match r {
                    Ok(v) => {
                        &&& now >= 0
                        &&& v@.len() == count
                        &&& count > 0 ==> v@[count - 1].to_time == spec_interval_start(
                            now as int,
                            self.interval,
                        )
                        &&& forall|j: int|
                            0 <= j < count - 1 ==> #[trigger] v@[j].to_time == v@[j + 1].from_time
                        &&& forall|j: int|
                            (if fin > 0 {
                                1int
                            } else {
                                0int
                            }) <= j < count ==> #[trigger] v@[j].from_time == v@[j].to_time - span
                        &&& (fin > 0 && count > 0) ==> v@[0].from_time == v@[0].to_time - fin
                            * step
                    },
                    Err(e) => e is UpstreamData,
                }
            }),
    {
        if now < 0 {
            return Err(SmartError::UpstreamData(String::from_str("system clock before the epoch")));
        }
        let (iterations, final_n) = self.calculate_call_count();
        let step: i64 = interval_seconds(&self.interval);
        proof {
            assert(0 <= self.max_limit as int * step as int <= 10_000int * 22_032_000int)
                by (nonlinear_arith)
                requires
                    1 <= self.max_limit <= 10_000,
                    0 <= step <= 22_032_000,
            ;
        }
        let span: i64 = self.max_limit * step;
        let end0: i64 = subtract_time(now, &self.interval, &0);
        proof {
            lemma_shift_bound(
                spec_total_units(self.interval),
                self.max_limit as int,
                step as int,
            );
        }
        let shift_full: i64 = (iterations as i64) * span;
        proof {
            assert(0 <= final_n as int * step as int <= 10_000int * 22_032_000int)
                by (nonlinear_arith)
                requires
                    0 <= final_n <= 10_000,
                    0 <= step <= 22_032_000,
            ;
        }
        let shift_final: i64 = if final_n > 0 {
            final_n * step
        } else {
            0
        };
        let earliest: i64 = end0 - shift_full - shift_final;
        if earliest < 0 {
            return Err(
                SmartError::UpstreamData(String::from_str("period reaches before the epoch")),
            );
        }
        let mut call_items: Vec<CallItem> = Vec::new();
        let mut end_time: i64 = end0;
        let mut k: usize = 0;
        while k < iterations
            invariant
                k <= iterations,
                call_items@.len() == k,
                end_time as int == end0 as int - k as int * span as int,
                end_time >= end0 - shift_full,
                iterations as int * span as int == shift_full as int,
                0 <= span <= 300_000_000_000i64,
                0 <= shift_full,
                end0 - shift_full >= 0,
                forall|j: int|
                    0 <= j < k ==> (#[trigger] call_items@[j].from_time) as int == end0 as int - (j
                        + 1) * (span as int) && call_items@[j].to_time as int == end0 as int - j * (
                    span as int),
            decreases iterations - k,
        {
            proof {
                assert((k + 1) as int * (span as int) == k as int * (span as int) + span as int && 0
                    <= k as int * (span as int) && (k + 1) as int * (span as int) <= iterations as int
                    * (span as int)) by (nonlinear_arith)
                    requires
                        0 <= k < iterations,
                        0 <= span,
                ;
            }
            let start_time: i64 = end_time - span;
            call_items.push(CallItem { from_time: start_time, to_time: end_time });
            end_time = start_time;
            k += 1;
        }
        if final_n > 0 {
            let start_time: i64 = end_time - shift_final;
            call_items.push(CallItem { from_time: start_time, to_time: end_time });
        }
        let flipped = reversed(&call_items);
        proof {
            let gc = call_items@.len() as int;
            let stepg = spec_interval_seconds(self.interval);
            let sp = span as int;
            assert(0int * sp == 0 && 0int * stepg == 0) by (nonlinear_arith);
            assert forall|j: int| 0 <= j < gc - 1 implies #[trigger] flipped@[j].to_time
                == flipped@[j + 1].from_time by {
                let i1 = gc - 1 - j;
                let i2 = gc - 2 - j;
                assert(flipped@[j] == call_items@[i1]);
                assert(flipped@[j + 1] == call_items@[i2]);
                assert(call_items@[i2].from_time as int == end0 as int - (i2 + 1) * sp);
                if final_n > 0 && i1 == iterations as int {
                    assert(call_items@[i1].to_time as int == end0 as int - iterations as int * sp);
                } else {
                    assert(call_items@[i1].from_time as int == end0 as int - (i1 + 1) * sp);
                    assert(call_items@[i1].to_time as int == end0 as int - i1 * sp);
                }
            }
            assert forall|j: int|
                (if final_n > 0 {
                    1int
                } else {
                    0int
                }) <= j < gc implies (#[trigger] flipped@[j].from_time) as int == flipped@[j].to_time
                as int - sp by {
                let i1 = gc - 1 - j;
                assert(flipped@[j] == call_items@[i1]);
                assert(call_items@[i1].from_time as int == end0 as int - (i1 + 1) * sp);
                assert(call_items@[i1].to_time as int == end0 as int - i1 * sp);
                lemma_mul_succ(i1, sp);
            }
            if gc > 0 {
                assert(flipped@[gc - 1] == call_items@[0]);
                if iterations > 0 {
                    assert(call_items@[0].from_time as int == end0 as int - (0 + 1) * sp);
                    assert(call_items@[0].to_time as int == end0 as int - 0int * sp);
                }
            }
        }
        Ok(flipped)
    }

    /// The call ranges needed right now: reads the clock and plans from it.
    /// Whatever the clock returned, a successful plan has the full-call
    /// count that the interval and row limit determine.
    pub fn calls_required(&self) -> (r: Result<Vec<CallItem>, SmartError>)
        requires
            spec_interval_positive(self.interval),
            1 <= self.max_limit <= 10_000,
        ensures
            ({
                let iters = spec_total_units(self.interval) / (self.max_limit as int);
                let fin = spec_total_units(self.interval) % (self.max_limit as int);
                match r {
                    Ok(v) => v@.len() == iters + if fin > 0 {
                        1int
                    } else {
                        0int
                    },
                    Err(e) => e is UpstreamData,
                }
            }),
    {
        let now = match get_world_time_utc() {
            Ok(t) => t,
            Err(_) => {
                return Err(SmartError::UpstreamData(String::from_str("clock unavailable")));
            },
        };
        self.calls_required_at(now)
    }

    /// Renders a call bound in the form the exchange expects: epoch millis
    /// for Binance-family exchanges, epoch seconds for Coinbase and Twelve,
    /// an ISO timestamp (offset back a little when asked, to widen
    /// coverage) for Dydx.
    pub fn format_call_times(&self, timestamp: i64, is_offset: bool) -> (r: String)
        requires
            (self.exchange is Binance || self.exchange is BinanceUs || self.exchange is ByBit)
                ==> -9_000_000_000_000_000 <= timestamp <= 9_000_000_000_000_000,
            (self.exchange is Coinbase || self.exchange is Twelve) ==> timestamp > i64::MIN,
            self.exchange is Dydx ==> 0 <= timestamp - (if is_offset {
                10int
            } else {
                0int
            }) <= 253_402_300_799,
        ensures
            (self.exchange is Binance || self.exchange is BinanceUs || self.exchange is ByBit)
                ==> r@ == dec_chars_signed(timestamp as int * 1000),
            (self.exchange is Coinbase || self.exchange is Twelve) ==> r@ == dec_chars_signed(
                timestamp as int,
            ),
            self.exchange is Dydx ==> r@ == iso_utc_of(
                timestamp as int - (if is_offset {
                    10int
                } else {
                    0int
                }),
            ),
    {
        let offset: i64 = if is_offset {
            10
        } else {
            0
        };
        match self.exchange {
            Exchange::Binance | Exchange::BinanceUs | Exchange::ByBit => {
                let new_timestamp: i64 = timestamp * 1000;
                i64_dec_string(new_timestamp)
            },
            Exchange::Coinbase => i64_dec_string(timestamp),
            Exchange::Dydx => convert_timestamp_to_iso(timestamp - offset),
            Exchange::Twelve => i64_dec_string(timestamp),
        }
    }

    /// The keep-mask that drops a candle whose label repeats the one
    /// before it; the caller filters labels and prices alike with it.
    pub fn duplicate_label_mask(labels: &Vec<u64>) -> (keep: Vec<bool>)
        ensures
            keep@.len() == labels@.len(),
            forall|i: int|
                0 <= i < labels@.len() ==> #[trigger] keep@[i] == (i == 0 || labels@[i] != labels@[
                i - 1]),
    {
        let mut keep: Vec<bool> = Vec::new();
        let n = labels.len();
        let mut i: usize = 0;
        while i < n
            invariant
                i <= n,
                n == labels@.len(),
                keep@.len() == i,
                forall|j: int|
                    0 <= j < i ==> #[trigger] keep@[j] == (j == 0 || labels@[j] != labels@[j - 1]),
            decreases n - i,
        {
            if i == 0 {
                keep.push(true);
            } else {
                keep.push(labels[i] != labels[i - 1]);
            }
            i += 1;
        }
        keep
    }
}

/// A non-negative value shrinks (weakly) under division by a positive one.
proof fn lemma_div_shrinks(a: int, b: int)
    requires
        0 <= a,
        1 <= b,
    ensures
        0 <= a / b <= a,
{
    assert(0 <= a / b <= a) by (nonlinear_arith)
        requires
            0 <= a,
            1 <= b,
    ;
}

/// The full-size calls cover at most the whole period:
/// `(t / m) * (m * s) <= t * s`, which bounds the total shift.
proof fn lemma_shift_bound(t: int, m: int, step: int)
    requires
        0 <= t <= 4_294_967_295,
        1 <= m,
        0 <= step <= 22_032_000,
    ensures
        0 <= (t / m) * (m * step) <= 4_294_967_295 * 22_032_000,
{
    assert(0 <= (t / m) * (m * step) <= 4_294_967_295 * 22_032_000) by (nonlinear_arith)
        requires
            0 <= t <= 4_294_967_295,
            1 <= m,
            0 <= step <= 22_032_000,
    ;
}

/// Distributing a successor over a product.
proof fn lemma_mul_succ(i: int, s: int)
    ensures
        (i + 1) * s == i * s + s,
{
    assert((i + 1) * s == i * s + s) by (nonlinear_arith);
}

/// The same items in the opposite order.
fn reversed(items: &Vec<CallItem>) -> (r: Vec<CallItem>)
    ensures
        r@.len() == items@.len(),
        forall|j: int|
            0 <= j < items@.len() ==> #[trigger] r@[j] == items@[items@.len() - 1 - j],
{
    let n = items.len();
    let mut r: Vec<CallItem> = Vec::new();
    let mut i: usize = 0;
    while i < n
        invariant
            i <= n,
            n == items@.len(),
            r@.len() == i,
            forall|j: int| 0 <= j < i ==> #[trigger] r@[j] == items@[n - 1 - j],
        decreases n - i,
    {
        r.push(items[n - 1 - i]);
        i += 1;
    }
    r
}

} // verus!
