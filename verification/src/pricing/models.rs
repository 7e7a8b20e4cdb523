//! Data-source models: exchanges, candle intervals, and the request shapes
//! used when fetching the two price series of a pair.

use vstd::prelude::*;

use crate::text::{dec_chars, str_eq, u64_dec_string};

verus! {

/// A candle interval together with the period to cover, both in the
/// interval's own unit (minutes, hours or days).
#[derive(Debug, Clone, Copy, PartialEq, Eq, Structural)]
pub enum IntervalPeriod {
    /// Interval in minutes, period in minutes.
    Min(u8, u32),
    /// Interval in hours, period in hours.
    Hour(u8, u32),
    /// Interval in days, period in days.
    Day(u8, u32),
}

/// The supported market-data providers.
#[derive(Debug, Clone, Copy, PartialEq, Eq, Structural)]
pub enum Exchange {
    Binance,
    BinanceUs,
    ByBit,
    Coinbase,
    Dydx,
    Twelve,
}

/// The asset classes a symbol listing can be restricted to.
#[derive(Debug, Clone, Copy, PartialEq, Eq, Structural)]
pub enum AssetType {
    Crypto,
    Etf,
    Forex,
    Indices,
    Stock,
}

/// What to fetch: the exchange, the two assets, and the candle interval.
#[derive(Debug, Clone)]
pub struct DataCriteria {
    pub exchange: Exchange,
    pub asset_0: String,
    pub asset_1: String,
    pub interval_period: IntervalPeriod,
}

/// One half-open time range of a candle request.
#[derive(Debug, Clone, Copy, PartialEq, Eq, Structural)]
pub struct CallItem {
    pub from_time: i64,
    pub to_time: i64,
}

/// An exchange label together with its default period.
#[derive(Debug, Clone)]
pub struct ExchInt {
    pub exchange_str: String,
    pub default_period: u32,
}

/// One candle record of the Dydx candle feed, fields as the wire carries
/// them.
#[allow(non_snake_case)]
#[derive(Debug, Clone)]
pub struct DydxCandleObj {
    pub baseTokenVolume: String,
    pub close: String,
    pub high: String,
    pub low: String,
    pub market: String,
    pub open: String,
    pub resolution: String,
    pub startedAt: String,
    pub startingOpenInterest: String,
    pub trades: String,
    pub updatedAt: String,
    pub usdVolume: String,
}

/// The candle list of the Dydx candle feed.
#[derive(Debug, Clone)]
pub struct DydxCandle {
    pub candles: Vec<DydxCandleObj>,
}

/// The label `as_string` renders for an interval period.
pub open spec fn spec_interval_label(iv: IntervalPeriod) -> Seq<char> {
    match iv {
        IntervalPeriod::Min(x, y) => "[Min]["@ + dec_chars(x as int) + ","@ + dec_chars(y as int)
            + "]"@,
        IntervalPeriod::Hour(x, y) => "[Hour]["@ + dec_chars(x as int) + ","@ + dec_chars(y as int)
            + "]"@,
        IntervalPeriod::Day(x, y) => "[Day]["@ + dec_chars(x as int) + ","@ + dec_chars(y as int)
            + "]"@,
    }
}

/// Builds `prefix` + decimal(x) + "," + decimal(y) + "]".
fn interval_label_parts(prefix: &str, x: u64, y: u64) -> (r: String)
    ensures
        r@ == prefix@ + dec_chars(x as int) + ","@ + dec_chars(y as int) + "]"@,
{
    let mut s = String::from_str(prefix);
    let xs = u64_dec_string(x);
    s.append(xs.as_str());
    s.append(",");
    let ys = u64_dec_string(y);
    s.append(ys.as_str());
    s.append("]");
    proof {
        assert(s@ =~= prefix@ + dec_chars(x as int) + ","@ + dec_chars(y as int) + "]"@);
    }
    s
}

impl IntervalPeriod {
    /// Renders the interval as a bracketed label, e.g. `[Min][5,100]`.
    pub fn as_string(&self) -> (r: String)
        ensures
            r@ == spec_interval_label(*self),
    {
        match self {
            IntervalPeriod::Min(x, y) => interval_label_parts("[Min][", *x as u64, *y as u64),
            IntervalPeriod::Hour(x, y) => interval_label_parts("[Hour][", *x as u64, *y as u64),
            IntervalPeriod::Day(x, y) => interval_label_parts("[Day][", *x as u64, *y as u64),
        }
    }
}

/// The canonical name of an exchange.
pub open spec fn spec_exchange_name(e: Exchange) -> Seq<char> {
    match e {
        Exchange::Binance => "Binance"@,
        Exchange::BinanceUs => "BinanceUs"@,
        Exchange::ByBit => "ByBit"@,
        Exchange::Coinbase => "Coinbase"@,
        Exchange::Dydx => "Dydx"@,
        Exchange::Twelve => "Twelve"@,
    }
}

/// The pair of default ticker assets for an exchange.
pub open spec fn spec_default_assets(e: Exchange) -> (Seq<char>, Seq<char>) {
    match e {
        Exchange::Binance | Exchange::BinanceUs | Exchange::ByBit => ("BTCUSDT"@, "ETHUSDT"@),
        Exchange::Coinbase | Exchange::Dydx => ("BTC-USD"@, "ETH-USD"@),
        Exchange::Twelve => ("USD/GBP"@, "USD/GBP"@),
    }
}

impl Exchange {
    /// Decodes an exchange from its label. Only the labels below are
    /// accepted; `"Fmp"` selects the Twelve provider.
    pub fn create_from_string(exchange_str: &str) -> (r: Self)
        requires
            exchange_str@ == "Binance"@ || exchange_str@ == "BinanceUs"@ || exchange_str@
                == "Coinbase"@ || exchange_str@ == "Dydx"@ || exchange_str@ == "Fmp"@,
        ensures
            exchange_str@ == "Binance"@ ==> r is Binance,
            exchange_str@ == "BinanceUs"@ ==> r is BinanceUs,
            exchange_str@ == "Coinbase"@ ==> r is Coinbase,
            exchange_str@ == "Dydx"@ ==> r is Dydx,
            exchange_str@ == "Fmp"@ ==> r is Twelve,
    {
        proof {
            reveal_strlit("Binance");
            reveal_strlit("BinanceUs");
            reveal_strlit("Coinbase");
            reveal_strlit("Dydx");
            reveal_strlit("Fmp");
            assert("Binance"@.len() == 7);
            assert("BinanceUs"@.len() == 9);
            assert("Coinbase"@.len() == 8);
            assert("Dydx"@.len() == 4);
            assert("Fmp"@.len() == 3);
        }
        if str_eq(exchange_str, "Binance") {
            Exchange::Binance
        } else if str_eq(exchange_str, "BinanceUs") {
            Exchange::BinanceUs
        } else if str_eq(exchange_str, "Coinbase") {
            Exchange::Coinbase
        } else if str_eq(exchange_str, "Dydx") {
            Exchange::Dydx
        } else {
            Exchange::Twelve
        }
    }

    /// The canonical name of the exchange.
    pub fn as_string(&self) -> (r: String)
        ensures
            r@ == spec_exchange_name(*self),
    {
        match self {
            Exchange::Binance => String::from_str("Binance"),
            Exchange::BinanceUs => String::from_str("BinanceUs"),
            Exchange::ByBit => String::from_str("ByBit"),
            Exchange::Coinbase => String::from_str("Coinbase"),
            Exchange::Dydx => String::from_str("Dydx"),
            Exchange::Twelve => String::from_str("Twelve"),
        }
    }

    /// The default ticker pair of the exchange.
    pub fn default_assets(&self) -> (r: (String, String))
        ensures
            r.0@ == spec_default_assets(*self).0,
            r.1@ == spec_default_assets(*self).1,
    {
        let asset_1: String = match self {
            Exchange::Binance | Exchange::BinanceUs | Exchange::ByBit => String::from_str(
                "BTCUSDT",
            ),
            Exchange::Coinbase | Exchange::Dydx => String::from_str("BTC-USD"),
            Exchange::Twelve => String::from_str("USD/GBP"),
        };
        let asset_2: String = match self {
            Exchange::Binance | Exchange::BinanceUs | Exchange::ByBit => String::from_str(
                "ETHUSDT",
            ),
            Exchange::Coinbase | Exchange::Dydx => String::from_str("ETH-USD"),
            Exchange::Twelve => String::from_str("USD/GBP"),
        };
        (asset_1, asset_2)
    }

    /// The default candle interval: hourly candles over 700 hours.
    pub fn default_interval_period(&self) -> (r: IntervalPeriod)
        ensures
            r == IntervalPeriod::Hour(1, 700),
    {
        IntervalPeriod::Hour(1, 700)
    }

    /// The interval labels the exchange accepts, each with the interval it
    /// selects over the given default period.
    pub fn available_intervals(&self, default_period: u32) -> (r: Vec<(&'static str, IntervalPeriod)>)
        ensures
            (r@.map_values(|t: (&'static str, IntervalPeriod)| (t.0@, t.1)))
                =~= spec_available_intervals(*self, default_period),
    {
        let mut v: Vec<(&'static str, IntervalPeriod)> = Vec::new();
        match self {
            Exchange::Binance | Exchange::BinanceUs => {
                v.push(("5min", IntervalPeriod::Min(5, default_period)));
                v.push(("15min", IntervalPeriod::Min(15, default_period)));
                v.push(("30min", IntervalPeriod::Min(30, default_period)));
                v.push(("1hour", IntervalPeriod::Hour(1, default_period)));
                v.push(("2hour", IntervalPeriod::Hour(2, default_period)));
                v.push(("4hour", IntervalPeriod::Hour(4, default_period)));
                v.push(("6hour", IntervalPeriod::Hour(6, default_period)));
                v.push(("8hour", IntervalPeriod::Hour(8, default_period)));
                v.push(("12hour", IntervalPeriod::Hour(12, default_period)));
                v.push(("1day", IntervalPeriod::Day(1, default_period)));
            },
            Exchange::ByBit => {
                v.push(("5", IntervalPeriod::Min(5, default_period)));
                v.push(("15", IntervalPeriod::Min(15, default_period)));
                v.push(("30", IntervalPeriod::Min(30, default_period)));
                v.push(("60", IntervalPeriod::Hour(1, default_period)));
                v.push(("120", IntervalPeriod::Hour(2, default_period)));
                v.push(("240", IntervalPeriod::Hour(4, default_period)));
                v.push(("360", IntervalPeriod::Hour(6, default_period)));
                v.push(("720", IntervalPeriod::Hour(12, default_period)));
                v.push(("D", IntervalPeriod::Day(1, default_period)));
            },
            Exchange::Coinbase => {
                v.push(("5min", IntervalPeriod::Min(5, default_period)));
                v.push(("15min", IntervalPeriod::Min(15, default_period)));
                v.push(("1hour", IntervalPeriod::Hour(1, default_period)));
                v.push(("6hour", IntervalPeriod::Hour(6, default_period)));
                v.push(("1day", IntervalPeriod::Day(1, default_period)));
            },
            Exchange::Dydx => {
                v.push(("5MIN", IntervalPeriod::Min(5, default_period)));
                v.push(("15MINS", IntervalPeriod::Min(15, default_period)));
                v.push(("30MINS", IntervalPeriod::Min(30, default_period)));
                v.push(("1HOUR", IntervalPeriod::Hour(1, default_period)));
                v.push(("4HOURS", IntervalPeriod::Hour(4, default_period)));
                v.push(("1DAY", IntervalPeriod::Day(1, default_period)));
            },
            Exchange::Twelve => {
                v.push(("5m", IntervalPeriod::Min(5, default_period)));
                v.push(("15min", IntervalPeriod::Min(15, default_period)));
                v.push(("30min", IntervalPeriod::Min(30, default_period)));
                v.push(("1h", IntervalPeriod::Hour(1, default_period)));
                v.push(("2h", IntervalPeriod::Hour(2, default_period)));
                v.push(("4h", IntervalPeriod::Hour(4, default_period)));
                v.push(("1day", IntervalPeriod::Day(1, default_period)));
            },
        }
        v
    }
}

/// The interval-label table of `available_intervals`.
pub open spec fn spec_available_intervals(e: Exchange, p: u32) -> Seq<(Seq<char>, IntervalPeriod)> {
    match e {
        Exchange::Binance | Exchange::BinanceUs => seq![
            ("5min"@, IntervalPeriod::Min(5, p)),
            ("15min"@, IntervalPeriod::Min(15, p)),
            ("30min"@, IntervalPeriod::Min(30, p)),
            ("1hour"@, IntervalPeriod::Hour(1, p)),
            ("2hour"@, IntervalPeriod::Hour(2, p)),
            ("4hour"@, IntervalPeriod::Hour(4, p)),
            ("6hour"@, IntervalPeriod::Hour(6, p)),
            ("8hour"@, IntervalPeriod::Hour(8, p)),
            ("12hour"@, IntervalPeriod::Hour(12, p)),
            ("1day"@, IntervalPeriod::Day(1, p)),
        ],
        Exchange::ByBit => seq![
            ("5"@, IntervalPeriod::Min(5, p)),
            ("15"@, IntervalPeriod::Min(15, p)),
            ("30"@, IntervalPeriod::Min(30, p)),
            ("60"@, IntervalPeriod::Hour(1, p)),
            ("120"@, IntervalPeriod::Hour(2, p)),
            ("240"@, IntervalPeriod::Hour(4, p)),
            ("360"@, IntervalPeriod::Hour(6, p)),
            ("720"@, IntervalPeriod::Hour(12, p)),
            ("D"@, IntervalPeriod::Day(1, p)),
        ],
        Exchange::Coinbase => seq![
            ("5min"@, IntervalPeriod::Min(5, p)),
            ("15min"@, IntervalPeriod::Min(15, p)),
            ("1hour"@, IntervalPeriod::Hour(1, p)),
            ("6hour"@, IntervalPeriod::Hour(6, p)),
            ("1day"@, IntervalPeriod::Day(1, p)),
        ],
        Exchange::Dydx => seq![
            ("5MIN"@, IntervalPeriod::Min(5, p)),
            ("15MINS"@, IntervalPeriod::Min(15, p)),
            ("30MINS"@, IntervalPeriod::Min(30, p)),
            ("1HOUR"@, IntervalPeriod::Hour(1, p)),
            ("4HOURS"@, IntervalPeriod::Hour(4, p)),
            ("1DAY"@, IntervalPeriod::Day(1, p)),
        ],
        Exchange::Twelve => seq![
            ("5m"@, IntervalPeriod::Min(5, p)),
            ("15min"@, IntervalPeriod::Min(15, p)),
            ("30min"@, IntervalPeriod::Min(30, p)),
            ("1h"@, IntervalPeriod::Hour(1, p)),
            ("2h"@, IntervalPeriod::Hour(2, p)),
            ("4h"@, IntervalPeriod::Hour(4, p)),
            ("1day"@, IntervalPeriod::Day(1, p)),
        ],
    }
}

} // verus!
