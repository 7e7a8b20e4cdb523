use pairtrade::SmartError;
use pairtrade::pricing::candles::CandleBuilder;
use pairtrade::pricing::controller::PriceController;
use pairtrade::pricing::models::{AssetType, CallItem, Exchange, IntervalPeriod};
use pairtrade::pricing::quotemulti::get_multi_quote_url;
use pairtrade::pricing::quotes::get_quote_url;
use pairtrade::pricing::symbols::get_symbols_url;
use pairtrade::pricing::volume::get_tickers_url;

fn structure_candle_builder(exchange: Exchange, symbol: &str, api_key: Option<&str>) -> CandleBuilder {
    let symbol: String = symbol.to_string();
    let interval: u8 = 1;
    let interval_count: u32 = 200;
    let interval_period: IntervalPeriod = IntervalPeriod::Hour(interval, interval_count);
    CandleBuilder::new(symbol, interval_period, exchange, api_key)
}

#[test]
fn tests_calculate_call_count() {
    let price_builder: CandleBuilder = structure_candle_builder(Exchange::Dydx, "BTCUSDT", None);
    let (iterations, final_n) = price_builder.calculate_call_count();
    assert!(iterations > 0);
    assert!(final_n > 0);
}

#[test]
fn tests_calls_required() {
    let price_builder: CandleBuilder = structure_candle_builder(Exchange::Binance, "BTCUSDT", None);
    let calls_required: Vec<CallItem> = price_builder.calls_required().unwrap();
    assert!(calls_required.len() > 0);
}

#[test]
fn call_count_exact_values() {
    // Dydx allows 95 rows per call; 200 hourly candles need two full calls
    // and a final call of ten.
    let builder = structure_candle_builder(Exchange::Dydx, "BTC-USD", None);
    assert_eq!(builder.calculate_call_count(), (2, 10));
}

#[test]
fn call_plan_is_chained_and_aligned() {
    let builder = structure_candle_builder(Exchange::Dydx, "BTC-USD", None);
    let now: i64 = 1688214200; // aligns down to 1688212800
    let items = builder.calls_required_at(now).unwrap();
    assert_eq!(
        items,
        vec![
            CallItem { from_time: 1687492800, to_time: 1687528800 },
            CallItem { from_time: 1687528800, to_time: 1687870800 },
            CallItem { from_time: 1687870800, to_time: 1688212800 },
        ]
    );
}

#[test]
fn call_plan_rejects_pre_epoch_clock() {
    let builder = structure_candle_builder(Exchange::Dydx, "BTC-USD", None);
    assert!(matches!(
        builder.calls_required_at(-5),
        Err(SmartError::UpstreamData(_))
    ));
}

#[test]
fn max_limits_per_exchange() {
    assert_eq!(CandleBuilder::get_max_limit(&Exchange::Binance), 995);
    assert_eq!(CandleBuilder::get_max_limit(&Exchange::BinanceUs), 995);
    assert_eq!(CandleBuilder::get_max_limit(&Exchange::ByBit), 195);
    assert_eq!(CandleBuilder::get_max_limit(&Exchange::Coinbase), 295);
    assert_eq!(CandleBuilder::get_max_limit(&Exchange::Dydx), 95);
    assert_eq!(CandleBuilder::get_max_limit(&Exchange::Twelve), 4995);
}

#[test]
fn builder_getters_and_url() {
    let builder = structure_candle_builder(Exchange::Binance, "BTCUSDT", None);
    assert_eq!(builder.get_symbol(), "BTCUSDT");
    assert_eq!(builder.get_interval(), IntervalPeriod::Hour(1, 200));
    assert_eq!(builder.get_exchange(), Exchange::Binance);
    assert_eq!(
        builder.get_request_url(),
        "https://fapi.binance.com/fapi/v1/klines?symbol={symbol}&interval={interval}&startTime={fromTime}&endTime={toTime}&limit={limit}"
    );
}

#[test]
fn twelve_url_carries_api_key() {
    let builder = structure_candle_builder(Exchange::Twelve, "USD/GBP", Some("SECRET-REDACTED"));
    let url = builder.get_request_url();
    assert!(url.starts_with("https://api.twelvedata.com/time_series?"));
    assert!(url.ends_with("&apikey=SECRET-REDACTED"));
}

#[test]
fn interval_codes_per_exchange() {
    let b = structure_candle_builder(Exchange::Binance, "BTCUSDT", None);
    assert_eq!(b.structure_interval().unwrap(), "1h");
    let mut b = structure_candle_builder(Exchange::ByBit, "BTCUSDT", None);
    b.interval = IntervalPeriod::Hour(4, 200);
    assert_eq!(b.structure_interval().unwrap(), "240");
    let mut b = structure_candle_builder(Exchange::Dydx, "BTC-USD", None);
    b.interval = IntervalPeriod::Min(30, 200);
    assert_eq!(b.structure_interval().unwrap(), "30MINS");
    let mut b = structure_candle_builder(Exchange::Coinbase, "BTC-USD", None);
    b.interval = IntervalPeriod::Day(1, 200);
    assert_eq!(b.structure_interval().unwrap(), "86400");
}

#[test]
fn unsupported_interval_is_an_error() {
    let mut b = structure_candle_builder(Exchange::Coinbase, "BTC-USD", None);
    b.interval = IntervalPeriod::Min(30, 200);
    assert_eq!(b.structure_interval(), Err(SmartError::UnsupportedInterval));
}

#[test]
fn format_call_times_per_exchange() {
    let b = structure_candle_builder(Exchange::Binance, "BTCUSDT", None);
    assert_eq!(b.format_call_times(1688214200, false), "1688214200000");
    let b = structure_candle_builder(Exchange::Coinbase, "BTC-USD", None);
    assert_eq!(b.format_call_times(1688214200, true), "1688214200");
    let b = structure_candle_builder(Exchange::Dydx, "BTC-USD", None);
    assert_eq!(b.format_call_times(1688214210, true), "2023-07-01T12:23:20.000Z");
    assert_eq!(b.format_call_times(1688214200, false), "2023-07-01T12:23:20.000Z");
}

#[test]
fn duplicate_labels_are_masked() {
    let labels: Vec<u64> = vec![1, 1, 2, 3, 3];
    let keep = CandleBuilder::duplicate_label_mask(&labels);
    assert_eq!(keep, vec![true, false, true, true, false]);
}

#[test]
fn controller_holds_builder() {
    let controller = PriceController::new(
        "BTCUSDT".to_string(),
        IntervalPeriod::Hour(1, 200),
        Exchange::Binance,
        None,
    );
    assert_eq!(controller.candle_builder().max_limit, 995);
}

#[test]
fn exchange_from_string() {
    assert_eq!(Exchange::create_from_string("Binance"), Exchange::Binance);
    assert_eq!(Exchange::create_from_string("BinanceUs"), Exchange::BinanceUs);
    assert_eq!(Exchange::create_from_string("Coinbase"), Exchange::Coinbase);
    assert_eq!(Exchange::create_from_string("Dydx"), Exchange::Dydx);
    assert_eq!(Exchange::create_from_string("Fmp"), Exchange::Twelve);
}

#[test]
fn exchange_as_string() {
    assert_eq!(Exchange::ByBit.as_string(), "ByBit");
    assert_eq!(Exchange::Twelve.as_string(), "Twelve");
}

#[test]
fn exchange_default_assets() {
    assert_eq!(
        Exchange::Coinbase.default_assets(),
        ("BTC-USD".to_string(), "ETH-USD".to_string())
    );
    assert_eq!(
        Exchange::Binance.default_assets(),
        ("BTCUSDT".to_string(), "ETHUSDT".to_string())
    );
}

#[test]
fn exchange_default_interval() {
    assert_eq!(
        Exchange::Dydx.default_interval_period(),
        IntervalPeriod::Hour(1, 700)
    );
}

#[test]
fn exchange_available_intervals() {
    let v = Exchange::Coinbase.available_intervals(700);
    assert_eq!(v.len(), 5);
    assert_eq!(v[2], ("1hour", IntervalPeriod::Hour(1, 700)));
    let v = Exchange::Binance.available_intervals(500);
    assert_eq!(v.len(), 10);
    assert_eq!(v[9], ("1day", IntervalPeriod::Day(1, 500)));
    let v = Exchange::ByBit.available_intervals(100);
    assert_eq!(v[8], ("D", IntervalPeriod::Day(1, 100)));
}

#[test]
fn interval_period_as_string() {
    assert_eq!(IntervalPeriod::Min(5, 100).as_string(), "[Min][5,100]");
    assert_eq!(IntervalPeriod::Hour(12, 700).as_string(), "[Hour][12,700]");
    assert_eq!(IntervalPeriod::Day(1, 0).as_string(), "[Day][1,0]");
}

#[test]
fn quote_urls() {
    assert_eq!(
        get_quote_url(&Exchange::Binance, None),
        "https://fapi.binance.com/fapi/v1/ticker/price?symbol={symbol}"
    );
    assert_eq!(
        get_quote_url(&Exchange::Twelve, Some("SECRET-REDACTED")),
        "https://api.twelvedata.com/price?symbol={symbol}&apikey=SECRET-REDACTED"
    );
}

#[test]
fn multi_quote_urls() {
    assert_eq!(
        get_multi_quote_url(&Exchange::Dydx, None),
        "https://api.dydx.exchange/v3/markets"
    );
    assert_eq!(
        get_multi_quote_url(&Exchange::Twelve, Some("SECRET-REDACTED")),
        "https://api.twelvedata.com/price?symbol={symbolstring}&apikey=SECRET-REDACTED"
    );
}

#[test]
fn symbols_urls() {
    assert_eq!(
        get_symbols_url(&Exchange::ByBit, None),
        "https://api.bybit.com/v5/market/instruments-info?category=linear"
    );
    assert_eq!(
        get_symbols_url(&Exchange::Twelve, Some(AssetType::Forex)),
        "https://api.twelvedata.com/forex_pairs"
    );
    assert_eq!(
        get_symbols_url(&Exchange::Twelve, None),
        "https://api.twelvedata.com/forex_pairs"
    );
    assert_eq!(
        get_symbols_url(&Exchange::Twelve, Some(AssetType::Crypto)),
        "https://api.twelvedata.com/cryptocurrencies"
    );
}

#[test]
fn tickers_urls() {
    assert_eq!(
        get_tickers_url(&Exchange::Binance).unwrap(),
        "https://fapi.binance.com/fapi/v1/ticker/24hr"
    );
    assert!(get_tickers_url(&Exchange::Coinbase).is_none());
    assert!(get_tickers_url(&Exchange::Twelve).is_none());
}
