//! Quote-endpoint URLs, one per exchange.

use vstd::prelude::*;

use crate::pricing::candles::spec_key;
use crate::pricing::models::Exchange;

verus! {

/// The single-quote URL template of an exchange; the Twelve template
/// carries the API key appended.
pub open spec fn spec_quote_url(e: Exchange, key: Seq<char>) -> Seq<char> {
    match e {
        Exchange::Binance => "https://fapi.binance.com/fapi/v1/ticker/price?symbol={symbol}"@,
        Exchange::BinanceUs => "https://api.binance.us/api/v3/ticker/price?symbol={symbol}"@,
        Exchange::ByBit => "https://api.bybit.com/v5/market/tickers?category=linear&symbol={symbol}"@,
        Exchange::Coinbase => "https://api.exchange.coinbase.com/products/{symbol}/book?level=0"@,
        Exchange::Dydx => "https://api.dydx.exchange/v3/markets?market={symbol}"@,
        Exchange::Twelve => "https://api.twelvedata.com/price?symbol={symbol}"@ + "&apikey="@ + key,
    }
}

/// The quote URL for an exchange. The Twelve provider needs an API key.
pub fn get_quote_url(exchange: &Exchange, twelve_api_key: Option<&str>) -> (r: String)
    requires
        exchange is Twelve ==> twelve_api_key is Some,
    ensures
        r@ == spec_quote_url(*exchange, spec_key(twelve_api_key)),
{
    match exchange {
        Exchange::Binance => String::from_str(
            "https://fapi.binance.com/fapi/v1/ticker/price?symbol={symbol}",
        ),
        Exchange::BinanceUs => String::from_str(
            "https://api.binance.us/api/v3/ticker/price?symbol={symbol}",
        ),
        Exchange::ByBit => String::from_str(
            "https://api.bybit.com/v5/market/tickers?category=linear&symbol={symbol}",
        ),
        Exchange::Coinbase => String::from_str(
            "https://api.exchange.coinbase.com/products/{symbol}/book?level=0",
        ),
        Exchange::Dydx => String::from_str(
            "https://api.dydx.exchange/v3/markets?market={symbol}",
        ),
        Exchange::Twelve => match twelve_api_key {
            Some(api_key) => String::from_str("https://api.twelvedata.com/price?symbol={symbol}")
                .concat("&apikey=")
                .concat(api_key),
            None => {
                proof {
                    assert(false);
                }
                String::new()
            },
        },
    }
}

} // verus!
