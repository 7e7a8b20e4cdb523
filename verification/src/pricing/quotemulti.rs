//! Multi-quote endpoint URLs, one per exchange.

use vstd::prelude::*;

use crate::pricing::candles::spec_key;
use crate::pricing::models::Exchange;

verus! {

/// The multi-quote URL template of an exchange; the Twelve template
/// carries the API key appended.
pub open spec fn spec_multi_quote_url(e: Exchange, key: Seq<char>) -> Seq<char> {
    match e {
        Exchange::Binance => "https://fapi.binance.com/fapi/v1/ticker/price"@,
        Exchange::BinanceUs => "https://api.binance.us/api/v3/ticker/price"@,
        Exchange::ByBit => "https://api.bybit.com/v5/market/tickers?category=linear"@,
        Exchange::Coinbase => "https://api.exchange.coinbase.com/products/"@,
        Exchange::Dydx => "https://api.dydx.exchange/v3/markets"@,
        Exchange::Twelve => "https://api.twelvedata.com/price?symbol={symbolstring}"@ + "&apikey="@
            + key,
    }
}

/// The multi-quote URL for an exchange. The Twelve provider needs an API
/// key.
pub fn get_multi_quote_url(exchange: &Exchange, twelve_api_key: Option<&str>) -> (r: String)
    requires
        exchange is Twelve ==> twelve_api_key is Some,
    ensures
        r@ == spec_multi_quote_url(*exchange, spec_key(twelve_api_key)),
{
    match exchange {
        Exchange::Binance => String::from_str("https://fapi.binance.com/fapi/v1/ticker/price"),
        Exchange::BinanceUs => String::from_str("https://api.binance.us/api/v3/ticker/price"),
        Exchange::ByBit => String::from_str(
            "https://api.bybit.com/v5/market/tickers?category=linear",
        ),
        Exchange::Coinbase => String::from_str("https://api.exchange.coinbase.com/products/"),
        Exchange::Dydx => String::from_str("https://api.dydx.exchange/v3/markets"),
        Exchange::Twelve => match twelve_api_key {
            Some(api_key) => String::from_str(
                "https://api.twelvedata.com/price?symbol={symbolstring}",
            ).concat("&apikey=").concat(api_key),
            None => {
                proof {
                    assert(false);
                }
                String::new()
            },
        },
    }
}

} // verus!
