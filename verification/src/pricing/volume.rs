//! Volume-ranking URLs: only the Binance-family exchanges and ByBit offer
//! a 24-hour ticker listing.

use vstd::prelude::*;

use crate::pricing::models::Exchange;

verus! {

/// The 24-hour ticker URL of an exchange, where one exists.
pub open spec fn spec_tickers_url(e: Exchange) -> Option<Seq<char>> {
    match e {
        Exchange::Binance => Some("https://fapi.binance.com/fapi/v1/ticker/24hr"@),
        Exchange::BinanceUs => Some("https://api.binance.us/api/v3/ticker/24hr"@),
        Exchange::ByBit => Some("https://api.bybit.com/v5/market/tickers?category=linear"@),
        _ => None,
    }
}

/// The 24-hour ticker URL for an exchange, where one exists.
pub fn get_tickers_url(exchange: &Exchange) -> (r: Option<String>)
    ensures
        match spec_tickers_url(*exchange) {
            Some(u) => r matches Some(s) && s@ == u,
            None => r is None,
        },
{
    match exchange {
        Exchange::Binance => Some(String::from_str("https://fapi.binance.com/fapi/v1/ticker/24hr")),
        Exchange::BinanceUs => Some(
            String::from_str("https://api.binance.us/api/v3/ticker/24hr"),
        ),
        Exchange::ByBit => Some(
            String::from_str("https://api.bybit.com/v5/market/tickers?category=linear"),
        ),
        _ => None,
    }
}

} // verus!
