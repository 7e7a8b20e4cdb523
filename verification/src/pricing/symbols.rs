//! Symbol-listing URLs, one per exchange; Twelve differentiates by asset
//! class.

use vstd::prelude::*;

use crate::pricing::models::{AssetType, Exchange};

verus! {

/// The symbol-listing URL of an exchange. For the Twelve provider the
/// asset class picks the listing; no class means forex pairs.
pub open spec fn spec_symbols_url(e: Exchange, asset_type: Option<AssetType>) -> Seq<char> {
    match e {
        Exchange::Binance => "https://fapi.binance.com/fapi/v1/exchangeInfo"@,
        Exchange::BinanceUs => "https://api.binance.us/api/v3/exchangeInfo"@,
        Exchange::ByBit => "https://api.bybit.com/v5/market/instruments-info?category=linear"@,
        Exchange::Coinbase => "https://api.exchange.coinbase.com/products"@,
        Exchange::Dydx => "https://api.dydx.exchange/v3/markets"@,
        Exchange::Twelve => match asset_type {
            Some(AssetType::Crypto) => "https://api.twelvedata.com/cryptocurrencies"@,
            Some(AssetType::Etf) => "https://api.twelvedata.com/etf"@,
            Some(AssetType::Forex) => "https://api.twelvedata.com/forex_pairs"@,
            Some(AssetType::Stock) => "https://api.twelvedata.com/stocks"@,
            Some(AssetType::Indices) => "https://api.twelvedata.com/indices"@,
            None => "https://api.twelvedata.com/forex_pairs"@,
        },
    }
}

/// The symbol-listing URL for an exchange.
pub fn get_symbols_url(exchange: &Exchange, asset_type: Option<AssetType>) -> (r: String)
    ensures
        r@ == spec_symbols_url(*exchange, asset_type),
{
    let twelve_symbols: &'static str = match asset_type {
        Some(t) => match t {
            AssetType::Crypto => "https://api.twelvedata.com/cryptocurrencies",
            AssetType::Etf => "https://api.twelvedata.com/etf",
            AssetType::Forex => "https://api.twelvedata.com/forex_pairs",
            AssetType::Stock => "https://api.twelvedata.com/stocks",
            AssetType::Indices => "https://api.twelvedata.com/indices",
        },
        None => "https://api.twelvedata.com/forex_pairs",
    };
    match exchange {
        Exchange::Binance => String::from_str("https://fapi.binance.com/fapi/v1/exchangeInfo"),
        Exchange::BinanceUs => String::from_str("https://api.binance.us/api/v3/exchangeInfo"),
        Exchange::ByBit => String::from_str(
            "https://api.bybit.com/v5/market/instruments-info?category=linear",
        ),
        Exchange::Coinbase => String::from_str("https://api.exchange.coinbase.com/products"),
        Exchange::Dydx => String::from_str("https://api.dydx.exchange/v3/markets"),
        Exchange::Twelve => String::from_str(twelve_symbols),
    }
}

} // verus!
