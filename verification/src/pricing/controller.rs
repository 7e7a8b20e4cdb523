//! A thin controller that owns the candle builder for one asset.

use vstd::prelude::*;

use crate::pricing::candles::{spec_candles_url, spec_key, spec_max_limit, CandleBuilder};
use crate::pricing::models::{Exchange, IntervalPeriod};

verus! {

/// Owns the request builder for one asset's candle series.
#[derive(Debug)]
pub struct PriceController {
    candle_builder: CandleBuilder,
}

impl PriceController {
    /// The builder held inside.
    pub closed spec fn builder(&self) -> CandleBuilder {
        self.candle_builder
    }

    /// Prepares the candle builder for the asset. The Twelve provider
    /// needs an API key.
    pub fn new(
        symbol: String,
        interval: IntervalPeriod,
        exchange: Exchange,
        twelve_api_key: Option<&str>,
    ) -> (r: Self)
        requires
            exchange is Twelve ==> twelve_api_key is Some,
        ensures
            r.builder().symbol@ == symbol@,
            r.builder().interval == interval,
            r.builder().exchange == exchange,
            r.builder().max_limit == spec_max_limit(exchange),
            r.builder().query_url@ == spec_candles_url(exchange, spec_key(twelve_api_key)),
    {
        let candle_builder: CandleBuilder = CandleBuilder::new(
            symbol,
            interval,
            exchange,
            twelve_api_key,
        );
        PriceController { candle_builder }
    }

    /// Grants access to the builder, for the caller that performs the
    /// fetches.
    pub fn candle_builder(&self) -> (r: &CandleBuilder)
        ensures
            *r == self.builder(),
    {
        &self.candle_builder
    }
}

} // verus!
