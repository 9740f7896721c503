//! Configuration: what is loaded once at startup, and what the trading loop
//! derives from it and from the market's increments.

use vstd::prelude::*;
use crate::decimal::{lemma_units_sign, less_than, Decimal};
use crate::precision::{convert_increment_to_precision, precision_of};
use crate::sizing::{round_order_size, spec_round_order_size, SizeError};

verus! {

/// The settings of a run. They are read once and never changed.
#[derive(Clone, Debug, PartialEq, Eq)]
pub struct Settings {
    /// Name of the futures market.
    pub market_name: String,
    /// Seconds between two samples of the order book.
    pub time_delta: u64,
    /// Number of samples in the rolling band.
    pub bb_period: usize,
    /// Depth of the order book to request.
    pub orderbook_depth: u32,
    /// Whether orders are sent to the exchange.
    pub live: bool,
    /// Size of the position to take.
    pub order_size: Decimal,
    /// Distance of the take-profit from the entry, in percent.
    pub tp_percent: Decimal,
    /// Distance of the stop-loss from the entry, in percent.
    pub sl_percent: Decimal,
    /// Whether trades are written to the ledger.
    pub write_to_file: bool,
}

impl Settings {
    /// The three decimals are well-formed.
    pub open spec fn wf(self) -> bool {
        self.order_size.wf() && self.tp_percent.wf() && self.sl_percent.wf()
    }
}

/// What the trading loop works with: the settings that govern a trade, the
/// price precision of the market and the order size at the precision of the
/// market's lot increment.
#[derive(Clone, Debug, PartialEq, Eq)]
pub struct Config {
    pub market: String,
    pub live: bool,
    pub write_to_file: bool,
    pub order_size: Decimal,
    pub tp_percent: Decimal,
    pub sl_percent: Decimal,
    pub price_precision: u32,
}

impl Config {
    /// The three decimals are well-formed.
    pub open spec fn wf(self) -> bool {
        self.order_size.wf() && self.tp_percent.wf() && self.sl_percent.wf()
    }
}

/// Why a run cannot start.
#[derive(Clone, Copy, Debug, PartialEq, Eq, Structural)]
pub enum ConfigError {
    /// The market's price increment is zero or negative.
    InvalidPriceIncrement,
    /// No order size could be derived from the settings.
    OrderSize(SizeError),
}

/// The configuration for a market with the given increments: the price
/// precision is that of the price increment, the order size the configured
/// one rounded to the precision of the lot increment.
pub open spec fn spec_configure(
    settings: Settings,
    price_increment: Decimal,
    size_increment: Decimal,
) -> Result<Config, ConfigError> {
    if price_increment.units() <= 0 {
        Err(ConfigError::InvalidPriceIncrement)
    } else {
        match spec_round_order_size(settings.order_size, size_increment) {
            Err(e) => Err(ConfigError::OrderSize(e)),
            Ok(order_size) => Ok(
                Config {
                    market: settings.market_name,
                    live: settings.live,
                    write_to_file: settings.write_to_file,
                    order_size,
                    tp_percent: settings.tp_percent,
                    sl_percent: settings.sl_percent,
                    price_precision: precision_of(price_increment.units()) as u32,
                },
            ),
        }
    }
}

/// Derives the configuration of a run from its settings and the increments
/// that the exchange reports for the market.
pub fn configure(settings: &Settings, price_increment: Decimal, size_increment: Decimal) -> (r:
    Result<Config, ConfigError>)
    requires
        settings.wf(),
        price_increment.wf(),
        size_increment.wf(),
    ensures
        r == spec_configure(*settings, price_increment, size_increment),
        r matches Ok(config) ==> config.wf(),
{
    proof {
        lemma_units_sign(price_increment);
    }
    if !less_than(Decimal::from_int(0), price_increment) {
        return Err(ConfigError::InvalidPriceIncrement);
    }
    let price_precision = convert_increment_to_precision(price_increment);
    match round_order_size(settings.order_size, size_increment) {
        Err(e) => Err(ConfigError::OrderSize(e)),
        Ok(order_size) => Ok(
            Config {
                market: settings.market_name.clone(),
                live: settings.live,
                write_to_file: settings.write_to_file,
                order_size,
                tp_percent: settings.tp_percent,
                sl_percent: settings.sl_percent,
                price_precision,
            },
        ),
    }
}

} // verus!
