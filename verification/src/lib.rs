//! Position management for a band-breakout strategy on a derivatives market:
//! precision-correct rounding of prices and sizes, bracket prices, breach
//! signals, the exchange requests of one trade and the state machine that
//! sequences them, rolls back a half-placed bracket and records the trade.

pub mod bracket;
pub mod decimal;
pub mod ledger;
pub mod lifecycle;
pub mod orders;
pub mod precision;
pub mod rounding;
pub mod settings;
pub mod side;
pub mod signal;
pub mod sizing;
