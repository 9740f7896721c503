//! From a band breach to a trading signal.

use vstd::prelude::*;
use crate::decimal::{checked_sub, decimal_difference, difference_is_exact, Decimal};
use crate::side::{invert_side, spec_invert_side, OrderSide};

verus! {

/// A decision to trade: the side to take and the price it refers to.
#[derive(Clone, Copy, Debug, PartialEq, Eq, Structural)]
pub struct Signal {
    pub side: OrderSide,
    pub reference_price: Decimal,
}

/// The order-book imbalance: best-bid size minus best-ask size. None if the
/// difference overflows; exact where it is in range.
pub fn imbalance(bid_size: Decimal, ask_size: Decimal) -> (r: Option<Decimal>)
    requires
        bid_size.wf(),
        ask_size.wf(),
    ensures
        r == decimal_difference(bid_size, ask_size),
        r matches Some(d) ==> d.wf(),
        difference_is_exact(bid_size, ask_size) ==> r is Some,
        r matches Some(d) ==> (difference_is_exact(bid_size, ask_size) ==> d.units()
            == bid_size.units() - ask_size.units()),
{
    checked_sub(bid_size, ask_size)
}

/// The side a breach calls for. While the band is warming up, that is until
/// the tick count exceeds the period, there is none. After that a sample
/// above the upper bound calls for `above_side`, one below the lower bound
/// for the opposite side, and the upper bound is looked at first.
pub open spec fn spec_evaluate(
    above_upper: bool,
    below_lower: bool,
    tick_count: usize,
    period: usize,
    above_side: OrderSide,
) -> Option<OrderSide> {
    if tick_count <= period {
        None
    } else if above_upper {
        Some(above_side)
    } else if below_lower {
        Some(spec_invert_side(above_side))
    } else {
        None
    }
}

/// Decides whether the latest sample breaches the band and which side to
/// take. `above_upper` and `below_lower` say how the sample compares with the
/// band's bounds; `above_side` is the strategy's answer to a breach upward.
pub fn evaluate(
    above_upper: bool,
    below_lower: bool,
    tick_count: usize,
    period: usize,
    above_side: OrderSide,
) -> (r: Option<OrderSide>)
    ensures
        r == spec_evaluate(above_upper, below_lower, tick_count, period, above_side),
        tick_count <= period ==> r is None,
        !above_upper && !below_lower ==> r is None,
{
    if tick_count <= period {
        None
    } else if above_upper {
        Some(above_side)
    } else if below_lower {
        Some(invert_side(above_side))
    } else {
        None
    }
}

/// The price a signal of this side refers to: a sell is priced at the bid, a
/// buy at the ask.
pub open spec fn spec_reference_price(side: OrderSide, bid: Decimal, ask: Decimal) -> Decimal {
    match side {
        OrderSide::Sell => bid,
        OrderSide::Buy => ask,
    }
}

impl Signal {
    /// The signal for a side at the current best bid and ask.
    pub fn at(side: OrderSide, bid: Decimal, ask: Decimal) -> (r: Signal)
        ensures
            r == (Signal { side, reference_price: spec_reference_price(side, bid, ask) }),
    {
        let reference_price = match side {
            OrderSide::Sell => bid,
            OrderSide::Buy => ask,
        };
        Signal { side, reference_price }
    }
}

} // verus!
