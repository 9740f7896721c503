//! Directions: the side an order takes and the side a position is held on.

use vstd::prelude::*;

verus! {

/// The direction of an order sent to the exchange.
#[derive(Clone, Copy, Debug, PartialEq, Eq, Structural)]
pub enum OrderSide {
    Buy,
    Sell,
}

/// The direction currently held. `Flat` is the state before the first trade.
#[derive(Clone, Copy, Debug, PartialEq, Eq, Structural)]
pub enum Side {
    Buy,
    Sell,
    Flat,
}

/// The opposite direction.
pub open spec fn spec_invert_side(side: OrderSide) -> OrderSide {
    match side {
        OrderSide::Buy => OrderSide::Sell,
        OrderSide::Sell => OrderSide::Buy,
    }
}

/// Buy becomes sell and sell becomes buy.
pub fn invert_side(side: OrderSide) -> (r: OrderSide)
    ensures
        r == spec_invert_side(side),
{
    match side {
        OrderSide::Buy => OrderSide::Sell,
        OrderSide::Sell => OrderSide::Buy,
    }
}

/// Inverting twice gives the side back, and never the side itself.
pub proof fn lemma_invert_side_involutive(side: OrderSide)
    ensures
        spec_invert_side(spec_invert_side(side)) == side,
        spec_invert_side(side) != side,
{
}

impl OrderSide {
    /// The held direction that an order of this side opens.
    pub open spec fn spec_held(self) -> Side {
        match self {
            OrderSide::Buy => Side::Buy,
            OrderSide::Sell => Side::Sell,
        }
    }

    /// The held direction that an order of this side opens.
    pub fn held(self) -> (r: Side)
        ensures
            r == self.spec_held(),
    {
        match self {
            OrderSide::Buy => Side::Buy,
            OrderSide::Sell => Side::Sell,
        }
    }
}

impl Side {
    /// The lower-case label written to the ledger.
    pub open spec fn spec_label(self) -> Seq<char> {
        match self {
            Side::Buy => "buy"@,
            Side::Sell => "sell"@,
            Side::Flat => "none"@,
        }
    }

    /// The label as text: "buy", "sell" or "none".
    pub fn to_string(&self) -> (r: String)
        ensures
            r@ == self.spec_label(),
    {
        match self {
            Side::Buy => String::from_str("buy"),
            Side::Sell => String::from_str("sell"),
            Side::Flat => String::from_str("none"),
        }
    }
}

impl Default for Side {
    fn default() -> (r: Side)
        ensures
            r == Side::Flat,
    {
        Side::Flat
    }
}

} // verus!
