//! The requests that one trade sends to the exchange, and what is read from
//! the exchange's list of positions.

use vstd::prelude::*;
use crate::decimal::Decimal;
use crate::side::{invert_side, spec_invert_side, OrderSide};

verus! {

/// A market order.
#[derive(Clone, Debug, PartialEq, Eq)]
pub struct OrderRequest {
    pub market: String,
    pub side: OrderSide,
    pub size: Decimal,
    pub reduce_only: bool,
}

/// The kind of a conditional order.
#[derive(Clone, Copy, Debug, PartialEq, Eq, Structural)]
pub enum TriggerKind {
    TakeProfit,
    Stop,
}

/// A conditional order that fires at a trigger price.
#[derive(Clone, Debug, PartialEq, Eq)]
pub struct TriggerRequest {
    pub market: String,
    pub side: OrderSide,
    pub size: Decimal,
    pub kind: TriggerKind,
    pub trigger_price: Decimal,
    pub reduce_only: bool,
}

/// A request to cancel the outstanding orders of one market.
#[derive(Clone, Debug, PartialEq, Eq)]
pub struct CancelRequest {
    pub market: String,
    pub conditional_orders_only: bool,
    pub limit_orders_only: bool,
}

/// One entry of the exchange's list of positions.
#[derive(Clone, Debug, PartialEq, Eq)]
pub struct Position {
    pub future: String,
    pub side: OrderSide,
    pub size: Decimal,
    pub open_size: Decimal,
}

/// The market order that opens a position: never reduce-only.
pub open spec fn spec_market_order(market: String, side: OrderSide, size: Decimal) -> OrderRequest {
    OrderRequest { market, side, size, reduce_only: false }
}

/// The market order that opens a position of `size` on `side`.
pub fn market_order_request(market: &String, side: OrderSide, size: Decimal) -> (r: OrderRequest)
    ensures
        r == spec_market_order(*market, side, size),
{
    OrderRequest { market: market.clone(), side, size, reduce_only: false }
}

/// The request that cancels every outstanding order of the market, limit and
/// conditional alike.
pub open spec fn spec_cancel_all(market: String) -> CancelRequest {
    CancelRequest { market, conditional_orders_only: false, limit_orders_only: false }
}

/// The request that cancels every outstanding order of the market.
pub fn cancel_all_request(market: &String) -> (r: CancelRequest)
    ensures
        r == spec_cancel_all(*market),
{
    CancelRequest { market: market.clone(), conditional_orders_only: false, limit_orders_only: false }
}

/// The conditional order of one kind for an entry on `entry_side`: it stands
/// on the opposite side, has the entry's size and only reduces the position.
pub open spec fn spec_trigger_order(
    market: String,
    entry_side: OrderSide,
    size: Decimal,
    kind: TriggerKind,
    trigger_price: Decimal,
) -> TriggerRequest {
    TriggerRequest {
        market,
        side: spec_invert_side(entry_side),
        size,
        kind,
        trigger_price,
        reduce_only: true,
    }
}

/// The conditional order of one kind for an entry on `entry_side`.
pub fn trigger_order_request(
    market: &String,
    entry_side: OrderSide,
    size: Decimal,
    kind: TriggerKind,
    trigger_price: Decimal,
) -> (r: TriggerRequest)
    ensures
        r == spec_trigger_order(*market, entry_side, size, kind, trigger_price),
        r.side != entry_side,
{
    TriggerRequest {
        market: market.clone(),
        side: invert_side(entry_side),
        size,
        kind,
        trigger_price,
        reduce_only: true,
    }
}

/// The take-profit and the stop-loss order for an entry, in this order.
pub fn trigger_order_requests(
    market: &String,
    entry_side: OrderSide,
    size: Decimal,
    tp_price: Decimal,
    sl_price: Decimal,
) -> (r: (TriggerRequest, TriggerRequest))
    ensures
        r.0 == spec_trigger_order(*market, entry_side, size, TriggerKind::TakeProfit, tp_price),
        r.1 == spec_trigger_order(*market, entry_side, size, TriggerKind::Stop, sl_price),
{
    (
        trigger_order_request(market, entry_side, size, TriggerKind::TakeProfit, tp_price),
        trigger_order_request(market, entry_side, size, TriggerKind::Stop, sl_price),
    )
}

/// The bracket stands only if both of its orders were placed.
pub fn triggers_placed(take_profit_placed: bool, stop_loss_placed: bool) -> (r: bool)
    ensures
        r == (take_profit_placed && stop_loss_placed),
{
    take_profit_placed && stop_loss_placed
}

/// The position is on the market and its open size is not zero.
pub open spec fn is_open_on(position: Position, market: Seq<char>) -> bool {
    position.future@ == market && position.open_size.mantissa != 0
}

/// Some position of the list is open on the market.
pub open spec fn spec_has_open_position(positions: Seq<Position>, market: Seq<char>) -> bool {
    exists|i: int| 0 <= i < positions.len() && is_open_on(#[trigger] positions[i], market)
}

/// Whether a position is open on the market.
pub fn has_open_position(positions: &Vec<Position>, market: &String) -> (r: bool)
    ensures
        r == spec_has_open_position(positions@, market@),
{
    let mut i: usize = 0;
    while i < positions.len()
        invariant
            i <= positions.len(),
            forall|j: int| 0 <= j < i ==> !is_open_on(#[trigger] positions@[j], market@),
        decreases positions.len() - i,
    {
        if positions[i].future == *market && positions[i].open_size.mantissa != 0 {
            assert(is_open_on(positions@[i as int], market@));
            return true;
        }
        i = i + 1;
    }
    false
}

/// `i` is the index of the first position of the list that is on the market.
pub open spec fn is_first_on_market(positions: Seq<Position>, market: Seq<char>, i: int) -> bool {
    &&& 0 <= i < positions.len()
    &&& positions[i].future@ == market
    &&& forall|j: int| 0 <= j < i ==> (#[trigger] positions[j]).future@ != market
}

/// No position of the list is on the market.
pub open spec fn none_on_market(positions: Seq<Position>, market: Seq<char>) -> bool {
    forall|j: int| 0 <= j < positions.len() ==> (#[trigger] positions[j]).future@ != market
}

/// The market order that closes a position: its whole size on the opposite
/// side.
pub open spec fn spec_close_order(market: String, position: Position) -> OrderRequest {
    OrderRequest {
        market,
        side: spec_invert_side(position.side),
        size: position.size,
        reduce_only: false,
    }
}

/// The order that closes the first position of the list that is on the
/// market; none if no position is.
pub open spec fn spec_market_close(positions: Seq<Position>, market: String) -> Option<
    OrderRequest,
> {
    if none_on_market(positions, market@) {
        None
    } else {
        let first = choose|i: int| is_first_on_market(positions, market@, i);
        Some(spec_close_order(market, positions[first]))
    }
}

/// A list has at most one first position on a market.
pub proof fn lemma_first_on_market_unique(
    positions: Seq<Position>,
    market: Seq<char>,
    i: int,
    j: int,
)
    requires
        is_first_on_market(positions, market, i),
        is_first_on_market(positions, market, j),
    ensures
        i == j,
{
    if i < j {
        assert(positions[i].future@ != market);
    } else if j < i {
        assert(positions[j].future@ != market);
    }
}

/// The order that closes the first position of the list that is on the
/// market, or none if there is no such position.
pub fn market_close_request(positions: &Vec<Position>, market: &String) -> (r: Option<
    OrderRequest,
>)
    ensures
        r == spec_market_close(positions@, *market),
        r is None <==> none_on_market(positions@, market@),
        r matches Some(request) ==> exists|i: int|
            is_first_on_market(positions@, market@, i) && request == spec_close_order(
                *market,
                #[trigger] positions@[i],
            ),
{
    let mut i: usize = 0;
    while i < positions.len()
        invariant
            i <= positions.len(),
            forall|j: int| 0 <= j < i ==> (#[trigger] positions@[j]).future@ != market@,
        decreases positions.len() - i,
    {
        if positions[i].future == *market {
            let request = OrderRequest {
                market: market.clone(),
                side: invert_side(positions[i].side),
                size: positions[i].size,
                reduce_only: false,
            };
            proof {
                assert(is_first_on_market(positions@, market@, i as int));
                assert(request == spec_close_order(*market, positions@[i as int]));
                let first = choose|k: int| is_first_on_market(positions@, market@, k);
                lemma_first_on_market_unique(positions@, market@, i as int, first);
            }
            return Some(request);
        }
        i = i + 1;
    }
    None
}

} // verus!
