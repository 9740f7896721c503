//! The order lifecycle: from a signal to an entry with its bracket, with the
//! close of an opposite position before it and the rollback of a half-placed
//! bracket after it.
//!
//! The lifecycle is a state machine. `step` takes the state and what just
//! happened and gives the next state and what to do next; the caller does it
//! and comes back with the result. One signal is worked off before the next
//! is looked at.

use vstd::prelude::*;
use crate::bracket::{calculate_tp_and_sl, spec_calculate_tp_and_sl, Bracket};
use crate::decimal::Decimal;
use crate::orders::{
    cancel_all_request,
    has_open_position,
    market_close_request,
    market_order_request,
    spec_cancel_all,
    spec_has_open_position,
    spec_market_close,
    spec_market_order,
    spec_trigger_order,
    trigger_order_request,
    triggers_placed,
    CancelRequest,
    OrderRequest,
    Position,
    TriggerKind,
    TriggerRequest,
};
use crate::settings::Config;
use crate::side::{OrderSide, Side};
use crate::signal::Signal;

verus! {

/// The trade that a signal asks for.
#[derive(Clone, Copy, Debug, PartialEq, Eq, Structural)]
pub struct Trade {
    pub side: OrderSide,
    pub price: Decimal,
    pub size: Decimal,
    pub bracket: Bracket,
}

impl Trade {
    /// All decimals of the trade are well-formed.
    pub open spec fn wf(self) -> bool {
        self.price.wf() && self.size.wf() && self.bracket.wf()
    }
}

/// Where the lifecycle stands. Every phase but `Idle` and `Halted` waits for
/// the result of the action that led into it.
#[derive(Clone, Copy, Debug, PartialEq, Eq, Structural)]
pub enum Phase {
    /// Nothing is under way.
    Idle,
    /// The side was flipped; the list of positions is awaited to see whether
    /// one is open.
    SignalActed,
    /// A position is open; the list is awaited again to close it.
    FlipLookup,
    /// The order that closes the old position is awaited.
    FlipClosing,
    /// The cancellation of the old position's orders is awaited.
    FlipCancelling,
    /// The entry order is awaited.
    EntryPending,
    /// The entry is placed; the take-profit order is awaited.
    EntryPlaced,
    /// The take-profit is answered; the stop-loss order is awaited.
    StopLossPending { take_profit_placed: bool },
    /// Entry and bracket are placed; the ledger write is awaited.
    BracketPlaced,
    /// Nothing was sent, as trading is not live; the ledger write is awaited.
    DryRun,
    /// The bracket failed; the list of positions is awaited to close the
    /// entry.
    RollbackLookup,
    /// The order that closes the entry is awaited.
    RollbackClosing,
    /// The cancellation of the entry's orders is awaited.
    RollbackCancelling { closed: bool },
    /// The lifecycle has stopped for good.
    Halted,
}

/// What survives from tick to tick.
#[derive(Clone, Copy, Debug, PartialEq, Eq, Structural)]
pub struct State {
    /// The side of the last signal acted upon.
    pub current_side: Side,
    /// How many signals were acted upon; it stops counting at the largest
    /// number it can hold.
    pub positions_count: usize,
    pub phase: Phase,
    /// The trade of the last signal acted upon. Before the first it is a
    /// placeholder.
    pub trade: Trade,
}

impl State {
    /// The trade's decimals are well-formed.
    pub open spec fn wf(self) -> bool {
        self.trade.wf()
    }

    /// The state with another phase.
    pub open spec fn with_phase(self, phase: Phase) -> State {
        State { phase, ..self }
    }

    /// The state before the first signal: flat, idle, nothing counted.
    pub open spec fn spec_initial() -> State {
        let zero = Decimal { mantissa: 0, scale: 0 };
        State {
            current_side: Side::Flat,
            positions_count: 0,
            phase: Phase::Idle,
            trade: Trade {
                side: OrderSide::Buy,
                price: zero,
                size: zero,
                bracket: Bracket { take_profit: zero, stop_loss: zero },
            },
        }
    }

    /// The state before the first signal.
    pub fn initial() -> (r: State)
        ensures
            r == State::spec_initial(),
            r.wf(),
            r.current_side == Side::Flat,
            r.phase == Phase::Idle,
    {
        let zero = Decimal { mantissa: 0, scale: 0 };
        State {
            current_side: Side::Flat,
            positions_count: 0,
            phase: Phase::Idle,
            trade: Trade {
                side: OrderSide::Buy,
                price: zero,
                size: zero,
                bracket: Bracket { take_profit: zero, stop_loss: zero },
            },
        }
    }
}

/// What happened since the last step.
#[derive(Clone, Debug, PartialEq, Eq)]
pub enum Event {
    /// The band was breached.
    Signal(Signal),
    /// The exchange's list of positions has arrived.
    Positions(Vec<Position>),
    /// The list of positions could not be had.
    PositionsFailed,
    /// The order, the cancellation or the ledger write was carried out, with
    /// or without success.
    Completed(bool),
}

impl Event {
    /// A signal's price is a well-formed decimal.
    pub open spec fn wf(self) -> bool {
        self matches Event::Signal(signal) ==> signal.reference_price.wf()
    }
}

/// How the work on a signal ended.
#[derive(Clone, Copy, Debug, PartialEq, Eq, Structural)]
pub enum Outcome {
    /// The signal's side is the one already held.
    NoFlip,
    /// Trading is not live; nothing was sent.
    DryRun,
    /// The list of positions could not be had before the entry; nothing was
    /// sent.
    LookupFailed,
    /// The entry order failed; nothing stands on the exchange.
    EntryFailed,
    /// The entry and both orders of its bracket are placed.
    BracketPlaced,
    /// The bracket failed; the entry was closed and its orders cancelled.
    RolledBack,
    /// The trade stands as decided, but the ledger write failed.
    LedgerFailed,
}

/// Why the lifecycle stopped for good.
#[derive(Clone, Copy, Debug, PartialEq, Eq, Structural)]
pub enum Fault {
    /// The bracket failed and the entry could not be undone: a position may
    /// be open without protection.
    RollbackFailed,
    /// The bracket prices overflowed the decimal arithmetic.
    Arithmetic,
    /// An event arrived that the phase does not wait for.
    UnexpectedEvent,
}

/// What to do next.
#[derive(Clone, Debug, PartialEq, Eq)]
pub enum Action {
    /// Nothing: the work on the signal is over.
    Done(Outcome),
    /// Ask the exchange for the list of positions.
    FetchPositions,
    /// Send a market order.
    PlaceOrder(OrderRequest),
    /// Send a conditional order.
    PlaceTrigger(TriggerRequest),
    /// Cancel all orders of the market.
    CancelAll(CancelRequest),
    /// Append the trade to the ledger.
    Record { price: Decimal, size: Decimal, side: Side, positions_count: usize },
    /// Stop the process.
    Halt(Fault),
}

impl Action {
    /// The action goes to the exchange.
    pub open spec fn is_exchange_call(self) -> bool {
        self is FetchPositions || self is PlaceOrder || self is PlaceTrigger || self is CancelAll
    }
}

/// One more signal acted upon.
pub open spec fn spec_count_up(count: usize) -> usize {
    if count < usize::MAX {
        (count + 1) as usize
    } else {
        count
    }
}

/// The end of a trade that stands as decided: with the ledger switched on
/// the trade is handed over for recording, in the given phase; without it the
/// lifecycle is idle again.
pub open spec fn spec_conclude(config: Config, state: State, recording: Phase, outcome: Outcome) -> (
    State,
    Action,
) {
    if config.write_to_file {
        (
            state.with_phase(recording),
            Action::Record {
                price: state.trade.price,
                size: state.trade.size,
                side: state.current_side,
                positions_count: state.positions_count,
            },
        )
    } else {
        (state.with_phase(Phase::Idle), Action::Done(outcome))
    }
}

/// The entry: a market order of the trade's size on the trade's side.
pub open spec fn spec_enter(config: Config, state: State) -> (State, Action) {
    (
        state.with_phase(Phase::EntryPending),
        Action::PlaceOrder(spec_market_order(config.market, state.trade.side, state.trade.size)),
    )
}

/// A signal in the idle phase. One for the side already held changes nothing.
/// Any other flips the side at once, before anything is sent, and counts.
/// The bracket is computed; not live, the trade is concluded as a dry run;
/// live, the list of positions is asked for.
pub open spec fn spec_on_signal(config: Config, state: State, signal: Signal) -> (State, Action) {
    if signal.side.spec_held() == state.current_side {
        (state, Action::Done(Outcome::NoFlip))
    } else {
        let flipped = State {
            current_side: signal.side.spec_held(),
            positions_count: spec_count_up(state.positions_count),
            ..state
        };
        match spec_calculate_tp_and_sl(
            signal.reference_price,
            signal.side,
            config.tp_percent,
            config.sl_percent,
            config.price_precision,
        ) {
            None => (flipped.with_phase(Phase::Halted), Action::Halt(Fault::Arithmetic)),
            Some(bracket) => {
                let acted = State {
                    trade: Trade {
                        side: signal.side,
                        price: signal.reference_price,
                        size: config.order_size,
                        bracket,
                    },
                    ..flipped
                };
                if config.live {
                    (acted.with_phase(Phase::SignalActed), Action::FetchPositions)
                } else {
                    spec_conclude(config, acted, Phase::DryRun, Outcome::DryRun)
                }
            },
        }
    }
}

/// The order of one kind of the trade's bracket.
pub open spec fn spec_bracket_order(config: Config, state: State, kind: TriggerKind) -> Action {
    let price = match kind {
        TriggerKind::TakeProfit => state.trade.bracket.take_profit,
        TriggerKind::Stop => state.trade.bracket.stop_loss,
    };
    Action::PlaceTrigger(
        spec_trigger_order(config.market, state.trade.side, state.trade.size, kind, price),
    )
}

/// The list of positions, asked for to close one: the first position on the
/// market is closed at market; if there is none, the close has failed and
/// the cancellation follows at once. A list that could not be had counts as
/// a failed close in the same way.
pub open spec fn spec_close(
    config: Config,
    state: State,
    positions: Seq<Position>,
    closing: Phase,
    cancelling: Phase,
) -> (State, Action) {
    match spec_market_close(positions, config.market) {
        Some(request) => (state.with_phase(closing), Action::PlaceOrder(request)),
        None => (
            state.with_phase(cancelling),
            Action::CancelAll(spec_cancel_all(config.market)),
        ),
    }
}

/// The transition function of the lifecycle.
pub open spec fn spec_step(config: Config, state: State, event: Event) -> (State, Action) {
    match (state.phase, event) {
        (Phase::Idle, Event::Signal(signal)) => spec_on_signal(config, state, signal),
        (Phase::SignalActed, Event::Positions(positions)) => {
            if spec_has_open_position(positions@, config.market@) {
                (state.with_phase(Phase::FlipLookup), Action::FetchPositions)
            } else {
                spec_enter(config, state)
            }
        },
        (Phase::SignalActed, Event::PositionsFailed) => (
            state.with_phase(Phase::Idle),
            Action::Done(Outcome::LookupFailed),
        ),
        (Phase::FlipLookup, Event::Positions(positions)) => spec_close(
            config,
            state,
            positions@,
            Phase::FlipClosing,
            Phase::FlipCancelling,
        ),
        (Phase::FlipLookup, Event::PositionsFailed) => (
            state.with_phase(Phase::FlipCancelling),
            Action::CancelAll(spec_cancel_all(config.market)),
        ),
        (Phase::FlipClosing, Event::Completed(_)) => (
            state.with_phase(Phase::FlipCancelling),
            Action::CancelAll(spec_cancel_all(config.market)),
        ),
        (Phase::FlipCancelling, Event::Completed(_)) => spec_enter(config, state),
        (Phase::EntryPending, Event::Completed(placed)) => {
            if placed {
                (
                    state.with_phase(Phase::EntryPlaced),
                    spec_bracket_order(config, state, TriggerKind::TakeProfit),
                )
            } else {
                (state.with_phase(Phase::Idle), Action::Done(Outcome::EntryFailed))
            }
        },
        (Phase::EntryPlaced, Event::Completed(placed)) => (
            state.with_phase(Phase::StopLossPending { take_profit_placed: placed }),
            spec_bracket_order(config, state, TriggerKind::Stop),
        ),
        (Phase::StopLossPending { take_profit_placed }, Event::Completed(placed)) => {
            if take_profit_placed && placed {
                spec_conclude(config, state, Phase::BracketPlaced, Outcome::BracketPlaced)
            } else {
                (state.with_phase(Phase::RollbackLookup), Action::FetchPositions)
            }
        },
        (Phase::RollbackLookup, Event::Positions(positions)) => spec_close(
            config,
            state,
            positions@,
            Phase::RollbackClosing,
            Phase::RollbackCancelling { closed: false },
        ),
        (Phase::RollbackLookup, Event::PositionsFailed) => (
            state.with_phase(Phase::RollbackCancelling { closed: false }),
            Action::CancelAll(spec_cancel_all(config.market)),
        ),
        (Phase::RollbackClosing, Event::Completed(closed)) => (
            state.with_phase(Phase::RollbackCancelling { closed }),
            Action::CancelAll(spec_cancel_all(config.market)),
        ),
        (Phase::RollbackCancelling { closed }, Event::Completed(cancelled)) => {
            if closed && cancelled {
                (state.with_phase(Phase::Idle), Action::Done(Outcome::RolledBack))
            } else {
                (state.with_phase(Phase::Halted), Action::Halt(Fault::RollbackFailed))
            }
        },
        (Phase::BracketPlaced, Event::Completed(written)) => (
            state.with_phase(Phase::Idle),
            Action::Done(if written { Outcome::BracketPlaced } else { Outcome::LedgerFailed }),
        ),
        (Phase::DryRun, Event::Completed(written)) => (
            state.with_phase(Phase::Idle),
            Action::Done(if written { Outcome::DryRun } else { Outcome::LedgerFailed }),
        ),
        _ => (state.with_phase(Phase::Halted), Action::Halt(Fault::UnexpectedEvent)),
    }
}

fn with_phase(state: State, phase: Phase) -> (r: State)
    ensures
        r == state.with_phase(phase),
{
    State {
        current_side: state.current_side,
        positions_count: state.positions_count,
        phase,
        trade: state.trade,
    }
}

fn conclude(config: &Config, state: State, recording: Phase, outcome: Outcome) -> (r: (
    State,
    Action,
))
    ensures
        r == spec_conclude(*config, state, recording, outcome),
{
    if config.write_to_file {
        (
            with_phase(state, recording),
            Action::Record {
                price: state.trade.price,
                size: state.trade.size,
                side: state.current_side,
                positions_count: state.positions_count,
            },
        )
    } else {
        (with_phase(state, Phase::Idle), Action::Done(outcome))
    }
}

fn enter(config: &Config, state: State) -> (r: (State, Action))
    ensures
        r == spec_enter(*config, state),
{
    (
        with_phase(state, Phase::EntryPending),
        Action::PlaceOrder(market_order_request(&config.market, state.trade.side, state.trade.size)),
    )
}

fn bracket_order(config: &Config, state: State, kind: TriggerKind) -> (r: Action)
    ensures
        r == spec_bracket_order(*config, state, kind),
{
    let price = match kind {
        TriggerKind::TakeProfit => state.trade.bracket.take_profit,
        TriggerKind::Stop => state.trade.bracket.stop_loss,
    };
    Action::PlaceTrigger(
        trigger_order_request(&config.market, state.trade.side, state.trade.size, kind, price),
    )
}

fn close(
    config: &Config,
    state: State,
    positions: &Vec<Position>,
    closing: Phase,
    cancelling: Phase,
) -> (r: (State, Action))
    ensures
        r == spec_close(*config, state, positions@, closing, cancelling),
{
    match market_close_request(positions, &config.market) {
        Some(request) => (with_phase(state, closing), Action::PlaceOrder(request)),
        None => (with_phase(state, cancelling), Action::CancelAll(cancel_all_request(&config.market))),
    }
}

fn on_signal(config: &Config, state: State, signal: Signal) -> (r: (State, Action))
    requires
        config.wf(),
        state.wf(),
        signal.reference_price.wf(),
    ensures
        r == spec_on_signal(*config, state, signal),
        r.0.wf(),
{
    if signal.side.held() == state.current_side {
        return (state, Action::Done(Outcome::NoFlip));
    }
    let positions_count: usize = if state.positions_count < usize::MAX {
        state.positions_count + 1
    } else {
        state.positions_count
    };
    let flipped = State {
        current_side: signal.side.held(),
        positions_count,
        phase: state.phase,
        trade: state.trade,
    };
    match calculate_tp_and_sl(
        signal.reference_price,
        signal.side,
        config.tp_percent,
        config.sl_percent,
        config.price_precision,
    ) {
        None => (with_phase(flipped, Phase::Halted), Action::Halt(Fault::Arithmetic)),
        Some(bracket) => {
            let acted = State {
                current_side: flipped.current_side,
                positions_count: flipped.positions_count,
                phase: flipped.phase,
                trade: Trade {
                    side: signal.side,
                    price: signal.reference_price,
                    size: config.order_size,
                    bracket,
                },
            };
            if config.live {
                (with_phase(acted, Phase::SignalActed), Action::FetchPositions)
            } else {
                conclude(config, acted, Phase::DryRun, Outcome::DryRun)
            }
        },
    }
}

/// One step of the lifecycle: the next state and the next action for a state
/// and the event that the last action led to.
///
/// A list of positions that could not be had is a failure like any other: it
/// gives the signal up before the entry and counts as a failed close where a
/// position was to be closed. An event that the phase does not wait for halts
/// the lifecycle.
pub fn step(config: &Config, state: State, event: Event) -> (r: (State, Action))
    requires
        config.wf(),
        state.wf(),
        event.wf(),
    ensures
        r == spec_step(*config, state, event),
        r.0.wf(),
{
    match (state.phase, event) {
        (Phase::Idle, Event::Signal(signal)) => on_signal(config, state, signal),
        (Phase::SignalActed, Event::Positions(positions)) => {
            if has_open_position(&positions, &config.market) {
                (with_phase(state, Phase::FlipLookup), Action::FetchPositions)
            } else {
                enter(config, state)
            }
        },
        (Phase::SignalActed, Event::PositionsFailed) => (
            with_phase(state, Phase::Idle),
            Action::Done(Outcome::LookupFailed),
        ),
        (Phase::FlipLookup, Event::Positions(positions)) => close(
            config,
            state,
            &positions,
            Phase::FlipClosing,
            Phase::FlipCancelling,
        ),
        (Phase::FlipLookup, Event::PositionsFailed) => (
            with_phase(state, Phase::FlipCancelling),
            Action::CancelAll(cancel_all_request(&config.market)),
        ),
        (Phase::FlipClosing, Event::Completed(_)) => (
            with_phase(state, Phase::FlipCancelling),
            Action::CancelAll(cancel_all_request(&config.market)),
        ),
        (Phase::FlipCancelling, Event::Completed(_)) => enter(config, state),
        (Phase::EntryPending, Event::Completed(placed)) => {
            if placed {
                (
                    with_phase(state, Phase::EntryPlaced),
                    bracket_order(config, state, TriggerKind::TakeProfit),
                )
            } else {
                (with_phase(state, Phase::Idle), Action::Done(Outcome::EntryFailed))
            }
        },
        (Phase::EntryPlaced, Event::Completed(placed)) => (
            with_phase(state, Phase::StopLossPending { take_profit_placed: placed }),
            bracket_order(config, state, TriggerKind::Stop),
        ),
        (Phase::StopLossPending { take_profit_placed }, Event::Completed(placed)) => {
            if triggers_placed(take_profit_placed, placed) {
                conclude(config, state, Phase::BracketPlaced, Outcome::BracketPlaced)
            } else {
                (with_phase(state, Phase::RollbackLookup), Action::FetchPositions)
            }
        },
        (Phase::RollbackLookup, Event::Positions(positions)) => close(
            config,
            state,
            &positions,
            Phase::RollbackClosing,
            Phase::RollbackCancelling { closed: false },
        ),
        (Phase::RollbackLookup, Event::PositionsFailed) => (
            with_phase(state, Phase::RollbackCancelling { closed: false }),
            Action::CancelAll(cancel_all_request(&config.market)),
        ),
        (Phase::RollbackClosing, Event::Completed(closed)) => (
            with_phase(state, Phase::RollbackCancelling { closed }),
            Action::CancelAll(cancel_all_request(&config.market)),
        ),
        (Phase::RollbackCancelling { closed }, Event::Completed(cancelled)) => {
            if closed && cancelled {
                (with_phase(state, Phase::Idle), Action::Done(Outcome::RolledBack))
            } else {
                (with_phase(state, Phase::Halted), Action::Halt(Fault::RollbackFailed))
            }
        },
        (Phase::BracketPlaced, Event::Completed(written)) => (
            with_phase(state, Phase::Idle),
            Action::Done(if written { Outcome::BracketPlaced } else { Outcome::LedgerFailed }),
        ),
        (Phase::DryRun, Event::Completed(written)) => (
            with_phase(state, Phase::Idle),
            Action::Done(if written { Outcome::DryRun } else { Outcome::LedgerFailed }),
        ),
        _ => (with_phase(state, Phase::Halted), Action::Halt(Fault::UnexpectedEvent)),
    }
}

/// A signal for the side already held is skipped: the state stays as it is
/// and nothing is asked of the exchange.
pub proof fn lemma_same_side_signal_is_skipped(config: Config, state: State, signal: Signal)
    requires
        state.phase == Phase::Idle,
        signal.side.spec_held() == state.current_side,
    ensures
        spec_step(config, state, Event::Signal(signal)) == (state, Action::Done(Outcome::NoFlip)),
        !spec_step(config, state, Event::Signal(signal)).1.is_exchange_call(),
{
}

/// A signal for another side flips the held side in the same step, whatever
/// becomes of the orders.
pub proof fn lemma_flip_is_committed_first(config: Config, state: State, signal: Signal)
    requires
        state.phase == Phase::Idle,
        signal.side.spec_held() != state.current_side,
    ensures
        spec_step(config, state, Event::Signal(signal)).0.current_side == signal.side.spec_held(),
        spec_step(config, state, Event::Signal(signal)).0.positions_count == spec_count_up(
            state.positions_count,
        ),
{
}

/// After the first step, only a signal changes the held side or the count.
pub proof fn lemma_side_changes_only_on_signal(config: Config, state: State, event: Event)
    requires
        !(state.phase == Phase::Idle && event is Signal),
    ensures
        spec_step(config, state, event).0.current_side == state.current_side,
        spec_step(config, state, event).0.positions_count == state.positions_count,
        spec_step(config, state, event).0.trade == state.trade,
{
}

/// Every trade has the configured order size, and the entry and both orders
/// of its bracket are sent with the size of the trade: the size is the same
/// for every order of a run.
pub proof fn lemma_orders_have_the_configured_size(
    config: Config,
    state: State,
    signal: Signal,
    event: Event,
)
    ensures
        state.phase == Phase::Idle && signal.side.spec_held() != state.current_side ==> (
        spec_step(config, state, Event::Signal(signal)).1 is Halt || spec_step(
            config,
            state,
            Event::Signal(signal),
        ).0.trade.size == config.order_size),
        spec_step(config, state, event).1 matches Action::PlaceTrigger(request) ==> request.size
            == state.trade.size,
        spec_step(config, state, event).1 matches Action::PlaceOrder(request) ==> (
        spec_step(config, state, event).0.phase == Phase::EntryPending ==> request
            == spec_market_order(config.market, state.trade.side, state.trade.size)),
{
}

/// A failed entry ends the work on the signal at once: nothing was placed, so
/// nothing is rolled back.
pub proof fn lemma_failed_entry_is_not_rolled_back(config: Config, state: State)
    requires
        state.phase == Phase::EntryPending,
    ensures
        spec_step(config, state, Event::Completed(false)) == (
            state.with_phase(Phase::Idle),
            Action::Done(Outcome::EntryFailed),
        ),
{
}

/// Both orders of the bracket are sent, the stop-loss also after a failed
/// take-profit, and both stand on the side opposite to the entry and only
/// reduce the position.
pub proof fn lemma_bracket_orders_oppose_entry(config: Config, state: State, placed: bool)
    requires
        state.phase == Phase::EntryPending,
    ensures
        ({
            let (s1, a1) = spec_step(config, state, Event::Completed(true));
            let (s2, a2) = spec_step(config, s1, Event::Completed(placed));
            &&& a1 matches Action::PlaceTrigger(tp)
            &&& a2 matches Action::PlaceTrigger(sl)
            &&& tp.kind == TriggerKind::TakeProfit && sl.kind == TriggerKind::Stop
            &&& tp.side != state.trade.side && sl.side != state.trade.side
            &&& tp.reduce_only && sl.reduce_only
            &&& tp.trigger_price == state.trade.bracket.take_profit
            &&& sl.trigger_price == state.trade.bracket.stop_loss
            &&& tp.size == state.trade.size && sl.size == state.trade.size
        }),
{
}

/// The phase `BracketPlaced` and the outcome of that name are reached only
/// when both orders of the bracket were placed.
pub proof fn lemma_bracket_placed_needs_both_orders(config: Config, state: State, event: Event)
    requires
        state.phase != Phase::BracketPlaced,
        spec_step(config, state, event).0.phase == Phase::BracketPlaced || spec_step(
            config,
            state,
            event,
        ).1 == Action::Done(Outcome::BracketPlaced),
    ensures
        state.phase == (Phase::StopLossPending { take_profit_placed: true }),
        event == Event::Completed(true),
{
}

/// After a failed take-profit the entry is rolled back, whatever becomes of
/// the stop-loss: the stop-loss is still sent, then the list of positions is
/// asked for to close the entry, the position on the market is closed at
/// market, and all orders of the market are cancelled, also when the close
/// failed or found no position. Only if both succeeded is the lifecycle idle
/// again; otherwise it halts. On the way the phase is never `BracketPlaced`
/// and nothing is recorded.
pub proof fn lemma_failed_take_profit_is_rolled_back(
    config: Config,
    state: State,
    stop_loss_placed: bool,
    positions: Vec<Position>,
    closed: bool,
    cancelled: bool,
)
    requires
        state.phase == Phase::EntryPlaced,
    ensures
        ({
            let (s1, a1) = spec_step(config, state, Event::Completed(false));
            let (s2, a2) = spec_step(config, s1, Event::Completed(stop_loss_placed));
            let (s3, a3) = spec_step(config, s2, Event::Positions(positions));
            &&& a1 == spec_bracket_order(config, state, TriggerKind::Stop)
            &&& a2 == Action::FetchPositions
            &&& s1.phase != Phase::BracketPlaced && s2.phase != Phase::BracketPlaced && s3.phase
                != Phase::BracketPlaced
            &&& match spec_market_close(positions@, config.market) {
                Some(request) => {
                    let (s4, a4) = spec_step(config, s3, Event::Completed(closed));
                    let (s5, a5) = spec_step(config, s4, Event::Completed(cancelled));
                    &&& a3 == Action::PlaceOrder(request)
                    &&& a4 == Action::CancelAll(spec_cancel_all(config.market))
                    &&& s4.phase != Phase::BracketPlaced
                    &&& (s5, a5) == if closed && cancelled {
                        (state.with_phase(Phase::Idle), Action::Done(Outcome::RolledBack))
                    } else {
                        (state.with_phase(Phase::Halted), Action::Halt(Fault::RollbackFailed))
                    }
                },
                None => {
                    let (s4, a4) = spec_step(config, s3, Event::Completed(cancelled));
                    &&& a3 == Action::CancelAll(spec_cancel_all(config.market))
                    &&& (s4, a4) == (
                        state.with_phase(Phase::Halted),
                        Action::Halt(Fault::RollbackFailed),
                    )
                },
            }
        }),
{
}

/// A list of positions that cannot be had never ends the process by itself.
/// Before the entry the work on the signal is given up and nothing is sent.
/// Where a position was to be closed, the close counts as failed and the
/// cancellation follows: before the entry the entry is then placed as after
/// any close; in a rollback the lifecycle halts once the cancellation is
/// answered, as after any failed close.
pub proof fn lemma_failed_lookup_counts_as_failed_close(
    config: Config,
    state: State,
    cancelled: bool,
)
    ensures
        state.phase == Phase::SignalActed ==> spec_step(config, state, Event::PositionsFailed) == (
            state.with_phase(Phase::Idle),
            Action::Done(Outcome::LookupFailed),
        ),
        state.phase == Phase::FlipLookup ==> ({
            let (s1, a1) = spec_step(config, state, Event::PositionsFailed);
            let (s2, a2) = spec_step(config, s1, Event::Completed(cancelled));
            &&& a1 == Action::CancelAll(spec_cancel_all(config.market))
            &&& (s2, a2) == spec_enter(config, state)
        }),
        state.phase == Phase::RollbackLookup ==> ({
            let (s1, a1) = spec_step(config, state, Event::PositionsFailed);
            let (s2, a2) = spec_step(config, s1, Event::Completed(cancelled));
            &&& a1 == Action::CancelAll(spec_cancel_all(config.market))
            &&& s1.phase == (Phase::RollbackCancelling { closed: false })
            &&& (s2, a2) == (state.with_phase(Phase::Halted), Action::Halt(Fault::RollbackFailed))
        }),
        (state.phase == Phase::SignalActed || state.phase == Phase::FlipLookup || state.phase
            == Phase::RollbackLookup) ==> !(spec_step(config, state, Event::PositionsFailed).1
            is Halt),
{
}

/// Only a rollback that failed, bracket prices that overflow, or an event out
/// of turn halt the lifecycle: an entry, a lookup or a ledger write that
/// failed never does.
pub proof fn lemma_halts_only_after_failed_rollback(config: Config, state: State, event: Event)
    requires
        spec_step(config, state, event).1 == Action::Halt(Fault::RollbackFailed),
    ensures
        state.phase is RollbackCancelling,
        event is Completed,
        !(state.phase == (Phase::RollbackCancelling { closed: true }) && event == Event::Completed(
            true,
        )),
{
}

/// A failed stop-loss after a placed take-profit is rolled back in the same
/// way: the next action is the lookup that starts the close.
pub proof fn lemma_failed_stop_loss_starts_rollback(config: Config, state: State)
    requires
        state.phase == Phase::EntryPlaced,
    ensures
        ({
            let (s1, a1) = spec_step(config, state, Event::Completed(true));
            let (s2, a2) = spec_step(config, s1, Event::Completed(false));
            s2.phase == Phase::RollbackLookup && a2 == Action::FetchPositions
        }),
{
}

/// The phases that a run without live trading can be in.
pub open spec fn is_dry_phase(phase: Phase) -> bool {
    phase == Phase::Idle || phase == Phase::DryRun || phase == Phase::Halted
}

/// Without live trading nothing is ever asked of the exchange: from the idle
/// phase every step stays among the idle, the recording and the halted phase,
/// and no step's action goes to the exchange.
pub proof fn lemma_dry_run_sends_nothing(config: Config, state: State, event: Event)
    requires
        !config.live,
        is_dry_phase(state.phase),
    ensures
        is_dry_phase(spec_step(config, state, event).0.phase),
        !spec_step(config, state, event).1.is_exchange_call(),
{
}

/// Without live trading a signal for a new side is recorded if the ledger is
/// switched on, with the price and side of the signal and the configured
/// size.
pub proof fn lemma_dry_run_records_signal(config: Config, state: State, signal: Signal)
    requires
        !config.live,
        config.write_to_file,
        state.phase == Phase::Idle,
        signal.side.spec_held() != state.current_side,
        spec_calculate_tp_and_sl(
            signal.reference_price,
            signal.side,
            config.tp_percent,
            config.sl_percent,
            config.price_precision,
        ) is Some,
    ensures
        spec_step(config, state, Event::Signal(signal)).1 == (Action::Record {
            price: signal.reference_price,
            size: config.order_size,
            side: signal.side.spec_held(),
            positions_count: spec_count_up(state.positions_count),
        }),
{
}

/// An upper bound on the number of steps until the work on a signal is over.
pub open spec fn steps_left(phase: Phase) -> nat {
    match phase {
        Phase::Idle => 0,
        Phase::Halted => 0,
        Phase::BracketPlaced => 1,
        Phase::DryRun => 1,
        Phase::RollbackCancelling { .. } => 1,
        Phase::RollbackClosing => 2,
        Phase::RollbackLookup => 3,
        Phase::StopLossPending { .. } => 4,
        Phase::EntryPlaced => 5,
        Phase::EntryPending => 6,
        Phase::FlipCancelling => 7,
        Phase::FlipClosing => 8,
        Phase::FlipLookup => 9,
        Phase::SignalActed => 10,
    }
}

/// The work on a signal comes to an end: every step on the way brings the
/// lifecycle closer to the idle or the halted phase, whatever the events are,
/// and only these two phases end the work.
pub proof fn lemma_every_step_nears_the_end(config: Config, state: State, event: Event)
    requires
        state.phase != Phase::Idle,
        state.phase != Phase::Halted,
    ensures
        steps_left(spec_step(config, state, event).0.phase) < steps_left(state.phase),
        ({
            let (next, action) = spec_step(config, state, event);
            (action is Done || action is Halt) <==> (next.phase == Phase::Idle || next.phase
                == Phase::Halted)
        }),
{
}

/// A halted lifecycle stays halted.
pub proof fn lemma_halted_is_final(config: Config, state: State, event: Event)
    requires
        state.phase == Phase::Halted,
    ensures
        spec_step(config, state, event).0.phase == Phase::Halted,
        spec_step(config, state, event).1 is Halt,
{
}

} // verus!
