use delta_trader::bracket::Bracket;
use delta_trader::decimal::{Decimal, MAX_MANTISSA};
use delta_trader::lifecycle::{step, Action, Event, Fault, Outcome, Phase, State, Trade};
use delta_trader::orders::{CancelRequest, OrderRequest, Position, TriggerKind, TriggerRequest};
use delta_trader::settings::{configure, Config, Settings};
use delta_trader::side::{OrderSide, Side};
use delta_trader::signal::{evaluate, Signal};

fn dec(mantissa: i128, scale: u32) -> Decimal {
    Decimal::new(mantissa, scale).unwrap()
}

fn config(live: bool, write_to_file: bool) -> Config {
    Config {
        market: "BTC-PERP".to_string(),
        live,
        write_to_file,
        order_size: dec(1, 1),
        tp_percent: dec(1, 0),
        sl_percent: dec(5, 1),
        price_precision: 1,
    }
}

fn sell_at_5000() -> Signal {
    Signal { side: OrderSide::Sell, reference_price: dec(5000, 0) }
}

fn sell_trade() -> Trade {
    Trade {
        side: OrderSide::Sell,
        price: dec(5000, 0),
        size: dec(1, 1),
        bracket: Bracket { take_profit: dec(4950, 0), stop_loss: dec(50250, 1) },
    }
}

fn position(future: &str, side: OrderSide, size: Decimal, open_size: Decimal) -> Position {
    Position { future: future.to_string(), side, size, open_size }
}

fn entry_order() -> Action {
    Action::PlaceOrder(OrderRequest {
        market: "BTC-PERP".to_string(),
        side: OrderSide::Sell,
        size: dec(1, 1),
        reduce_only: false,
    })
}

fn take_profit_order() -> Action {
    Action::PlaceTrigger(TriggerRequest {
        market: "BTC-PERP".to_string(),
        side: OrderSide::Buy,
        size: dec(1, 1),
        kind: TriggerKind::TakeProfit,
        trigger_price: dec(4950, 0),
        reduce_only: true,
    })
}

fn stop_loss_order() -> Action {
    Action::PlaceTrigger(TriggerRequest {
        market: "BTC-PERP".to_string(),
        side: OrderSide::Buy,
        size: dec(1, 1),
        kind: TriggerKind::Stop,
        trigger_price: dec(50250, 1),
        reduce_only: true,
    })
}

fn cancel_all() -> Action {
    Action::CancelAll(CancelRequest {
        market: "BTC-PERP".to_string(),
        conditional_orders_only: false,
        limit_orders_only: false,
    })
}

fn close_order(side: OrderSide, size: Decimal) -> Action {
    Action::PlaceOrder(OrderRequest {
        market: "BTC-PERP".to_string(),
        side,
        size,
        reduce_only: false,
    })
}

fn record_action(count: usize) -> Action {
    Action::Record { price: dec(5000, 0), size: dec(1, 1), side: Side::Sell, positions_count: count }
}

fn run(config: &Config, state: State, events: Vec<Event>) -> (State, Vec<Action>) {
    let mut state = state;
    let mut actions = Vec::new();
    for event in events {
        let (next, action) = step(config, state, event);
        state = next;
        actions.push(action);
    }
    (state, actions)
}

fn is_exchange_call(action: &Action) -> bool {
    matches!(
        action,
        Action::FetchPositions
            | Action::PlaceOrder(_)
            | Action::PlaceTrigger(_)
            | Action::CancelAll(_)
    )
}

fn in_phase(phase: Phase) -> State {
    State { current_side: Side::Sell, positions_count: 1, phase, trade: sell_trade() }
}

#[test]
fn initial_state_is_flat_and_idle() {
    let state = State::initial();
    assert_eq!(state.current_side, Side::Flat);
    assert_eq!(state.phase, Phase::Idle);
    assert_eq!(state.positions_count, 0);
}

#[test]
fn same_side_signal_is_skipped() {
    let config = config(true, true);
    let held = State { current_side: Side::Buy, ..State::initial() };
    let signal = Signal { side: OrderSide::Buy, reference_price: dec(5000, 0) };
    let (next, action) = step(&config, held, Event::Signal(signal));
    assert_eq!(next, held);
    assert_eq!(action, Action::Done(Outcome::NoFlip));
    assert!(!is_exchange_call(&action));
}

#[test]
fn new_side_is_committed_before_anything_is_sent() {
    let config = config(true, true);
    let (next, action) = step(&config, State::initial(), Event::Signal(sell_at_5000()));
    assert_eq!(
        next,
        State {
            current_side: Side::Sell,
            positions_count: 1,
            phase: Phase::SignalActed,
            trade: sell_trade(),
        }
    );
    assert_eq!(action, Action::FetchPositions);
}

#[test]
fn full_success_places_entry_and_bracket_and_records() {
    let config = config(true, true);
    let events = vec![
        Event::Signal(sell_at_5000()),
        Event::Positions(Vec::new()),
        Event::Completed(true),
        Event::Completed(true),
        Event::Completed(true),
        Event::Completed(true),
    ];
    let (state, actions) = run(&config, State::initial(), events);
    assert_eq!(
        actions,
        vec![
            Action::FetchPositions,
            entry_order(),
            take_profit_order(),
            stop_loss_order(),
            record_action(1),
            Action::Done(Outcome::BracketPlaced),
        ]
    );
    assert_eq!(state, in_phase(Phase::Idle));
}

#[test]
fn phases_of_a_successful_trade() {
    let config = config(true, true);
    let (s1, _) = step(&config, State::initial(), Event::Signal(sell_at_5000()));
    assert_eq!(s1.phase, Phase::SignalActed);
    let (s2, _) = step(&config, s1, Event::Positions(Vec::new()));
    assert_eq!(s2.phase, Phase::EntryPending);
    let (s3, _) = step(&config, s2, Event::Completed(true));
    assert_eq!(s3.phase, Phase::EntryPlaced);
    let (s4, _) = step(&config, s3, Event::Completed(true));
    assert_eq!(s4.phase, Phase::StopLossPending { take_profit_placed: true });
    let (s5, _) = step(&config, s4, Event::Completed(true));
    assert_eq!(s5.phase, Phase::BracketPlaced);
    let (s6, _) = step(&config, s5, Event::Completed(true));
    assert_eq!(s6.phase, Phase::Idle);
}

#[test]
fn success_without_ledger_ends_at_once() {
    let config = config(true, false);
    let (state, action) = step(
        &config,
        in_phase(Phase::StopLossPending { take_profit_placed: true }),
        Event::Completed(true),
    );
    assert_eq!(action, Action::Done(Outcome::BracketPlaced));
    assert_eq!(state, in_phase(Phase::Idle));
}

#[test]
fn failed_entry_aborts_without_rollback() {
    let config = config(true, true);
    let (state, action) = step(&config, in_phase(Phase::EntryPending), Event::Completed(false));
    assert_eq!(action, Action::Done(Outcome::EntryFailed));
    assert_eq!(state, in_phase(Phase::Idle));
}

#[test]
fn failed_entry_leaves_the_side_flipped() {
    let config = config(true, true);
    let events =
        vec![Event::Signal(sell_at_5000()), Event::Positions(Vec::new()), Event::Completed(false)];
    let (state, _) = run(&config, State::initial(), events);
    assert_eq!(state.current_side, Side::Sell);
    // the next signal for the same side is skipped
    let (next, action) = step(&config, state, Event::Signal(sell_at_5000()));
    assert_eq!(next, state);
    assert_eq!(action, Action::Done(Outcome::NoFlip));
}

#[test]
fn failed_take_profit_is_rolled_back() {
    let config = config(true, true);
    let open = vec![position("BTC-PERP", OrderSide::Sell, dec(1, 1), dec(1, 1))];
    for stop_loss_placed in [true, false] {
        let events = vec![
            Event::Completed(false),
            Event::Completed(stop_loss_placed),
            Event::Positions(open.clone()),
            Event::Completed(true),
            Event::Completed(true),
        ];
        let mut state = in_phase(Phase::EntryPlaced);
        let mut actions = Vec::new();
        for event in events {
            let (next, action) = step(&config, state, event);
            assert_ne!(next.phase, Phase::BracketPlaced);
            state = next;
            actions.push(action);
        }
        assert_eq!(
            actions,
            vec![
                stop_loss_order(),
                Action::FetchPositions,
                close_order(OrderSide::Buy, dec(1, 1)),
                cancel_all(),
                Action::Done(Outcome::RolledBack),
            ]
        );
        assert_eq!(state, in_phase(Phase::Idle));
    }
}

#[test]
fn failed_stop_loss_is_rolled_back() {
    let config = config(true, true);
    let open = vec![position("BTC-PERP", OrderSide::Sell, dec(1, 1), dec(1, 1))];
    let events = vec![
        Event::Completed(true),
        Event::Completed(false),
        Event::Positions(open),
        Event::Completed(true),
        Event::Completed(true),
    ];
    let (state, actions) = run(&config, in_phase(Phase::EntryPlaced), events);
    assert_eq!(
        actions,
        vec![
            stop_loss_order(),
            Action::FetchPositions,
            close_order(OrderSide::Buy, dec(1, 1)),
            cancel_all(),
            Action::Done(Outcome::RolledBack),
        ]
    );
    assert_eq!(state.phase, Phase::Idle);
}

#[test]
fn rollback_cancels_even_if_the_close_failed_and_then_halts() {
    let config = config(true, true);
    let open = vec![position("BTC-PERP", OrderSide::Sell, dec(1, 1), dec(1, 1))];
    let events = vec![Event::Positions(open), Event::Completed(false), Event::Completed(true)];
    let (state, actions) = run(&config, in_phase(Phase::RollbackLookup), events);
    assert_eq!(
        actions,
        vec![
            close_order(OrderSide::Buy, dec(1, 1)),
            cancel_all(),
            Action::Halt(Fault::RollbackFailed),
        ]
    );
    assert_eq!(state.phase, Phase::Halted);
}

#[test]
fn rollback_halts_if_the_cancellation_failed() {
    let config = config(true, true);
    let (state, action) = step(
        &config,
        in_phase(Phase::RollbackCancelling { closed: true }),
        Event::Completed(false),
    );
    assert_eq!(action, Action::Halt(Fault::RollbackFailed));
    assert_eq!(state.phase, Phase::Halted);
}

#[test]
fn rollback_without_a_position_cancels_and_halts() {
    let config = config(true, true);
    let other = vec![position("ETH-PERP", OrderSide::Sell, dec(1, 1), dec(1, 1))];
    let events = vec![Event::Positions(other), Event::Completed(true)];
    let (state, actions) = run(&config, in_phase(Phase::RollbackLookup), events);
    assert_eq!(actions, vec![cancel_all(), Action::Halt(Fault::RollbackFailed)]);
    assert_eq!(state.phase, Phase::Halted);
}

#[test]
fn open_position_is_closed_before_the_entry() {
    let config = config(true, true);
    let held = State { current_side: Side::Buy, positions_count: 4, ..State::initial() };
    let open = vec![
        position("ETH-PERP", OrderSide::Sell, dec(3, 0), dec(3, 0)),
        position("BTC-PERP", OrderSide::Buy, dec(2, 1), dec(2, 1)),
    ];
    for (closed, cancelled) in [(true, true), (false, true), (true, false), (false, false)] {
        let events = vec![
            Event::Signal(sell_at_5000()),
            Event::Positions(open.clone()),
            Event::Positions(open.clone()),
            Event::Completed(closed),
            Event::Completed(cancelled),
        ];
        let (state, actions) = run(&config, held, events);
        assert_eq!(
            actions,
            vec![
                Action::FetchPositions,
                Action::FetchPositions,
                close_order(OrderSide::Sell, dec(2, 1)),
                cancel_all(),
                entry_order(),
            ]
        );
        assert_eq!(state.phase, Phase::EntryPending);
        assert_eq!(state.positions_count, 5);
    }
}

#[test]
fn position_gone_before_the_close_is_only_cancelled() {
    let config = config(true, true);
    let events = vec![Event::Positions(Vec::new()), Event::Completed(true)];
    let (state, actions) = run(&config, in_phase(Phase::FlipLookup), events);
    assert_eq!(actions, vec![cancel_all(), entry_order()]);
    assert_eq!(state.phase, Phase::EntryPending);
}

#[test]
fn position_with_no_open_size_is_not_closed() {
    let config = config(true, true);
    let flat = vec![position("BTC-PERP", OrderSide::Buy, dec(0, 0), dec(0, 0))];
    let (state, action) = step(&config, in_phase(Phase::SignalActed), Event::Positions(flat));
    assert_eq!(action, entry_order());
    assert_eq!(state.phase, Phase::EntryPending);
}

#[test]
fn dry_run_records_and_sends_nothing() {
    let config = config(false, true);
    let events = vec![Event::Signal(sell_at_5000()), Event::Completed(true)];
    let (state, actions) = run(&config, State::initial(), events);
    assert_eq!(actions, vec![record_action(1), Action::Done(Outcome::DryRun)]);
    assert!(actions.iter().all(|a| !is_exchange_call(a)));
    assert_eq!(state, in_phase(Phase::Idle));
}

#[test]
fn dry_run_without_ledger_does_nothing() {
    let config = config(false, false);
    let (state, action) = step(&config, State::initial(), Event::Signal(sell_at_5000()));
    assert_eq!(action, Action::Done(Outcome::DryRun));
    assert_eq!(state, in_phase(Phase::Idle));
}

#[test]
fn dry_run_counts_every_flip() {
    let config = config(false, true);
    let buy = Signal { side: OrderSide::Buy, reference_price: dec(5000, 0) };
    let events = vec![
        Event::Signal(sell_at_5000()),
        Event::Completed(true),
        Event::Signal(sell_at_5000()),
        Event::Signal(buy),
        Event::Completed(true),
    ];
    let (state, actions) = run(&config, State::initial(), events);
    assert_eq!(actions[2], Action::Done(Outcome::NoFlip));
    assert_eq!(
        actions[3],
        Action::Record { price: dec(5000, 0), size: dec(1, 1), side: Side::Buy, positions_count: 2 }
    );
    assert_eq!(state.current_side, Side::Buy);
    assert_eq!(state.positions_count, 2);
}

#[test]
fn failed_ledger_write_does_not_touch_the_trade() {
    let config = config(true, true);
    let (state, action) = step(&config, in_phase(Phase::BracketPlaced), Event::Completed(false));
    assert_eq!(action, Action::Done(Outcome::LedgerFailed));
    assert_eq!(state, in_phase(Phase::Idle));
    let (state, action) = step(&config, in_phase(Phase::DryRun), Event::Completed(false));
    assert_eq!(action, Action::Done(Outcome::LedgerFailed));
    assert_eq!(state, in_phase(Phase::Idle));
}

#[test]
fn bracket_overflow_halts() {
    let config = config(true, true);
    let signal = Signal { side: OrderSide::Buy, reference_price: dec(MAX_MANTISSA, 0) };
    let (state, action) = step(&config, State::initial(), Event::Signal(signal));
    assert_eq!(action, Action::Halt(Fault::Arithmetic));
    assert_eq!(state.phase, Phase::Halted);
    assert_eq!(state.current_side, Side::Buy);
}

#[test]
fn unexpected_event_halts() {
    let config = config(true, true);
    let cases = vec![
        (Phase::Idle, Event::Completed(true)),
        (Phase::Idle, Event::Positions(Vec::new())),
        (Phase::SignalActed, Event::Completed(true)),
        (Phase::EntryPending, Event::Signal(sell_at_5000())),
        (Phase::EntryPlaced, Event::Positions(Vec::new())),
        (Phase::RollbackLookup, Event::Completed(true)),
        (Phase::Halted, Event::Signal(sell_at_5000())),
    ];
    for (phase, event) in cases {
        let (state, action) = step(&config, in_phase(phase), event);
        assert_eq!(action, Action::Halt(Fault::UnexpectedEvent));
        assert_eq!(state.phase, Phase::Halted);
    }
}

#[test]
fn count_stops_at_the_largest_number() {
    let config = config(false, false);
    let full = State { positions_count: usize::MAX, ..State::initial() };
    let (state, _) = step(&config, full, Event::Signal(sell_at_5000()));
    assert_eq!(state.positions_count, usize::MAX);
}

#[test]
fn breach_above_the_band_ends_in_a_short_with_bracket() {
    // period 3, three samples of zero, then 50 against an upper bound of 10
    let settings = Settings {
        market_name: "BTC-PERP".to_string(),
        time_delta: 1,
        bb_period: 3,
        orderbook_depth: 1,
        live: true,
        order_size: dec(12345, 5),
        tp_percent: dec(1, 0),
        sl_percent: dec(5, 1),
        write_to_file: true,
    };
    let config = configure(&settings, dec(1, 1), dec(1, 3)).unwrap();
    assert_eq!(config.order_size, dec(123, 3));
    let samples = [0.0f64, 0.0, 0.0, 50.0];
    let uppers = [0.0f64, 0.0, 0.0, 10.0];
    let lowers = [0.0f64, 0.0, 0.0, -10.0];
    let mut state = State::initial();
    let mut actions = Vec::new();
    for tick in 1..=4usize {
        let (sample, upper, lower) = (samples[tick - 1], uppers[tick - 1], lowers[tick - 1]);
        let side = evaluate(sample > upper, sample < lower, tick, settings.bb_period, OrderSide::Sell);
        if tick <= 3 {
            assert_eq!(side, None);
            continue;
        }
        assert_eq!(side, Some(OrderSide::Sell));
        let signal = Signal::at(side.unwrap(), dec(200005, 1), dec(200015, 1));
        let events = vec![
            Event::Signal(signal),
            Event::Positions(Vec::new()),
            Event::Completed(true),
            Event::Completed(true),
            Event::Completed(true),
            Event::Completed(true),
        ];
        let (next, done) = run(&config, state, events);
        state = next;
        actions = done;
    }
    // 20000.5 - 200.005 = 19800.495 and 20000.5 + 100.0025 = 20100.5025
    assert_eq!(
        actions,
        vec![
            Action::FetchPositions,
            Action::PlaceOrder(OrderRequest {
                market: "BTC-PERP".to_string(),
                side: OrderSide::Sell,
                size: dec(123, 3),
                reduce_only: false,
            }),
            Action::PlaceTrigger(TriggerRequest {
                market: "BTC-PERP".to_string(),
                side: OrderSide::Buy,
                size: dec(123, 3),
                kind: TriggerKind::TakeProfit,
                trigger_price: dec(198005, 1),
                reduce_only: true,
            }),
            Action::PlaceTrigger(TriggerRequest {
                market: "BTC-PERP".to_string(),
                side: OrderSide::Buy,
                size: dec(123, 3),
                kind: TriggerKind::Stop,
                trigger_price: dec(201005, 1),
                reduce_only: true,
            }),
            Action::Record {
                price: dec(200005, 1),
                size: dec(123, 3),
                side: Side::Sell,
                positions_count: 1,
            },
            Action::Done(Outcome::BracketPlaced),
        ]
    );
    assert_eq!(state.current_side, Side::Sell);
    assert_eq!(state.phase, Phase::Idle);
}

#[test]
fn dry_run_of_the_same_breach_sends_no_order() {
    let config = config(false, true);
    let side = evaluate(50.0f64 > 10.0f64, 50.0f64 < -10.0f64, 4, 3, OrderSide::Sell).unwrap();
    let signal = Signal::at(side, dec(5000, 0), dec(5001, 0));
    let (state, actions) = run(
        &config,
        State::initial(),
        vec![Event::Signal(signal), Event::Completed(true)],
    );
    let orders = actions
        .iter()
        .filter(|a| matches!(a, Action::PlaceOrder(_) | Action::PlaceTrigger(_)))
        .count();
    assert_eq!(orders, 0);
    assert_eq!(actions[0], record_action(1));
    assert_eq!(state.phase, Phase::Idle);
}

#[test]
fn failed_lookup_before_the_entry_gives_the_signal_up() {
    let config = config(true, true);
    let events = vec![Event::Signal(sell_at_5000()), Event::PositionsFailed];
    let (state, actions) = run(&config, State::initial(), events);
    assert_eq!(actions, vec![Action::FetchPositions, Action::Done(Outcome::LookupFailed)]);
    assert_eq!(state, in_phase(Phase::Idle));
    assert_eq!(state.current_side, Side::Sell);
}

#[test]
fn failed_lookup_before_the_close_counts_as_a_failed_close() {
    let config = config(true, true);
    for cancelled in [true, false] {
        let events = vec![Event::PositionsFailed, Event::Completed(cancelled)];
        let (state, actions) = run(&config, in_phase(Phase::FlipLookup), events);
        assert_eq!(actions, vec![cancel_all(), entry_order()]);
        assert_eq!(state.phase, Phase::EntryPending);
    }
}

#[test]
fn failed_lookup_in_a_rollback_cancels_and_then_halts() {
    let config = config(true, true);
    for cancelled in [true, false] {
        let (s1, a1) = step(&config, in_phase(Phase::RollbackLookup), Event::PositionsFailed);
        assert_eq!(a1, cancel_all());
        assert_eq!(s1.phase, Phase::RollbackCancelling { closed: false });
        let (s2, a2) = step(&config, s1, Event::Completed(cancelled));
        assert_eq!(a2, Action::Halt(Fault::RollbackFailed));
        assert_eq!(s2.phase, Phase::Halted);
    }
}

#[test]
fn failed_lookup_out_of_turn_halts() {
    let config = config(true, true);
    for phase in [Phase::Idle, Phase::EntryPending, Phase::EntryPlaced, Phase::BracketPlaced] {
        let (state, action) = step(&config, in_phase(phase), Event::PositionsFailed);
        assert_eq!(action, Action::Halt(Fault::UnexpectedEvent));
        assert_eq!(state.phase, Phase::Halted);
    }
}
