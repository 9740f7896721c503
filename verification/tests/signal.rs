use delta_trader::decimal::Decimal;
use delta_trader::side::OrderSide;
use delta_trader::signal::{evaluate, imbalance, Signal};

fn dec(mantissa: i128, scale: u32) -> Decimal {
    Decimal::new(mantissa, scale).unwrap()
}

#[test]
fn no_signal_while_warming_up() {
    for tick in 0..=3usize {
        assert_eq!(evaluate(true, false, tick, 3, OrderSide::Sell), None);
        assert_eq!(evaluate(false, true, tick, 3, OrderSide::Sell), None);
        assert_eq!(evaluate(true, true, tick, 3, OrderSide::Buy), None);
        assert_eq!(evaluate(false, false, tick, 3, OrderSide::Buy), None);
    }
}

#[test]
fn no_signal_at_the_largest_period() {
    assert_eq!(evaluate(true, false, usize::MAX, usize::MAX, OrderSide::Sell), None);
}

#[test]
fn breach_upward_takes_the_configured_side() {
    assert_eq!(evaluate(true, false, 4, 3, OrderSide::Sell), Some(OrderSide::Sell));
    assert_eq!(evaluate(true, false, 4, 3, OrderSide::Buy), Some(OrderSide::Buy));
}

#[test]
fn breach_downward_takes_the_opposite_side() {
    assert_eq!(evaluate(false, true, 4, 3, OrderSide::Sell), Some(OrderSide::Buy));
    assert_eq!(evaluate(false, true, 4, 3, OrderSide::Buy), Some(OrderSide::Sell));
}

#[test]
fn upper_bound_is_looked_at_first() {
    assert_eq!(evaluate(true, true, 10, 3, OrderSide::Sell), Some(OrderSide::Sell));
    assert_eq!(evaluate(true, true, 10, 3, OrderSide::Buy), Some(OrderSide::Buy));
}

#[test]
fn no_signal_inside_the_band() {
    assert_eq!(evaluate(false, false, 100, 3, OrderSide::Sell), None);
}

#[test]
fn sample_against_bounds() {
    // three samples of zero, then 50 against an upper bound of 10
    let (sample, lower, upper) = (50.0f64, -10.0f64, 10.0f64);
    let side = evaluate(sample > upper, sample < lower, 4, 3, OrderSide::Sell);
    assert_eq!(side, Some(OrderSide::Sell));
}

#[test]
fn signal_is_priced_at_bid_for_sell_and_ask_for_buy() {
    let bid = dec(499995, 1);
    let ask = dec(500005, 1);
    assert_eq!(
        Signal::at(OrderSide::Sell, bid, ask),
        Signal { side: OrderSide::Sell, reference_price: bid }
    );
    assert_eq!(
        Signal::at(OrderSide::Buy, bid, ask),
        Signal { side: OrderSide::Buy, reference_price: ask }
    );
}

#[test]
fn imbalance_is_bid_size_minus_ask_size() {
    assert_eq!(imbalance(dec(125, 1), dec(25, 1)), Some(dec(100, 1)));
    assert_eq!(imbalance(dec(3, 0), dec(45, 1)), Some(dec(-15, 1)));
    assert_eq!(imbalance(dec(7, 0), dec(7, 0)), Some(dec(0, 0)));
}

#[test]
fn imbalance_overflow_is_none() {
    let max = delta_trader::decimal::MAX_MANTISSA;
    assert_eq!(imbalance(dec(max, 0), dec(-max, 0)), None);
}
