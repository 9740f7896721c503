use delta_trader::bracket::{bracket_from_offsets, calculate_tp_and_sl, percent_of, Bracket};
use delta_trader::decimal::{Decimal, MAX_MANTISSA};
use delta_trader::side::OrderSide;

fn dec(mantissa: i128, scale: u32) -> Decimal {
    Decimal::new(mantissa, scale).unwrap()
}

fn outside(d: Decimal) -> rust_decimal::Decimal {
    rust_decimal::Decimal::from_i128_with_scale(d.mantissa, d.scale)
}

#[test]
fn buy_bracket_lies_around_the_entry() {
    // 100 with 1 % and 0.5 %: 101 and 99.5
    let b = calculate_tp_and_sl(dec(100, 0), OrderSide::Buy, dec(1, 0), dec(5, 1), 2).unwrap();
    assert_eq!(b, Bracket { take_profit: dec(101, 0), stop_loss: dec(995, 1) });
}

#[test]
fn sell_bracket_is_mirrored() {
    let b = calculate_tp_and_sl(dec(100, 0), OrderSide::Sell, dec(1, 0), dec(5, 1), 2).unwrap();
    assert_eq!(b, Bracket { take_profit: dec(99, 0), stop_loss: dec(1005, 1) });
}

#[test]
fn bracket_is_rounded_to_the_precision() {
    // 100.5 + 0.5025 = 101.0025 and 100.5 - 1.5075 = 98.9925
    let b = calculate_tp_and_sl(dec(1005, 1), OrderSide::Buy, dec(5, 1), dec(15, 1), 2).unwrap();
    assert_eq!(b, Bracket { take_profit: dec(10100, 2), stop_loss: dec(9899, 2) });
}

#[test]
fn ties_round_to_the_even_neighbour() {
    // 101.0025 and 98.9925 at three digits: both down to the even digit
    let b = calculate_tp_and_sl(dec(1005, 1), OrderSide::Buy, dec(5, 1), dec(15, 1), 3).unwrap();
    assert_eq!(b, Bracket { take_profit: dec(101002, 3), stop_loss: dec(98992, 3) });
    // 100.7 + 0.5035 = 101.2035: up to the even digit
    let c = calculate_tp_and_sl(dec(1007, 1), OrderSide::Buy, dec(5, 1), dec(5, 1), 3).unwrap();
    assert_eq!(c.take_profit, dec(101204, 3));
    // 100.7 - 0.5035 = 100.1965: up to 100.196
    assert_eq!(c.stop_loss, dec(100196, 3));
}

#[test]
fn bracket_agrees_with_the_decimal_crate() {
    let price = dec(4321987, 2);
    let tp = dec(125, 2);
    let sl = dec(75, 2);
    let hundred = rust_decimal::Decimal::from(100);
    let b = calculate_tp_and_sl(price, OrderSide::Sell, tp, sl, 1).unwrap();
    let want_tp = (outside(price) - outside(price) * outside(tp) / hundred).round_dp(1);
    let want_sl = (outside(price) + outside(price) * outside(sl) / hundred).round_dp(1);
    assert_eq!(b.take_profit, dec(want_tp.mantissa(), want_tp.scale()));
    assert_eq!(b.stop_loss, dec(want_sl.mantissa(), want_sl.scale()));
    assert_eq!(b.take_profit, dec(426796, 1));
    assert_eq!(b.stop_loss, dec(435440, 1));
}

#[test]
fn rounding_a_rounded_bracket_changes_nothing() {
    let b = calculate_tp_and_sl(dec(1005, 1), OrderSide::Buy, dec(5, 1), dec(15, 1), 2).unwrap();
    let zero = dec(0, 0);
    let again = bracket_from_offsets(b.take_profit, OrderSide::Buy, zero, zero, 2).unwrap();
    assert_eq!(again.take_profit, b.take_profit);
    let again = bracket_from_offsets(b.stop_loss, OrderSide::Buy, zero, zero, 2).unwrap();
    assert_eq!(again.stop_loss, b.stop_loss);
}

#[test]
fn zero_percent_leaves_the_entry() {
    let b = calculate_tp_and_sl(dec(100, 0), OrderSide::Buy, dec(0, 0), dec(0, 0), 2).unwrap();
    assert_eq!(b, Bracket { take_profit: dec(100, 0), stop_loss: dec(100, 0) });
}

#[test]
fn offset_below_half_a_step_rounds_back_to_the_entry() {
    // 100 + 0.001 at two digits is 100.00
    let b = calculate_tp_and_sl(dec(100, 0), OrderSide::Buy, dec(1, 3), dec(1, 3), 2).unwrap();
    assert_eq!(b, Bracket { take_profit: dec(10000, 2), stop_loss: dec(10000, 2) });
}

#[test]
fn overflow_gives_no_bracket() {
    let b = calculate_tp_and_sl(dec(MAX_MANTISSA, 0), OrderSide::Buy, dec(100, 0), dec(1, 0), 2);
    assert_eq!(b, None);
    let c = calculate_tp_and_sl(dec(MAX_MANTISSA, 0), OrderSide::Buy, dec(1, 0), dec(1000, 0), 2);
    assert_eq!(c, None);
}

#[test]
fn percent_of_a_price() {
    assert_eq!(percent_of(dec(100, 0), dec(1, 0)), Some(dec(1, 0)));
    assert_eq!(percent_of(dec(100, 0), dec(5, 1)), Some(dec(5, 1)));
    assert_eq!(percent_of(dec(1005, 1), dec(15, 1)), Some(dec(15075, 4)));
    assert_eq!(percent_of(dec(50000, 0), dec(25, 2)), Some(dec(12500, 2)));
    assert_eq!(percent_of(dec(MAX_MANTISSA, 0), dec(2, 0)), None);
}

#[test]
fn bracket_from_offsets_adds_and_subtracts() {
    let b = bracket_from_offsets(dec(100, 0), OrderSide::Buy, dec(25, 1), dec(125, 2), 1).unwrap();
    // 102.5 and 98.75 -> 98.8 (tie to even)
    assert_eq!(b, Bracket { take_profit: dec(1025, 1), stop_loss: dec(988, 1) });
    let s = bracket_from_offsets(dec(100, 0), OrderSide::Sell, dec(25, 1), dec(125, 2), 1).unwrap();
    // 97.5 and 101.25 -> 101.2 (tie to even)
    assert_eq!(s, Bracket { take_profit: dec(975, 1), stop_loss: dec(1012, 1) });
}

#[test]
fn bracket_from_offsets_overflow_is_none() {
    let max = dec(MAX_MANTISSA, 0);
    assert_eq!(bracket_from_offsets(max, OrderSide::Buy, dec(1, 0), dec(0, 0), 0), None);
    assert_eq!(bracket_from_offsets(max, OrderSide::Sell, dec(0, 0), dec(1, 0), 0), None);
}

#[test]
fn offsets_of_a_step_keep_the_exits_apart() {
    for side in [OrderSide::Buy, OrderSide::Sell] {
        let price = dec(1234567, 2);
        let b = bracket_from_offsets(price, side, dec(1, 2), dec(1, 2), 2).unwrap();
        let (tp, sl, p) = (outside(b.take_profit), outside(b.stop_loss), outside(price));
        match side {
            OrderSide::Buy => assert!(tp > p && p > sl),
            OrderSide::Sell => assert!(sl > p && p > tp),
        }
    }
}

#[test]
fn negative_values_round_as_their_magnitudes() {
    // -0.125 - 0 at two digits: -0.12
    let b = bracket_from_offsets(dec(-125, 3), OrderSide::Buy, dec(0, 0), dec(0, 0), 2).unwrap();
    assert_eq!(b.take_profit, dec(-12, 2));
    // -0.135 at two digits: -0.14
    let c = bracket_from_offsets(dec(-135, 3), OrderSide::Buy, dec(0, 0), dec(0, 0), 2).unwrap();
    assert_eq!(c.take_profit, dec(-14, 2));
}

#[test]
fn half_a_step_survives_only_beside_an_odd_entry() {
    let half = dec(5, 1);
    // 101 is odd: 101.5 goes up to 102 and 100.5 down to 100
    let odd = bracket_from_offsets(dec(101, 0), OrderSide::Buy, half, half, 0).unwrap();
    assert_eq!(odd, Bracket { take_profit: dec(102, 0), stop_loss: dec(100, 0) });
    // 100 is even: 100.5 and 99.5 both come back to 100
    let even = bracket_from_offsets(dec(100, 0), OrderSide::Buy, half, half, 0).unwrap();
    assert_eq!(even, Bracket { take_profit: dec(100, 0), stop_loss: dec(100, 0) });
}

#[test]
fn more_than_half_a_step_survives_and_less_does_not() {
    let more = bracket_from_offsets(dec(100, 0), OrderSide::Sell, dec(6, 1), dec(51, 2), 0).unwrap();
    assert_eq!(more, Bracket { take_profit: dec(99, 0), stop_loss: dec(101, 0) });
    let less = bracket_from_offsets(dec(100, 0), OrderSide::Sell, dec(4, 1), dec(49, 2), 0).unwrap();
    assert_eq!(less, Bracket { take_profit: dec(100, 0), stop_loss: dec(100, 0) });
}

#[test]
fn percent_of_is_exact_where_nothing_is_rounded() {
    // 250 * 1.2 = 300.0, a multiple of a hundred in the mantissa
    assert_eq!(percent_of(dec(250, 0), dec(12, 1)), Some(dec(30, 1)));
    // a zero factor gives plain zero
    assert_eq!(percent_of(dec(0, 5), dec(12, 1)), Some(dec(0, 0)));
    assert_eq!(percent_of(dec(250, 0), dec(0, 3)), Some(dec(0, 0)));
    // signs
    assert_eq!(percent_of(dec(-250, 0), dec(12, 1)), Some(dec(-30, 1)));
    assert_eq!(percent_of(dec(-250, 1), dec(-4, 0)), Some(dec(10, 1)));
}

#[test]
fn sums_at_the_limits_are_exact() {
    let max = MAX_MANTISSA;
    let b = bracket_from_offsets(dec(max - 1, 0), OrderSide::Buy, dec(1, 0), dec(1, 0), 0).unwrap();
    assert_eq!(b, Bracket { take_profit: dec(max, 0), stop_loss: dec(max - 2, 0) });
    let s = bracket_from_offsets(dec(1 - max, 3), OrderSide::Sell, dec(1, 3), dec(1, 0), 28).unwrap();
    assert_eq!(s, Bracket { take_profit: dec(-max, 3), stop_loss: dec(1001 - max, 3) });
    // operands of different scales and sizes
    let t = bracket_from_offsets(
        dec(18_446_744_073_709_551_616, 2),
        OrderSide::Buy,
        dec(5, 6),
        dec(4_294_967_296, 0),
        28,
    )
    .unwrap();
    assert_eq!(
        t,
        Bracket {
            take_profit: dec(184_467_440_737_095_516_160_005, 6),
            stop_loss: dec(18_446_743_644_212_822_016, 2),
        }
    );
}

#[test]
fn ordinary_inputs_always_have_a_bracket() {
    let prices = [dec(0, 0), dec(1, 28), dec(1005, 1), dec(1_000_000_000_000, 0), dec(999_999_999_999_999_999, 6)];
    let percents = [dec(0, 0), dec(1, 28), dec(33333, 4), dec(100, 0), dec(9_999_999_999, 8)];
    for price in prices {
        for tp in percents {
            for sl in percents {
                for precision in [0u32, 1, 8, 28, 40] {
                    for side in [OrderSide::Buy, OrderSide::Sell] {
                        assert!(
                            calculate_tp_and_sl(price, side, tp, sl, precision).is_some(),
                            "{:?} {:?} {:?} {}",
                            price,
                            tp,
                            sl,
                            precision
                        );
                    }
                }
            }
        }
    }
}

#[test]
fn entry_with_trailing_zeros_lies_on_the_grid() {
    // 1.50 at one digit: offsets of a step keep the exits apart
    let b = bracket_from_offsets(dec(150, 2), OrderSide::Buy, dec(1, 1), dec(1, 1), 1).unwrap();
    assert_eq!(b, Bracket { take_profit: dec(16, 1), stop_loss: dec(14, 1) });
}

#[test]
fn sum_that_must_be_rounded_can_swallow_the_offset() {
    // next to the largest decimal there is no room for a fractional digit
    let price = dec(MAX_MANTISSA - 1, 0);
    let b = bracket_from_offsets(price, OrderSide::Buy, dec(4, 1), dec(4, 1), 1).unwrap();
    assert_eq!(b.take_profit, price);
}
