//! Take-profit and stop-loss prices around an entry.

use vstd::prelude::*;
use crate::decimal::{
    checked_add,
    lemma_pow10_adds,
    lemma_pow10_increases,
    magnitude,
    sum_in_range,
    checked_div,
    checked_mul,
    checked_sub,
    decimal_difference,
    decimal_product,
    decimal_quotient,
    decimal_sum,
    difference_is_exact,
    lemma_exact_product_units,
    lemma_exact_quotient_units,
    lemma_pow10_28,
    pow10,
    product_is_exact,
    product_in_range,
    quotient_in_range,
    quotient_is_exact,
    round_dp,
    safe_magnitude,
    spec_exact_product,
    spec_exact_quotient,
    spec_round_dp,
    sum_is_exact,
    Decimal,
};
use crate::rounding::{
    grid,
    lemma_grid_positive,
    lemma_round_dp_units,
    lemma_round_to_grid_keeps_distance,
    lemma_round_to_grid_strict,
    round_to_grid,
    survives_rounding,
};
use crate::side::OrderSide;

verus! {

/// The two exit prices attached to an entry, both rounded to the market's
/// price precision.
#[derive(Clone, Copy, Debug, PartialEq, Eq, Structural)]
pub struct Bracket {
    pub take_profit: Decimal,
    pub stop_loss: Decimal,
}

impl Bracket {
    /// Both prices are well-formed decimals.
    pub open spec fn wf(self) -> bool {
        self.take_profit.wf() && self.stop_loss.wf()
    }

    /// The take-profit lies beyond the entry in the trade's direction and the
    /// stop-loss behind it.
    pub open spec fn encloses(self, price: Decimal, side: OrderSide) -> bool {
        match side {
            OrderSide::Buy => self.take_profit.units() > price.units() > self.stop_loss.units(),
            OrderSide::Sell => self.stop_loss.units() > price.units() > self.take_profit.units(),
        }
    }

    /// Neither price lies on the wrong side of the entry.
    pub open spec fn weakly_encloses(self, price: Decimal, side: OrderSide) -> bool {
        match side {
            OrderSide::Buy => self.take_profit.units() >= price.units() >= self.stop_loss.units(),
            OrderSide::Sell => self.stop_loss.units() >= price.units() >= self.take_profit.units(),
        }
    }
}

/// The divisor that turns a percentage into a fraction.
pub open spec fn hundred() -> Decimal {
    Decimal { mantissa: 100, scale: 0 }
}

/// `price * percent / 100`, each step as the decimal arithmetic gives it;
/// none if a step overflows.
pub open spec fn spec_percent_of(price: Decimal, percent: Decimal) -> Option<Decimal> {
    match decimal_product(price, percent) {
        Some(p) => decimal_quotient(p, hundred()),
        None => None,
    }
}

/// The product of price and percentage needs no rounding, and its mantissa
/// is a whole multiple of a hundred: the percentage of the price is found
/// without rounding anywhere.
pub open spec fn percent_is_exact(price: Decimal, percent: Decimal) -> bool {
    &&& product_is_exact(price, percent)
    &&& (price.mantissa * percent.mantissa) % 100 == 0
}

/// `price * percent / 100` where `percent_is_exact`.
pub open spec fn spec_exact_percent(price: Decimal, percent: Decimal) -> Decimal {
    spec_exact_quotient(spec_exact_product(price, percent), hundred())
}

/// The value of an exact percentage: a hundred times it is the product of
/// the values of price and percentage.
pub proof fn lemma_exact_percent_units(price: Decimal, percent: Decimal)
    requires
        price.wf(),
        percent.wf(),
        percent_is_exact(price, percent),
    ensures
        spec_exact_percent(price, percent).wf(),
        quotient_is_exact(spec_exact_product(price, percent), hundred()),
        spec_exact_percent(price, percent).units() * 100 * pow10(28) == price.units()
            * percent.units(),
{
    let p = spec_exact_product(price, percent);
    let o = spec_exact_percent(price, percent);
    lemma_exact_product_units(price, percent);
    assert(quotient_is_exact(p, hundred()));
    lemma_exact_quotient_units(p, hundred());
    lemma_pow10_28();
    assert(pow10(0) == 1);
    let t = pow10(28);
    assert(hundred().units() == 100 * t);
    assert(o.units() * (100 * t) == p.units() * t);
    assert(o.units() * 100 == p.units()) by (nonlinear_arith)
        requires
            o.units() * (100 * t) == p.units() * t,
            t > 0,
    ;
    assert(o.units() * 100 * t == p.units() * t);
}

/// The price is no more than 10^24 and the percentage no more than a
/// hundred, both in magnitude.
pub open spec fn is_ordinary(price: Decimal, percent: Decimal) -> bool {
    &&& magnitude(price) <= pow10(52)
    &&& magnitude(percent) <= pow10(30)
}

/// The given percentage of a price: `price * percent / 100`. None if the
/// decimal arithmetic overflows.
///
/// For an ordinary price and percentage there is a result, and it is small
/// enough to be added to the price and subtracted from it. Where the product
/// needs no rounding and its mantissa is a multiple of a hundred, the result
/// is the exact percentage.
pub fn percent_of(price: Decimal, percent: Decimal) -> (r: Option<Decimal>)
    requires
        price.wf(),
        percent.wf(),
    ensures
        r == spec_percent_of(price, percent),
        r matches Some(o) ==> o.wf(),
        is_ordinary(price, percent) ==> r is Some,
        r matches Some(o) ==> (is_ordinary(price, percent) ==> sum_in_range(price, o)),
        percent_is_exact(price, percent) ==> r == Some(spec_exact_percent(price, percent)),
{
    let hundred = Decimal::from_int(100);
    proof {
        if percent_is_exact(price, percent) {
            lemma_exact_percent_units(price, percent);
        }
        if is_ordinary(price, percent) {
            lemma_ordinary_product_in_range(price, percent);
        }
    }
    match checked_mul(price, percent) {
        Some(p) => {
            proof {
                if is_ordinary(price, percent) {
                    lemma_ordinary_quotient_in_range(price, percent, p, hundred);
                }
            }
            let q = checked_div(p, hundred);
            proof {
                if is_ordinary(price, percent) {
                    lemma_ordinary_sizes();
                }
            }
            q
        },
        None => None,
    }
}

/// How the powers of ten that bound ordinary prices, their percentages and
/// the safe magnitude lie to each other.
proof fn lemma_ordinary_sizes()
    ensures
        pow10(28) >= 1,
        pow10(28) <= pow10(54),
        pow10(52) <= pow10(54),
        10 * pow10(54) <= pow10(55),
        pow10(52) * pow10(30) == pow10(54) * pow10(28),
        pow10(54) * pow10(28) <= pow10(55) * pow10(28),
{
    lemma_pow10_increases(0, 28);
    assert(pow10(0) == 1);
    lemma_pow10_increases(28, 54);
    lemma_pow10_increases(52, 54);
    lemma_pow10_increases(54, 55);
    lemma_pow10_adds(52, 30);
    lemma_pow10_adds(54, 28);
    let t = pow10(28);
    let a = pow10(54);
    let b = pow10(55);
    assert(a * t <= b * t) by (nonlinear_arith)
        requires
            a <= b,
            t >= 1,
    ;
}

/// The product of an ordinary price and percentage is within the safe
/// magnitude.
proof fn lemma_ordinary_product_in_range(price: Decimal, percent: Decimal)
    requires
        is_ordinary(price, percent),
    ensures
        product_in_range(price, percent),
        magnitude(price) * magnitude(percent) <= pow10(54) * pow10(28),
{
    lemma_ordinary_sizes();
    let x = magnitude(price);
    let y = magnitude(percent);
    let bx = pow10(52);
    let by = pow10(30);
    assert(x * y <= bx * by) by (nonlinear_arith)
        requires
            0 <= x <= bx,
            0 <= y <= by,
    ;
}

/// The product of an ordinary price and percentage, within one of the exact
/// product, can be divided by a hundred, and what comes out can be added to
/// the price.
proof fn lemma_ordinary_quotient_in_range(
    price: Decimal,
    percent: Decimal,
    product: Decimal,
    hundred: Decimal,
)
    requires
        is_ordinary(price, percent),
        hundred == (Decimal { mantissa: 100, scale: 0 }),
        magnitude(product) * pow10(28) <= magnitude(price) * magnitude(percent) + pow10(28)
            * pow10(28),
    ensures
        quotient_in_range(product, hundred),
        magnitude(product) + 2 * pow10(28) + magnitude(price) <= safe_magnitude(),
{
    lemma_ordinary_sizes();
    lemma_ordinary_product_in_range(price, percent);
    let t = pow10(28);
    let m = magnitude(product);
    let a = pow10(54);
    assert(m * t <= (a + t) * t) by (nonlinear_arith)
        requires
            m * t <= magnitude(price) * magnitude(percent) + t * t,
            magnitude(price) * magnitude(percent) <= a * t,
    ;
    assert(m <= a + t) by (nonlinear_arith)
        requires
            m * t <= (a + t) * t,
            t >= 1,
    ;
    assert(pow10(0) == 1);
    assert(hundred.units() == 100 * t);
}

/// The sums and differences that the bracket of this side is made of need no
/// rounding to be represented.
pub open spec fn offsets_in_range(
    price: Decimal,
    side: OrderSide,
    tp_offset: Decimal,
    sl_offset: Decimal,
) -> bool {
    match side {
        OrderSide::Buy => sum_is_exact(price, tp_offset) && difference_is_exact(price, sl_offset),
        OrderSide::Sell => difference_is_exact(price, tp_offset) && sum_is_exact(price, sl_offset),
    }
}

/// The take-profit before rounding, in units: the entry moved by the offset
/// in the trade's direction.
pub open spec fn raw_take_profit(price: Decimal, side: OrderSide, tp_offset: Decimal) -> int {
    match side {
        OrderSide::Buy => price.units() + tp_offset.units(),
        OrderSide::Sell => price.units() - tp_offset.units(),
    }
}

/// The stop-loss before rounding, in units: the entry moved by the offset
/// against the trade's direction.
pub open spec fn raw_stop_loss(price: Decimal, side: OrderSide, sl_offset: Decimal) -> int {
    match side {
        OrderSide::Buy => price.units() - sl_offset.units(),
        OrderSide::Sell => price.units() + sl_offset.units(),
    }
}

/// The bracket's two prices are the exact ones, rounded to the grid of
/// `precision` digits.
pub open spec fn is_rounded_bracket(
    bracket: Bracket,
    price: Decimal,
    side: OrderSide,
    tp_offset: Decimal,
    sl_offset: Decimal,
    precision: u32,
) -> bool {
    &&& bracket.take_profit.units() == round_to_grid(
        raw_take_profit(price, side, tp_offset),
        precision,
    )
    &&& bracket.stop_loss.units() == round_to_grid(raw_stop_loss(price, side, sl_offset), precision)
}

/// The entry is a positive price on the grid of `precision` digits, that is
/// one that rounding to `precision` digits leaves at its value, and neither
/// offset is negative.
pub open spec fn is_regular_entry(
    price: Decimal,
    tp_offset: Decimal,
    sl_offset: Decimal,
    precision: u32,
) -> bool {
    &&& round_to_grid(price.units(), precision) == price.units()
    &&& price.units() > 0
    &&& tp_offset.units() >= 0
    &&& sl_offset.units() >= 0
}

/// What rounding leaves of the distance between the exits and the entry.
/// Where the sums are in range and the entry is regular, neither exit lies
/// on the wrong side of the entry, and both lie strictly apart from it
/// exactly when both offsets survive rounding; offsets of one grid distance
/// or more always do.
pub open spec fn exits_flank_entry(
    bracket: Bracket,
    price: Decimal,
    side: OrderSide,
    tp_offset: Decimal,
    sl_offset: Decimal,
    precision: u32,
) -> bool {
    offsets_in_range(price, side, tp_offset, sl_offset) && is_regular_entry(
        price,
        tp_offset,
        sl_offset,
        precision,
    ) ==> {
        &&& bracket.weakly_encloses(price, side)
        &&& bracket.encloses(price, side) <==> survives_rounding(
            price.units(),
            tp_offset.units(),
            precision,
        ) && survives_rounding(price.units(), sl_offset.units(), precision)
        &&& tp_offset.units() >= grid(precision) && sl_offset.units() >= grid(precision)
            ==> bracket.encloses(price, side)
    }
}

/// A bracket whose prices are the exact ones, rounded, flanks a regular
/// entry: rounding never carries an exit across the entry, and it leaves both
/// exits strictly apart from it exactly when both offsets survive rounding,
/// as offsets of one grid distance or more always do.
pub proof fn lemma_rounded_bracket_flanks_entry(
    bracket: Bracket,
    price: Decimal,
    side: OrderSide,
    tp_offset: Decimal,
    sl_offset: Decimal,
    precision: u32,
)
    requires
        price.wf(),
        is_rounded_bracket(bracket, price, side, tp_offset, sl_offset, precision),
        is_regular_entry(price, tp_offset, sl_offset, precision),
    ensures
        bracket.weakly_encloses(price, side),
        bracket.encloses(price, side) <==> survives_rounding(
            price.units(),
            tp_offset.units(),
            precision,
        ) && survives_rounding(price.units(), sl_offset.units(), precision),
        tp_offset.units() >= grid(precision) && sl_offset.units() >= grid(precision)
            ==> bracket.encloses(price, side),
{
    lemma_grid_positive(precision);
    lemma_round_to_grid_keeps_distance(price.units(), tp_offset.units(), precision);
    lemma_round_to_grid_keeps_distance(price.units(), sl_offset.units(), precision);
    lemma_round_to_grid_strict(price.units(), tp_offset.units(), precision);
    lemma_round_to_grid_strict(price.units(), sl_offset.units(), precision);
}

/// The bracket for given offsets: entry plus or minus each offset, as the
/// decimal arithmetic gives it, rounded to `precision` digits; none if a sum
/// overflows.
pub open spec fn spec_bracket_from_offsets(
    price: Decimal,
    side: OrderSide,
    tp_offset: Decimal,
    sl_offset: Decimal,
    precision: u32,
) -> Option<Bracket> {
    let tp = match side {
        OrderSide::Buy => decimal_sum(price, tp_offset),
        OrderSide::Sell => decimal_difference(price, tp_offset),
    };
    let sl = match side {
        OrderSide::Buy => decimal_difference(price, sl_offset),
        OrderSide::Sell => decimal_sum(price, sl_offset),
    };
    match (tp, sl) {
        (Some(t), Some(s)) => Some(
            Bracket {
                take_profit: spec_round_dp(t, precision),
                stop_loss: spec_round_dp(s, precision),
            },
        ),
        _ => None,
    }
}

/// The bracket around `price` for offsets already computed. For a buy the
/// take-profit is the entry plus its offset and the stop-loss the entry minus
/// its offset; for a sell the other way round. Both are rounded to
/// `precision` digits, ties to even.
///
/// There is a bracket where price and offsets together stay within the safe
/// magnitude, and where the sums need no rounding to be represented. In the
/// second case the two prices are the exact ones, rounded; around a positive
/// entry on the grid of `precision` digits the exits then never lie on the
/// wrong side, and they lie strictly apart from the entry exactly when both
/// offsets survive rounding, as offsets of one grid distance or more do.
///
/// A sum that has to be rounded to be represented can swallow the offset:
/// next to the largest decimal, an offset of 0.4 is lost whatever the
/// precision.
pub fn bracket_from_offsets(
    price: Decimal,
    side: OrderSide,
    tp_offset: Decimal,
    sl_offset: Decimal,
    precision: u32,
) -> (r: Option<Bracket>)
    requires
        price.wf(),
        tp_offset.wf(),
        sl_offset.wf(),
    ensures
        r == spec_bracket_from_offsets(price, side, tp_offset, sl_offset, precision),
        r matches Some(b) ==> b.wf(),
        sum_in_range(price, tp_offset) && sum_in_range(price, sl_offset) ==> r is Some,
        offsets_in_range(price, side, tp_offset, sl_offset) ==> r is Some,
        r matches Some(b) ==> (offsets_in_range(price, side, tp_offset, sl_offset)
            ==> is_rounded_bracket(b, price, side, tp_offset, sl_offset, precision)),
        r matches Some(b) ==> exits_flank_entry(b, price, side, tp_offset, sl_offset, precision),
{
    let tp_raw = match side {
        OrderSide::Buy => checked_add(price, tp_offset),
        OrderSide::Sell => checked_sub(price, tp_offset),
    };
    let sl_raw = match side {
        OrderSide::Buy => checked_sub(price, sl_offset),
        OrderSide::Sell => checked_add(price, sl_offset),
    };
    match (tp_raw, sl_raw) {
        (Some(t), Some(s)) => {
            let b = Bracket { take_profit: round_dp(t, precision), stop_loss: round_dp(s, precision) };
            proof {
                lemma_round_dp_units(t, precision);
                lemma_round_dp_units(s, precision);
                if offsets_in_range(price, side, tp_offset, sl_offset) && is_regular_entry(
                    price,
                    tp_offset,
                    sl_offset,
                    precision,
                ) {
                    lemma_rounded_bracket_flanks_entry(
                        b,
                        price,
                        side,
                        tp_offset,
                        sl_offset,
                        precision,
                    );
                }
            }
            Some(b)
        },
        _ => None,
    }
}

/// The bracket for given percentages: the offsets are `price * percent / 100`.
pub open spec fn spec_calculate_tp_and_sl(
    price: Decimal,
    side: OrderSide,
    tp_percent: Decimal,
    sl_percent: Decimal,
    precision: u32,
) -> Option<Bracket> {
    match (spec_percent_of(price, tp_percent), spec_percent_of(price, sl_percent)) {
        (Some(t), Some(s)) => spec_bracket_from_offsets(price, side, t, s, precision),
        _ => None,
    }
}

/// Both percentages of the price are found without rounding, and the sums
/// with them are in range.
pub open spec fn bracket_is_exact(
    price: Decimal,
    side: OrderSide,
    tp_percent: Decimal,
    sl_percent: Decimal,
) -> bool {
    &&& percent_is_exact(price, tp_percent)
    &&& percent_is_exact(price, sl_percent)
    &&& offsets_in_range(
        price,
        side,
        spec_exact_percent(price, tp_percent),
        spec_exact_percent(price, sl_percent),
    )
}

/// Static take-profit and stop-loss prices for an entry at `price`: for a buy
/// `price + price * tp_percent / 100` and `price - price * sl_percent / 100`,
/// for a sell mirrored, each rounded to `precision` digits, ties to even.
/// None if the decimal arithmetic overflows.
///
/// There is a bracket for every ordinary price and percentages, that is for
/// prices up to 10^24 and percentages up to a hundred. Where nothing is
/// rounded before the last step, the bracket's prices are the exact ones,
/// rounded. Whatever the offsets come out as: where the sums with them need
/// no rounding and the entry is a positive price on the grid of `precision`
/// digits, the exits never lie on the wrong side of it, and they lie strictly
/// apart from it exactly when both offsets survive rounding, as offsets of
/// one grid distance or more do.
pub fn calculate_tp_and_sl(
    price: Decimal,
    side: OrderSide,
    tp_percent: Decimal,
    sl_percent: Decimal,
    precision: u32,
) -> (r: Option<Bracket>)
    requires
        price.wf(),
        tp_percent.wf(),
        sl_percent.wf(),
    ensures
        r == spec_calculate_tp_and_sl(price, side, tp_percent, sl_percent, precision),
        r matches Some(b) ==> b.wf(),
        is_ordinary(price, tp_percent) && is_ordinary(price, sl_percent) ==> r is Some,
        bracket_is_exact(price, side, tp_percent, sl_percent) ==> r is Some,
        r matches Some(b) ==> (bracket_is_exact(price, side, tp_percent, sl_percent)
            ==> is_rounded_bracket(
            b,
            price,
            side,
            spec_exact_percent(price, tp_percent),
            spec_exact_percent(price, sl_percent),
            precision,
        ) && exits_flank_entry(
            b,
            price,
            side,
            spec_exact_percent(price, tp_percent),
            spec_exact_percent(price, sl_percent),
            precision,
        )),
        r matches Some(b) ==> (spec_percent_of(price, tp_percent) matches Some(t)
            && spec_percent_of(price, sl_percent) matches Some(s) && exits_flank_entry(
            b,
            price,
            side,
            t,
            s,
            precision,
        )),
{
    let tp_offset = percent_of(price, tp_percent);
    let sl_offset = percent_of(price, sl_percent);
    match (tp_offset, sl_offset) {
        (Some(t), Some(s)) => bracket_from_offsets(price, side, t, s, precision),
        _ => None,
    }
}

} // verus!
