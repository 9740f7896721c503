//! The order size that is sent to the exchange: the configured size brought
//! to the precision of the market's lot increment.

use vstd::prelude::*;
use crate::decimal::{lemma_units_sign, less_than, round_dp, spec_round_dp, Decimal};
use crate::precision::{convert_increment_to_precision, precision_of};
use crate::rounding::{lemma_round_dp_units, round_to_grid};

verus! {

/// Why no order size could be derived.
#[derive(Clone, Copy, Debug, PartialEq, Eq, Structural)]
pub enum SizeError {
    /// The configured size is smaller than one lot increment.
    BelowMinimum,
    /// The lot increment is zero or negative.
    InvalidIncrement,
}

/// The configured size rounded to the precision of the lot increment, ties
/// to even. An increment of one or more has precision zero, so the size is
/// then rounded to a whole number.
pub open spec fn spec_round_order_size(order_size: Decimal, size_increment: Decimal) -> Result<
    Decimal,
    SizeError,
> {
    if order_size.units() < size_increment.units() {
        Err(SizeError::BelowMinimum)
    } else if size_increment.units() <= 0 {
        Err(SizeError::InvalidIncrement)
    } else {
        Ok(spec_round_dp(order_size, precision_of(size_increment.units()) as u32))
    }
}

/// The order size to trade with, or the reason there is none. The size
/// depends on the settings and the increment alone, so it is the same for
/// every order of a run.
pub fn round_order_size(order_size: Decimal, size_increment: Decimal) -> (r: Result<
    Decimal,
    SizeError,
>)
    requires
        order_size.wf(),
        size_increment.wf(),
    ensures
        r == spec_round_order_size(order_size, size_increment),
        r matches Ok(size) ==> size.wf() && size.units() == round_to_grid(
            order_size.units(),
            precision_of(size_increment.units()) as u32,
        ),
{
    let zero = Decimal::from_int(0);
    proof {
        lemma_units_sign(size_increment);
    }
    if less_than(order_size, size_increment) {
        return Err(SizeError::BelowMinimum);
    }
    if !less_than(zero, size_increment) {
        return Err(SizeError::InvalidIncrement);
    }
    let precision = convert_increment_to_precision(size_increment);
    proof {
        lemma_round_dp_units(order_size, precision);
    }
    Ok(round_dp(order_size, precision))
}

} // verus!
