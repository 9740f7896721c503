//! From an exchange's tick or lot increment to a number of decimal places.

use vstd::prelude::*;
use crate::decimal::{
    checked_mul,
    lemma_exact_product_units,
    lemma_pow10_28,
    lemma_pow10_adds,
    lemma_pow10_increases,
    lemma_pow10_positive,
    lemma_units_sign,
    less_than,
    pow10,
    product_is_exact,
    Decimal,
    MAX_MANTISSA,
};

verus! {

/// `n` is the least number of tenfold steps that bring a value of `units`
/// (in units of 10^-28) to one or more.
pub open spec fn is_precision_of(units: int, n: nat) -> bool {
    &&& units * pow10(n) >= pow10(28)
    &&& forall|k: nat| k < n ==> units * #[trigger] pow10(k) < pow10(28)
}

/// The least number of tenfold steps that bring `units` to one or more.
pub open spec fn precision_of(units: int) -> nat {
    choose|n: nat| is_precision_of(units, n)
}

/// No two step counts are both the least.
pub proof fn lemma_precision_unique(units: int, a: nat, b: nat)
    requires
        is_precision_of(units, a),
        is_precision_of(units, b),
    ensures
        a == b,
        precision_of(units) == a,
{
    if a < b {
        assert(units * pow10(a) < pow10(28));
    } else if b < a {
        assert(units * pow10(b) < pow10(28));
    }
    let c = precision_of(units);
    if c < a {
        assert(units * pow10(c) < pow10(28));
    } else if a < c {
        assert(units * pow10(a) < pow10(28));
    }
}

/// The increment 10^-n, for every n up to 28, has precision n.
pub proof fn lemma_precision_of_power_of_ten(n: nat)
    requires
        n <= 28,
    ensures
        is_precision_of(pow10((28 - n) as nat), n),
        precision_of(pow10((28 - n) as nat)) == n,
{
    let e = (28 - n) as nat;
    let units = pow10(e);
    lemma_pow10_adds(e, n);
    assert(e + n == 28);
    assert forall|k: nat| k < n implies units * #[trigger] pow10(k) < pow10(28) by {
        lemma_pow10_adds(e, k);
        lemma_pow10_increases(e + k, 27);
        lemma_pow10_28();
    }
    lemma_precision_unique(units, n, n);
}

/// The number of decimal places of an increment: how often it must be
/// multiplied by ten to reach one or more. The increment 1 has precision 0,
/// the increment 0.0001 has precision 4, and 10^-n has precision n.
///
/// The increment must be positive: no number of steps brings zero or a
/// negative number to one. Exchanges report powers of ten.
pub fn convert_increment_to_precision(increment: Decimal) -> (precision: u32)
    requires
        increment.wf(),
        increment.mantissa > 0,
    ensures
        precision <= 28,
        precision == precision_of(increment.units()),
        is_precision_of(increment.units(), precision as nat),
        forall|n: nat|
            n <= 28 && increment.units() == #[trigger] pow10((28 - n) as nat) ==> precision == n,
{
    let one = Decimal::from_int(1);
    let ten = Decimal::from_int(10);
    let mut precision: u32 = 0;
    let mut incr = increment;
    proof {
        assert(pow10(0) == 1);
        lemma_units_sign(increment);
    }
    while less_than(incr, one)
        invariant
            increment.wf(),
            increment.units() >= 1,
            one == (Decimal { mantissa: 1, scale: 0 }),
            ten == (Decimal { mantissa: 10, scale: 0 }),
            incr.wf(),
            incr.units() >= 1,
            precision <= 28,
            incr.units() == increment.units() * pow10(precision as nat),
            forall|k: nat| k < precision ==> increment.units() * #[trigger] pow10(k) < pow10(28),
        decreases 28 - precision,
    {
        proof {
            lemma_pow10_28();
            assert(pow10(0) == 1);
            assert(one.units() == pow10(28));
            lemma_steps_bounded(increment.units(), precision as nat);
        }
        if incr.mantissa > MAX_MANTISSA / 10 {
            // Ten times this mantissa no longer fits 96 bits, so the product
            // would be rounded. It need not be formed: with at most 28 digits
            // such a mantissa is more than a tenth, and one more step reaches
            // one.
            proof {
                lemma_units_sign(incr);
                lemma_step(increment.units(), precision as nat);
                lemma_least_extends(increment.units(), precision as nat);
                lemma_precision_of_power(increment.units(), (precision + 1) as nat);
                lemma_precision_unique(
                    increment.units(),
                    (precision + 1) as nat,
                    (precision + 1) as nat,
                );
            }
            return precision + 1;
        }
        proof {
            lemma_units_sign(incr);
            assert(incr.mantissa > 0);
            assert(product_is_exact(incr, ten));
        }
        let next = checked_mul(incr, ten).unwrap();
        proof {
            lemma_exact_product_units(incr, ten);
            let u = incr.units();
            let v = next.units();
            let p = pow10(28);
            assert(ten.units() == 10 * p);
            assert(v * p == u * (10 * p));
            assert(v == 10 * u) by (nonlinear_arith)
                requires
                    v * p == u * (10 * p),
                    p > 0,
            ;
            lemma_step(increment.units(), precision as nat);
            lemma_least_extends(increment.units(), precision as nat);
        }
        incr = next;
        precision = precision + 1;
    }
    proof {
        lemma_pow10_28();
        assert(pow10(0) == 1);
        assert(one.units() == pow10(28));
        lemma_precision_of_power(increment.units(), precision as nat);
        lemma_precision_unique(increment.units(), precision as nat, precision as nat);
    }
    precision
}

/// One more tenfold step multiplies by ten.
proof fn lemma_step(units: int, n: nat)
    ensures
        units * pow10(n + 1) == 10 * (units * pow10(n)),
{
    let p = pow10(n);
    assert(pow10(n + 1) == 10 * p);
    assert(units * (10 * p) == 10 * (units * p)) by (nonlinear_arith);
}

/// A value of at least one unit that is still below one after `n` steps has
/// taken fewer than 28 of them.
proof fn lemma_steps_bounded(units: int, n: nat)
    requires
        units >= 1,
        units * pow10(n) < pow10(28),
    ensures
        n < 28,
{
    if n >= 28 {
        lemma_pow10_increases(28, n);
        lemma_pow10_positive(n);
        let p = pow10(n);
        assert(units * p >= p) by (nonlinear_arith)
            requires
                units >= 1,
                p >= 1,
        ;
    }
}

/// If no step count below `n` reaches one and `n` does not either, none
/// below `n + 1` does.
proof fn lemma_least_extends(units: int, n: nat)
    requires
        forall|k: nat| k < n ==> units * #[trigger] pow10(k) < pow10(28),
        units * pow10(n) < pow10(28),
    ensures
        forall|k: nat| k < n + 1 ==> units * #[trigger] pow10(k) < pow10(28),
{
    assert forall|k: nat| k < n + 1 implies units * #[trigger] pow10(k) < pow10(28) by {
        if k == n {
        }
    }
}

/// The precision of the increment 10^-n is n.
proof fn lemma_precision_of_power(units: int, p: nat)
    requires
        is_precision_of(units, p),
        p <= 28,
    ensures
        forall|n: nat| n <= 28 && units == #[trigger] pow10((28 - n) as nat) ==> p == n,
{
    assert forall|n: nat| n <= 28 && units == #[trigger] pow10((28 - n) as nat) implies p == n by {
        let e = (28 - n) as nat;
        if p < n {
            // after p steps the value is 10^(28 - n + p), below 10^28
            lemma_pow10_adds(e, p);
            lemma_pow10_increases(e + p, 27);
            lemma_pow10_28();
        } else if n < p {
            // n steps already reach one
            lemma_pow10_adds(e, n);
            assert(e + n == 28);
            assert(units * pow10(n) < pow10(28));
        }
    }
}

} // verus!
