//! Rounding to a number of decimal places, ties to even, as a function on
//! values: what it does to the order of two numbers and to numbers that are
//! already round.

use vstd::prelude::*;
use vstd::arithmetic::div_mod::{
    lemma_div_is_ordered_by_denominator,
    lemma_fundamental_div_mod,
    lemma_fundamental_div_mod_converse,
    lemma_mod_bound,
};
use crate::decimal::{
    lemma_pow10_adds,
    lemma_pow10_increases,
    lemma_pow10_positive,
    pow10,
    round_half_even,
    spec_round_dp,
    Decimal,
    MAX_MANTISSA,
};

verus! {

/// The distance between neighbouring decimals of `dp` fractional digits, in
/// units of 10^-28.
pub open spec fn grid(dp: u32) -> int {
    if dp >= 28 {
        1
    } else {
        pow10((28 - dp) as nat)
    }
}

/// A value, in units of 10^-28, rounded to the nearest decimal of `dp`
/// fractional digits, ties to even.
pub open spec fn round_to_grid(units: int, dp: u32) -> int {
    round_half_even(units, grid(dp)) * grid(dp)
}

/// The step of every grid is positive.
pub proof fn lemma_grid_positive(dp: u32)
    ensures
        grid(dp) >= 1,
{
    if dp < 28 {
        lemma_pow10_positive((28 - dp) as nat);
    }
}

/// The rounded count is within half a step of the number.
pub proof fn lemma_round_half_even_near(m: int, p: int)
    requires
        p > 0,
    ensures
        -p <= 2 * (m - round_half_even(m, p) * p) <= p,
{
    let a = if m < 0 { -m } else { m };
    let q = a / p;
    let r = a % p;
    lemma_fundamental_div_mod(a, p);
    lemma_mod_bound(a, p);
    let n = round_half_even(m, p);
    assert((q + 1) * p == q * p + p) by (nonlinear_arith);
    assert((-(q + 1)) * p == -(q * p) - p) by (nonlinear_arith);
    assert((-q) * p == -(q * p)) by (nonlinear_arith);
    assert(p * q == q * p) by (nonlinear_arith);
}

/// Rounding keeps the order of two numbers.
pub proof fn lemma_round_half_even_monotone(a: int, b: int, p: int)
    requires
        p > 0,
        a <= b,
    ensures
        round_half_even(a, p) <= round_half_even(b, p),
{
    let na = round_half_even(a, p);
    let nb = round_half_even(b, p);
    lemma_round_half_even_near(a, p);
    lemma_round_half_even_near(b, p);
    if na > nb {
        assert(na * p >= nb * p + p) by (nonlinear_arith)
            requires
                na >= nb + 1,
                p > 0,
        ;
        assert(a == b);
    }
}

/// A whole multiple of the step rounds to itself.
pub proof fn lemma_round_half_even_of_multiple(k: int, p: int)
    requires
        p > 0,
    ensures
        round_half_even(k * p, p) == k,
{
    let m = k * p;
    let a = if m < 0 { -m } else { m };
    let j = if k < 0 { -k } else { k };
    assert(m < 0 <==> k < 0) by (nonlinear_arith)
        requires
            m == k * p,
            p > 0,
    ;
    assert(a == j * p + 0) by (nonlinear_arith)
        requires
            m == k * p,
            a == (if m < 0 { -m } else { m }),
            j == (if k < 0 { -k } else { k }),
            m < 0 <==> k < 0,
    ;
    lemma_fundamental_div_mod_converse(a, p, j, 0);
}

/// Scaling the number and the step alike does not change the rounded count.
pub proof fn lemma_round_half_even_scales(m: int, p: int, c: int)
    requires
        p > 0,
        c > 0,
    ensures
        round_half_even(m * c, p * c) == round_half_even(m, p),
{
    let a = if m < 0 { -m } else { m };
    let q = a / p;
    let r = a % p;
    lemma_fundamental_div_mod(a, p);
    lemma_mod_bound(a, p);
    let mc = m * c;
    let pc = p * c;
    let ac = if mc < 0 { -mc } else { mc };
    assert(mc < 0 <==> m < 0) by (nonlinear_arith)
        requires
            mc == m * c,
            c > 0,
    ;
    assert(ac == a * c) by (nonlinear_arith)
        requires
            mc == m * c,
            ac == (if mc < 0 { -mc } else { mc }),
            a == (if m < 0 { -m } else { m }),
            mc < 0 <==> m < 0,
    ;
    assert(ac == q * pc + r * c) by (nonlinear_arith)
        requires
            ac == a * c,
            a == p * q + r,
            pc == p * c,
    ;
    assert(0 <= r * c < pc) by (nonlinear_arith)
        requires
            0 <= r < p,
            c > 0,
            pc == p * c,
    ;
    assert(pc > 0);
    lemma_fundamental_div_mod_converse(ac, pc, q, r * c);
    assert((2 * (r * c) > pc) == (2 * r > p)) by (nonlinear_arith)
        requires
            c > 0,
            pc == p * c,
    ;
    assert((2 * (r * c) == pc) == (2 * r == p)) by (nonlinear_arith)
        requires
            c > 0,
            pc == p * c,
    ;
}

/// Rounding a decimal to `dp` digits gives a decimal again, and its value is
/// the decimal's value rounded to the grid of `dp` digits.
pub proof fn lemma_round_dp_units(d: Decimal, dp: u32)
    requires
        d.wf(),
    ensures
        spec_round_dp(d, dp).wf(),
        spec_round_dp(d, dp).units() == round_to_grid(d.units(), dp),
        spec_round_dp(d, dp).scale <= dp || spec_round_dp(d, dp) == d,
{
    let m = d.mantissa as int;
    if dp >= 28 {
        assert(d.units() * 1 == d.units());
        lemma_round_half_even_of_multiple(d.units(), 1);
    } else if d.scale <= dp {
        let g = pow10((28 - dp) as nat);
        let e = pow10((dp - d.scale) as nat);
        lemma_pow10_adds((dp - d.scale) as nat, (28 - dp) as nat);
        lemma_pow10_positive((28 - dp) as nat);
        assert(pow10((28 - d.scale) as nat) == e * g);
        assert(m * (e * g) == (m * e) * g) by (nonlinear_arith);
        lemma_round_half_even_of_multiple(m * e, g);
    } else {
        let p = pow10((d.scale - dp) as nat);
        let c = pow10((28 - d.scale) as nat);
        lemma_pow10_adds((d.scale - dp) as nat, (28 - d.scale) as nat);
        lemma_pow10_positive((28 - d.scale) as nat);
        lemma_pow10_increases(1, (d.scale - dp) as nat);
        assert(pow10(1) == 10) by {
            reveal_with_fuel(pow10, 2);
        }
        assert(pow10((28 - dp) as nat) == p * c);
        lemma_round_half_even_scales(m, p, c);
        let a = if m < 0 { -m } else { m };
        lemma_div_is_ordered_by_denominator(a, 10, p);
        assert(a / p <= MAX_MANTISSA / 10);
        let n = round_half_even(m, p);
        assert(-MAX_MANTISSA <= n <= MAX_MANTISSA);
    }
}

/// Rounding an already rounded decimal to the same number of digits changes
/// nothing.
pub proof fn lemma_round_dp_idempotent(d: Decimal, dp: u32)
    requires
        d.wf(),
    ensures
        spec_round_dp(spec_round_dp(d, dp), dp) == spec_round_dp(d, dp),
{
    lemma_round_dp_units(d, dp);
}

/// Rounding to the grid keeps the order of two values.
pub proof fn lemma_round_to_grid_monotone(a: int, b: int, dp: u32)
    requires
        a <= b,
    ensures
        round_to_grid(a, dp) <= round_to_grid(b, dp),
{
    let g = grid(dp);
    lemma_grid_positive(dp);
    lemma_round_half_even_monotone(a, b, g);
    let na = round_half_even(a, g);
    let nb = round_half_even(b, g);
    assert(na * g <= nb * g) by (nonlinear_arith)
        requires
            na <= nb,
            g > 0,
    ;
}

/// A value that lies on the grid is its own rounding.
pub proof fn lemma_round_to_grid_fixes_grid(k: int, dp: u32)
    ensures
        round_to_grid(k * grid(dp), dp) == k * grid(dp),
{
    lemma_grid_positive(dp);
    lemma_round_half_even_of_multiple(k, grid(dp));
}

/// A decimal of no more than `dp` digits lies on the grid of `dp` digits.
pub proof fn lemma_on_grid(d: Decimal, dp: u32)
    requires
        d.wf(),
        d.scale <= dp,
    ensures
        round_to_grid(d.units(), dp) == d.units(),
{
    lemma_round_dp_units(d, dp);
}

/// From a value on the grid, a step of at least one grid distance upward
/// rounds to a strictly larger value, and one downward to a strictly smaller.
/// A step of any size never rounds to the other side of the value.
pub proof fn lemma_round_to_grid_keeps_distance(base: int, step: int, dp: u32)
    requires
        round_to_grid(base, dp) == base,
        step >= 0,
    ensures
        round_to_grid(base + step, dp) >= base,
        round_to_grid(base - step, dp) <= base,
        step >= grid(dp) ==> round_to_grid(base + step, dp) > base,
        step >= grid(dp) ==> round_to_grid(base - step, dp) < base,
{
    let g = grid(dp);
    lemma_grid_positive(dp);
    let k = round_half_even(base, g);
    lemma_round_to_grid_monotone(base, base + step, dp);
    lemma_round_to_grid_monotone(base - step, base, dp);
    if step >= g {
        assert((k + 1) * g == base + g) by (nonlinear_arith)
            requires
                k * g == base,
        ;
        assert((k - 1) * g == base - g) by (nonlinear_arith)
            requires
                k * g == base,
        ;
        lemma_round_to_grid_fixes_grid(k + 1, dp);
        lemma_round_to_grid_fixes_grid(k - 1, dp);
        lemma_round_to_grid_monotone(base + g, base + step, dp);
        lemma_round_to_grid_monotone(base - step, base - g, dp);
    }
}

/// A step away from a value on the grid is not rounded back to it: it is
/// more than half a grid distance, or exactly half while the value is an odd
/// multiple of the distance, so that the tie goes to its neighbour.
pub open spec fn survives_rounding(base: int, step: int, dp: u32) -> bool {
    2 * step > grid(dp) || (2 * step == grid(dp) && (base / grid(dp)) % 2 == 1)
}

/// From a positive value on the grid, a step upward rounds to a larger value
/// exactly when it survives rounding, and so does a step downward to a
/// smaller value.
pub proof fn lemma_round_to_grid_strict(base: int, step: int, dp: u32)
    requires
        round_to_grid(base, dp) == base,
        base > 0,
        step >= 0,
    ensures
        round_to_grid(base + step, dp) > base <==> survives_rounding(base, step, dp),
        round_to_grid(base - step, dp) < base <==> survives_rounding(base, step, dp),
{
    let g = grid(dp);
    lemma_grid_positive(dp);
    let k = round_half_even(base, g);
    assert(k >= 1) by (nonlinear_arith)
        requires
            k * g == base,
            base > 0,
            g >= 1,
    ;
    assert(base == k * g + 0);
    lemma_fundamental_div_mod_converse(base, g, k, 0);
    lemma_round_to_grid_keeps_distance(base, step, dp);
    if step < g {
        let up = base + step;
        lemma_fundamental_div_mod_converse(up, g, k, step);
        let n = round_half_even(up, g);
        assert(n == k || n == k + 1);
        assert(n * g > k * g <==> n > k) by (nonlinear_arith)
            requires
                g >= 1,
        ;
        if step > 0 {
            let down = base - step;
            assert(down == (k - 1) * g + (g - step)) by (nonlinear_arith)
                requires
                    down == base - step,
                    base == k * g,
            ;
            assert(down > 0) by (nonlinear_arith)
                requires
                    down == (k - 1) * g + (g - step),
                    k >= 1,
                    g >= 1,
                    step < g,
            ;
            lemma_fundamental_div_mod_converse(down, g, k - 1, g - step);
            let m = round_half_even(down, g);
            assert(m == k - 1 || m == k);
            assert(m * g < k * g <==> m < k) by (nonlinear_arith)
                requires
                    g >= 1,
            ;
        }
    }
}

} // verus!
