//! Decimal numbers as the library holds them: a signed 96-bit mantissa and a
//! scale of at most 28 digits. The arithmetic itself is `rust_decimal`'s; the
//! functions at the end of this file call it and state what is relied on.

use vstd::prelude::*;

verus! {

/// The largest number of fractional digits a decimal can carry.
pub const MAX_SCALE: u32 = 28;

/// The largest magnitude of a mantissa: 2^96 - 1.
pub const MAX_MANTISSA: i128 = 79_228_162_514_264_337_593_543_950_335;

/// Ten to the power `n`.
pub open spec fn pow10(n: nat) -> int
    decreases n,
{
    if n == 0 {
        1
    } else {
        10 * pow10((n - 1) as nat)
    }
}

/// The number `mantissa / 10^scale`.
///
/// `==` compares mantissa and scale: 1.0 and 1.00 are the same number in two
/// representations, and not equal. Zero has no sign.
#[derive(Clone, Copy, Debug, PartialEq, Eq, Structural)]
pub struct Decimal {
    pub mantissa: i128,
    pub scale: u32,
}

impl Decimal {
    /// The mantissa fits 96 bits and the scale is at most 28.
    pub open spec fn wf(self) -> bool {
        &&& -MAX_MANTISSA <= self.mantissa <= MAX_MANTISSA
        &&& self.scale <= MAX_SCALE
    }

    /// The value in units of 10^-28. Every well-formed decimal is a whole
    /// number of such units, so two decimals are the same number exactly when
    /// their units agree.
    pub open spec fn units(self) -> int {
        self.mantissa * pow10((MAX_SCALE - self.scale) as nat)
    }

    /// The decimal `mantissa / 10^scale`, if it can be represented.
    pub fn new(mantissa: i128, scale: u32) -> (r: Option<Decimal>)
        ensures
            r is Some <==> (Decimal { mantissa, scale }).wf(),
            r matches Some(d) ==> d == (Decimal { mantissa, scale }),
    {
        if scale <= MAX_SCALE && -MAX_MANTISSA <= mantissa && mantissa <= MAX_MANTISSA {
            Some(Decimal { mantissa, scale })
        } else {
            None
        }
    }

    /// The whole number `n`.
    pub fn from_int(n: i64) -> (r: Decimal)
        ensures
            r == (Decimal { mantissa: n as i128, scale: 0 }),
            r.wf(),
            r.units() == n * pow10(28),
    {
        Decimal { mantissa: n as i128, scale: 0 }
    }
}

/// Every power of ten is at least one.
pub proof fn lemma_pow10_positive(n: nat)
    ensures
        pow10(n) >= 1,
    decreases n,
{
    if n > 0 {
        lemma_pow10_positive((n - 1) as nat);
    }
}

/// Powers of ten multiply by adding exponents.
pub proof fn lemma_pow10_adds(a: nat, b: nat)
    ensures
        pow10(a + b) == pow10(a) * pow10(b),
    decreases a,
{
    if a == 0 {
        assert(pow10(0) == 1);
        assert(pow10(a + b) == 1 * pow10(b));
    } else {
        lemma_pow10_adds((a - 1) as nat, b);
        let x = pow10((a - 1) as nat);
        let y = pow10(b);
        assert(pow10(a + b) == 10 * pow10((a + b - 1) as nat));
        assert((a + b - 1) as nat == (a - 1) as nat + b);
        assert(10 * (x * y) == (10 * x) * y) by (nonlinear_arith);
    }
}

/// A larger exponent gives a larger power of ten.
pub proof fn lemma_pow10_increases(a: nat, b: nat)
    requires
        a <= b,
    ensures
        pow10(a) <= pow10(b),
        a < b ==> 10 * pow10(a) <= pow10(b),
    decreases b,
{
    lemma_pow10_positive(a);
    if a < b {
        lemma_pow10_increases(a, (b - 1) as nat);
    }
}

/// The units of a decimal have the sign of its mantissa and are no smaller
/// in magnitude.
pub proof fn lemma_units_sign(d: Decimal)
    requires
        d.wf(),
    ensures
        d.mantissa > 0 <==> d.units() > 0,
        d.mantissa == 0 <==> d.units() == 0,
        d.mantissa > 0 ==> d.units() >= d.mantissa,
{
    let p = pow10((MAX_SCALE - d.scale) as nat);
    let m = d.mantissa as int;
    lemma_pow10_positive((MAX_SCALE - d.scale) as nat);
    assert(m > 0 ==> m * p >= m) by (nonlinear_arith)
        requires
            p >= 1,
    ;
    assert(m < 0 ==> m * p < 0) by (nonlinear_arith)
        requires
            p >= 1,
    ;
    assert(m == 0 ==> m * p == 0) by (nonlinear_arith);
}

/// An exact product is a decimal, and its value is the product of the values.
pub proof fn lemma_exact_product_units(a: Decimal, b: Decimal)
    requires
        a.wf(),
        b.wf(),
        product_is_exact(a, b),
    ensures
        spec_exact_product(a, b).wf(),
        spec_exact_product(a, b).units() * pow10(28) == a.units() * b.units(),
{
    let p = spec_exact_product(a, b);
    let am = a.mantissa as int;
    let bm = b.mantissa as int;
    if am == 0 || bm == 0 {
        assert(a.units() * b.units() == 0) by (nonlinear_arith)
            requires
                a.units() == 0 || b.units() == 0,
        ;
    } else {
        let ea = pow10((MAX_SCALE - a.scale) as nat);
        let eb = pow10((MAX_SCALE - b.scale) as nat);
        let ep = pow10((MAX_SCALE - a.scale - b.scale) as nat);
        let sa = pow10(a.scale as nat);
        let sb = pow10(b.scale as nat);
        // 10^28 = 10^(28 - sa - sb) * 10^sa * 10^sb, and so on
        lemma_pow10_adds((MAX_SCALE - a.scale - b.scale) as nat, b.scale as nat);
        lemma_pow10_adds((MAX_SCALE - a.scale) as nat, a.scale as nat);
        lemma_pow10_adds((MAX_SCALE - b.scale - a.scale) as nat, a.scale as nat);
        assert(ea == ep * sb);
        assert(pow10(28) == ea * sa);
        assert(eb == ep * sa);
        assert(((am * bm) * ep) * (ea * sa) == (am * (ep * sb)) * (bm * (ep * sa)))
            by (nonlinear_arith)
            requires
                ea == ep * sb,
        ;
    }
}

/// An exact quotient is a decimal, and its value times the divisor's is the
/// dividend's value.
pub proof fn lemma_exact_quotient_units(a: Decimal, b: Decimal)
    requires
        a.wf(),
        b.wf(),
        quotient_is_exact(a, b),
    ensures
        spec_exact_quotient(a, b).wf(),
        spec_exact_quotient(a, b).units() * b.units() == a.units() * pow10(28),
{
    let q = spec_exact_quotient(a, b);
    let am = a.mantissa as int;
    let bm = b.mantissa as int;
    if am == 0 {
        assert(a.units() == 0);
        assert(0 * b.units() == 0);
        assert(0 * pow10(28) == 0);
    } else {
        let qm = am / bm;
        vstd::arithmetic::div_mod::lemma_fundamental_div_mod(am, bm);
        assert(am == bm * qm);
        assert(-MAX_MANTISSA <= qm <= MAX_MANTISSA) by (nonlinear_arith)
            requires
                am == bm * qm,
                bm != 0,
                -MAX_MANTISSA <= am <= MAX_MANTISSA,
        ;
        let eq = pow10((MAX_SCALE - (a.scale - b.scale)) as nat);
        let eb = pow10((MAX_SCALE - b.scale) as nat);
        let ea = pow10((MAX_SCALE - a.scale) as nat);
        let sb = pow10(b.scale as nat);
        // 10^(28 - sa + sb) = 10^(28 - sa) * 10^sb and 10^28 = 10^(28 - sb) * 10^sb
        lemma_pow10_adds((MAX_SCALE - a.scale) as nat, b.scale as nat);
        lemma_pow10_adds((MAX_SCALE - b.scale) as nat, b.scale as nat);
        assert(eq == ea * sb);
        assert(pow10(28) == eb * sb);
        assert((qm * (ea * sb)) * (bm * eb) == ((bm * qm) * ea) * (eb * sb)) by (nonlinear_arith);
    }
}

/// The value of 10^28 and of 10^27.
pub proof fn lemma_pow10_28()
    ensures
        pow10(27) == 1_000_000_000_000_000_000_000_000_000,
        pow10(28) == 10_000_000_000_000_000_000_000_000_000,
{
    reveal_with_fuel(pow10, 30);
}

/// The nearest whole multiple of `p` to `m`, as a count of multiples; a tie
/// goes to the even count. Negative numbers round as their magnitudes do.
pub open spec fn round_half_even(m: int, p: int) -> int {
    let a = if m < 0 { -m } else { m };
    let q = a / p;
    let r = a % p;
    let up = 2 * r > p || (2 * r == p && q % 2 == 1);
    let mag = if up { q + 1 } else { q };
    if m < 0 { -mag } else { mag }
}

/// The decimal rounded to `dp` fractional digits, ties to even: unchanged if
/// it has no more digits than that, else the rounded mantissa at scale `dp`.
pub open spec fn spec_round_dp(d: Decimal, dp: u32) -> Decimal {
    if d.scale <= dp {
        d
    } else {
        Decimal {
            mantissa: round_half_even(d.mantissa as int, pow10((d.scale - dp) as nat)) as i128,
            scale: dp,
        }
    }
}

/// The product of two decimals has at most 28 digits and a mantissa within
/// 96 bits, so no rounding is needed to represent it.
pub open spec fn product_is_exact(a: Decimal, b: Decimal) -> bool {
    &&& a.scale + b.scale <= MAX_SCALE
    &&& -MAX_MANTISSA <= a.mantissa * b.mantissa <= MAX_MANTISSA
}

/// The product of two decimals where it needs no rounding: the product of
/// the mantissas at the sum of the scales, and plain zero if a factor is zero.
pub open spec fn spec_exact_product(a: Decimal, b: Decimal) -> Decimal {
    if a.mantissa == 0 || b.mantissa == 0 {
        Decimal { mantissa: 0, scale: 0 }
    } else {
        Decimal {
            mantissa: (a.mantissa * b.mantissa) as i128,
            scale: (a.scale + b.scale) as u32,
        }
    }
}

/// The divisor's mantissa fits 32 bits and divides the dividend's mantissa
/// without remainder, and the dividend has at least the divisor's scale: the
/// quotient is found in one step of whole-number division.
pub open spec fn quotient_is_exact(a: Decimal, b: Decimal) -> bool {
    &&& b.mantissa != 0
    &&& -0x1_0000_0000 < b.mantissa < 0x1_0000_0000
    &&& a.scale >= b.scale
    &&& a.mantissa % b.mantissa == 0
}

/// The quotient of two decimals where `quotient_is_exact`: the quotient of
/// the mantissas at the difference of the scales, and plain zero for a zero
/// dividend.
pub open spec fn spec_exact_quotient(a: Decimal, b: Decimal) -> Decimal {
    if a.mantissa == 0 {
        Decimal { mantissa: 0, scale: 0 }
    } else {
        Decimal {
            mantissa: (a.mantissa / b.mantissa) as i128,
            scale: (a.scale - b.scale) as u32,
        }
    }
}

/// The mantissa of `d` written at scale `s`, which is at least its own.
pub open spec fn aligned(d: Decimal, s: u32) -> int {
    d.mantissa * pow10((s - d.scale) as nat)
}

/// The larger of two scales.
pub open spec fn wider_scale(a: Decimal, b: Decimal) -> u32 {
    if a.scale >= b.scale { a.scale } else { b.scale }
}

/// Both decimals, written at the larger of their scales, and their sum there
/// have mantissas within 96 bits.
pub open spec fn sum_is_exact(a: Decimal, b: Decimal) -> bool {
    let s = wider_scale(a, b);
    &&& -MAX_MANTISSA <= aligned(a, s) <= MAX_MANTISSA
    &&& -MAX_MANTISSA <= aligned(b, s) <= MAX_MANTISSA
    &&& -MAX_MANTISSA <= aligned(a, s) + aligned(b, s) <= MAX_MANTISSA
}

/// As `sum_is_exact`, for the difference.
pub open spec fn difference_is_exact(a: Decimal, b: Decimal) -> bool {
    let s = wider_scale(a, b);
    &&& -MAX_MANTISSA <= aligned(a, s) <= MAX_MANTISSA
    &&& -MAX_MANTISSA <= aligned(b, s) <= MAX_MANTISSA
    &&& -MAX_MANTISSA <= aligned(a, s) - aligned(b, s) <= MAX_MANTISSA
}

/// The absolute value of a decimal, in units of 10^-28.
pub open spec fn magnitude(d: Decimal) -> int {
    if d.units() < 0 {
        -d.units()
    } else {
        d.units()
    }
}

/// The number 10^27 in units of 10^-28. It lies well below the largest
/// decimal, which is 2^96 - 1, a little under 8 * 10^28: a result of no more
/// than this magnitude is never an overflow.
pub open spec fn safe_magnitude() -> int {
    pow10(55)
}

/// The two operands together stay within the safe magnitude, so that neither
/// their sum nor their difference can overflow.
pub open spec fn sum_in_range(a: Decimal, b: Decimal) -> bool {
    magnitude(a) + magnitude(b) <= safe_magnitude()
}

/// The product of the two values stays within the safe magnitude.
pub open spec fn product_in_range(a: Decimal, b: Decimal) -> bool {
    magnitude(a) * magnitude(b) <= safe_magnitude() * pow10(28)
}

/// The dividend stays within the safe magnitude and the divisor is one or
/// more in magnitude, so that the quotient is no larger than the dividend.
pub open spec fn quotient_in_range(a: Decimal, b: Decimal) -> bool {
    &&& magnitude(a) <= safe_magnitude()
    &&& magnitude(b) >= pow10(28)
}

/// What `rust_decimal` returns for `a.checked_add(b)`: none on overflow.
pub uninterp spec fn decimal_sum(a: Decimal, b: Decimal) -> Option<Decimal>;

/// What `rust_decimal` returns for `a.checked_sub(b)`: none on overflow.
pub uninterp spec fn decimal_difference(a: Decimal, b: Decimal) -> Option<Decimal>;

/// What `rust_decimal` returns for `a.checked_mul(b)`: none on overflow.
pub uninterp spec fn decimal_product(a: Decimal, b: Decimal) -> Option<Decimal>;

/// What `rust_decimal` returns for `a.checked_div(b)`: none on overflow and
/// for a zero divisor.
pub uninterp spec fn decimal_quotient(a: Decimal, b: Decimal) -> Option<Decimal>;

/// The text that `rust_decimal` prints for a decimal.
pub uninterp spec fn decimal_text(d: Decimal) -> Seq<char>;

/// `rust_decimal`'s ordering of two decimals (`<` on `Decimal`). It orders by
/// numeric value whatever the two scales are.
#[verifier::external_body]
pub(crate) fn less_than(a: Decimal, b: Decimal) -> (r: bool)
    requires
        a.wf(),
        b.wf(),
    ensures
        r == (a.units() < b.units()),
{
    let x = rust_decimal::Decimal::from_i128_with_scale(a.mantissa, a.scale);
    let y = rust_decimal::Decimal::from_i128_with_scale(b.mantissa, b.scale);
    x < y
}

/// `rust_decimal`'s `Decimal::checked_add`. The result is a function of the
/// operands. The crate documents that it is none only on overflow, and it
/// reports overflow only where the sum cannot be held in 96 bits even with no
/// fractional digit left; operands within the safe magnitude are far from
/// that. Where both operands and their sum fit 96 bits at the larger of the
/// two scales, the crate adds the aligned mantissas without rounding, and the
/// result is the exact sum.
#[verifier::external_body]
pub(crate) fn checked_add(a: Decimal, b: Decimal) -> (r: Option<Decimal>)
    requires
        a.wf(),
        b.wf(),
    ensures
        r == decimal_sum(a, b),
        r matches Some(s) ==> s.wf(),
        sum_in_range(a, b) ==> r is Some,
        sum_is_exact(a, b) ==> r is Some,
        r matches Some(s) ==> (sum_is_exact(a, b) ==> s.units() == a.units() + b.units()),
{
    let x = rust_decimal::Decimal::from_i128_with_scale(a.mantissa, a.scale);
    let y = rust_decimal::Decimal::from_i128_with_scale(b.mantissa, b.scale);
    match x.checked_add(y) {
        Some(s) => Some(Decimal { mantissa: s.mantissa(), scale: s.scale() }),
        None => None,
    }
}

/// `rust_decimal`'s `Decimal::checked_sub`. The result is a function of the
/// operands. As for the sum, it is none only on overflow, which operands
/// within the safe magnitude are far from. Where both operands and their
/// difference fit 96 bits at the larger of the two scales, the crate
/// subtracts the aligned mantissas without rounding, and the result is the
/// exact difference.
#[verifier::external_body]
pub(crate) fn checked_sub(a: Decimal, b: Decimal) -> (r: Option<Decimal>)
    requires
        a.wf(),
        b.wf(),
    ensures
        r == decimal_difference(a, b),
        r matches Some(s) ==> s.wf(),
        sum_in_range(a, b) ==> r is Some,
        difference_is_exact(a, b) ==> r is Some,
        r matches Some(s) ==> (difference_is_exact(a, b) ==> s.units() == a.units() - b.units()),
{
    let x = rust_decimal::Decimal::from_i128_with_scale(a.mantissa, a.scale);
    let y = rust_decimal::Decimal::from_i128_with_scale(b.mantissa, b.scale);
    match x.checked_sub(y) {
        Some(s) => Some(Decimal { mantissa: s.mantissa(), scale: s.scale() }),
        None => None,
    }
}

/// `rust_decimal`'s `Decimal::checked_mul`. The result is a function of the
/// operands. A zero factor gives the crate's plain zero. Otherwise the crate
/// forms the full product of the mantissas and rescales it only if it exceeds
/// 96 bits or the scales add up to more than 28; where neither is so, the
/// result is that product at the sum of the scales. Rescaling drops
/// fractional digits and rounds once, so the result is within one of the
/// product, and it reports overflow only where the product cannot be held in
/// 96 bits even with no fractional digit left; a product within the safe
/// magnitude is far from that.
#[verifier::external_body]
pub(crate) fn checked_mul(a: Decimal, b: Decimal) -> (r: Option<Decimal>)
    requires
        a.wf(),
        b.wf(),
    ensures
        r == decimal_product(a, b),
        r matches Some(p) ==> p.wf(),
        product_in_range(a, b) ==> r is Some,
        r matches Some(p) ==> (product_in_range(a, b) ==> magnitude(p) * pow10(28) <= magnitude(a)
            * magnitude(b) + pow10(28) * pow10(28)),
        product_is_exact(a, b) ==> r == Some(spec_exact_product(a, b)),
{
    let x = rust_decimal::Decimal::from_i128_with_scale(a.mantissa, a.scale);
    let y = rust_decimal::Decimal::from_i128_with_scale(b.mantissa, b.scale);
    match x.checked_mul(y) {
        Some(p) => Some(Decimal { mantissa: p.mantissa(), scale: p.scale() }),
        None => None,
    }
}

/// `rust_decimal`'s `Decimal::checked_div`. The result is a function of the
/// operands. A zero dividend over a divisor that is not zero gives the
/// crate's plain zero. For a divisor whose mantissa fits 32 bits the crate
/// first divides the mantissas as whole numbers; if nothing remains and the
/// dividend has at least the divisor's scale, that quotient at the difference
/// of the scales is the result. Any other quotient is carried to as many
/// fractional digits as fit and rounded once, so the result is within one of
/// the quotient, which for a divisor of one or more is no larger than the
/// dividend. Apart from a zero divisor the crate reports overflow only where
/// the quotient cannot be held in 96 bits even with no fractional digit left;
/// a quotient within the safe magnitude is far from that.
#[verifier::external_body]
pub(crate) fn checked_div(a: Decimal, b: Decimal) -> (r: Option<Decimal>)
    requires
        a.wf(),
        b.wf(),
    ensures
        r == decimal_quotient(a, b),
        r matches Some(q) ==> q.wf(),
        quotient_in_range(a, b) ==> r is Some,
        r matches Some(q) ==> (quotient_in_range(a, b) ==> magnitude(q) <= magnitude(a) + pow10(28)),
        quotient_is_exact(a, b) ==> r == Some(spec_exact_quotient(a, b)),
{
    let x = rust_decimal::Decimal::from_i128_with_scale(a.mantissa, a.scale);
    let y = rust_decimal::Decimal::from_i128_with_scale(b.mantissa, b.scale);
    match x.checked_div(y) {
        Some(q) => Some(Decimal { mantissa: q.mantissa(), scale: q.scale() }),
        None => None,
    }
}

/// `rust_decimal`'s `Decimal::round_dp`: a decimal with no more than `dp`
/// fractional digits comes back as it is; any other is rounded to `dp`
/// digits, ties to the even neighbour, and has scale `dp`.
#[verifier::external_body]
pub(crate) fn round_dp(d: Decimal, dp: u32) -> (r: Decimal)
    requires
        d.wf(),
    ensures
        r == spec_round_dp(d, dp),
{
    let x = rust_decimal::Decimal::from_i128_with_scale(d.mantissa, d.scale);
    let y = x.round_dp(dp);
    Decimal { mantissa: y.mantissa(), scale: y.scale() }
}

/// `rust_decimal`'s `Display` for `Decimal`, through `to_string`. The text is
/// a function of the decimal.
#[verifier::external_body]
pub(crate) fn to_text(d: Decimal) -> (r: String)
    requires
        d.wf(),
    ensures
        r@ == decimal_text(d),
{
    rust_decimal::Decimal::from_i128_with_scale(d.mantissa, d.scale).to_string()
}

} // verus!
