//! Fixed-point decimal amounts. A `Dec` holds the mantissa and scale of a
//! `rust_decimal::Decimal`; sums, differences, products, quotients, rounding
//! and ordering are computed by `rust_decimal` itself.

use vstd::prelude::*;
use rust_decimal::Decimal;

verus! {

/// Largest mantissa magnitude a decimal can hold (96 bits).
pub const MAX_MANTISSA: i128 = 0xFFFF_FFFF_FFFF_FFFF_FFFF_FFFF;

/// Largest scale (number of fractional digits) a decimal can hold.
pub const MAX_SCALE: u32 = 28;

/// 10 to the power `n`.
pub open spec fn pow10(n: nat) -> int
    decreases n,
{
    if n == 0 { 1 } else { 10 * pow10((n - 1) as nat) }
}

/// A decimal number `mantissa * 10^(-scale)`.
#[derive(Clone, Copy, Debug, PartialEq, Eq)]
pub struct Dec {
    pub mantissa: i128,
    pub scale: u32,
}

impl Dec {
    /// The representation limits of `rust_decimal::Decimal`.
    pub open spec fn wf(self) -> bool {
        &&& self.scale <= MAX_SCALE
        &&& -MAX_MANTISSA <= self.mantissa <= MAX_MANTISSA
    }

    /// The value in units of `10^-28`, so that values of any scale compare
    /// and add as integers.
    pub open spec fn units(self) -> int {
        self.mantissa * pow10((MAX_SCALE - self.scale) as nat)
    }
}

/// Whether a value given in units of `10^-28` can be held with `scale`
/// fractional digits without exceeding the mantissa limit.
pub open spec fn fits_at(units: int, scale: nat) -> bool {
    -MAX_MANTISSA * pow10((MAX_SCALE - scale) as nat) <= units
        <= MAX_MANTISSA * pow10((MAX_SCALE - scale) as nat)
}

/// The larger of two scales.
pub open spec fn max_scale(a: Dec, b: Dec) -> nat {
    if a.scale >= b.scale { a.scale as nat } else { b.scale as nat }
}

/// The mantissa of `d` brought to the larger scale `s`.
pub open spec fn aligned(d: Dec, s: nat) -> int {
    d.mantissa * pow10((s - d.scale) as nat)
}

/// The sum `a + b` needs no rounding: both operands and the exact sum fit at
/// the larger of the two scales.
pub open spec fn add_is_exact(a: Dec, b: Dec) -> bool {
    &&& fits_at(a.units(), max_scale(a, b))
    &&& fits_at(b.units(), max_scale(a, b))
    &&& fits_at(a.units() + b.units(), max_scale(a, b))
}

/// The difference `a - b` needs no rounding: both operands and the exact
/// difference fit at the larger of the two scales.
pub open spec fn sub_is_exact(a: Dec, b: Dec) -> bool {
    &&& fits_at(a.units(), max_scale(a, b))
    &&& fits_at(b.units(), max_scale(a, b))
    &&& fits_at(a.units() - b.units(), max_scale(a, b))
}

/// The product `a * b` needs no rounding: the scales add up to at most 28
/// and the product of the mantissas fits.
pub open spec fn mul_is_exact(a: Dec, b: Dec) -> bool {
    &&& a.scale + b.scale <= MAX_SCALE
    &&& -MAX_MANTISSA <= a.mantissa * b.mantissa <= MAX_MANTISSA
}

/// The exact sum as `rust_decimal` represents it: a zero operand gives the
/// other operand, otherwise the sum is taken at the larger scale.
pub open spec fn exact_sum(a: Dec, b: Dec) -> Dec {
    if a.mantissa == 0 {
        b
    } else if b.mantissa == 0 {
        a
    } else {
        Dec {
            mantissa: (aligned(a, max_scale(a, b)) + aligned(b, max_scale(a, b))) as i128,
            scale: max_scale(a, b) as u32,
        }
    }
}

/// The exact difference as `rust_decimal` represents it: zero minus `b` is
/// `b` negated, `a` minus zero is `a`, otherwise the difference is taken at
/// the larger scale.
pub open spec fn exact_difference(a: Dec, b: Dec) -> Dec {
    if a.mantissa == 0 {
        Dec { mantissa: (-b.mantissa) as i128, scale: b.scale }
    } else if b.mantissa == 0 {
        a
    } else {
        Dec {
            mantissa: (aligned(a, max_scale(a, b)) - aligned(b, max_scale(a, b))) as i128,
            scale: max_scale(a, b) as u32,
        }
    }
}

/// The exact product as `rust_decimal` represents it: zero has scale 0,
/// otherwise the scales add up.
pub open spec fn exact_product(a: Dec, b: Dec) -> Dec {
    if a.mantissa * b.mantissa == 0 {
        Dec { mantissa: 0, scale: 0 }
    } else {
        Dec { mantissa: (a.mantissa * b.mantissa) as i128, scale: (a.scale + b.scale) as u32 }
    }
}

/// What `rust_decimal` computes for `a + b` (mantissa, scale), `None` on
/// overflow.
pub uninterp spec fn decimal_add(am: i128, a_scale: u32, bm: i128, b_scale: u32) -> Option<(i128, u32)>;

/// What `rust_decimal` computes for `a - b` (mantissa, scale), `None` on
/// overflow.
pub uninterp spec fn decimal_sub(am: i128, a_scale: u32, bm: i128, b_scale: u32) -> Option<(i128, u32)>;

/// What `rust_decimal` computes for `a * b` (mantissa, scale), `None` on
/// overflow.
pub uninterp spec fn decimal_mul(am: i128, a_scale: u32, bm: i128, b_scale: u32) -> Option<(i128, u32)>;

/// What `rust_decimal` computes for `a / b` (mantissa, scale), `None` on
/// overflow or division by zero.
pub uninterp spec fn decimal_div(am: i128, a_scale: u32, bm: i128, b_scale: u32) -> Option<(i128, u32)>;

/// What `rust_decimal` computes for `a` rounded to `dp` fractional digits
/// (banker's rounding), as (mantissa, scale).
pub uninterp spec fn decimal_round_dp(am: i128, a_scale: u32, dp: u32) -> (i128, u32);

/// The decimal result of a named `rust_decimal` computation.
pub open spec fn dec_of(r: Option<(i128, u32)>) -> Option<Dec> {
    match r {
        Some((m, s)) => Some(Dec { mantissa: m, scale: s }),
        None => None,
    }
}

/// `a + b` as `rust_decimal` computes it.
pub open spec fn spec_add(a: Dec, b: Dec) -> Option<Dec> {
    if add_is_exact(a, b) {
        Some(exact_sum(a, b))
    } else {
        dec_of(decimal_add(a.mantissa, a.scale, b.mantissa, b.scale))
    }
}

/// `a - b` as `rust_decimal` computes it.
pub open spec fn spec_sub(a: Dec, b: Dec) -> Option<Dec> {
    if sub_is_exact(a, b) {
        Some(exact_difference(a, b))
    } else {
        dec_of(decimal_sub(a.mantissa, a.scale, b.mantissa, b.scale))
    }
}

/// `a * b` as `rust_decimal` computes it.
pub open spec fn spec_mul(a: Dec, b: Dec) -> Option<Dec> {
    if a.mantissa == 0 || b.mantissa == 0 {
        Some(Dec { mantissa: 0, scale: 0 })
    } else if mul_is_exact(a, b) {
        Some(exact_product(a, b))
    } else {
        dec_of(decimal_mul(a.mantissa, a.scale, b.mantissa, b.scale))
    }
}

/// `a / b` as `rust_decimal` computes it.
pub open spec fn spec_div(a: Dec, b: Dec) -> Option<Dec> {
    if b.mantissa == 0 {
        None
    } else if a.mantissa == 0 {
        Some(Dec { mantissa: 0, scale: 0 })
    } else {
        dec_of(decimal_div(a.mantissa, a.scale, b.mantissa, b.scale))
    }
}

/// `a` rounded to `dp` fractional digits as `rust_decimal` computes it.
pub open spec fn spec_round_dp(a: Dec, dp: u32) -> Dec {
    if a.scale <= dp {
        a
    } else {
        Dec { mantissa: decimal_round_dp(a.mantissa, a.scale, dp).0, scale: decimal_round_dp(a.mantissa, a.scale, dp).1 }
    }
}

/// The negation: the same scale, the mantissa with the opposite sign.
pub open spec fn neg_of(d: Dec) -> Dec {
    Dec { mantissa: (-d.mantissa) as i128, scale: d.scale }
}

impl Dec {
    /// Zero, with scale 0 (`Decimal::ZERO`).
    pub fn zero() -> (d: Dec)
        ensures
            d.wf(),
            d == (Dec { mantissa: 0, scale: 0 }),
            d.units() == 0,
    {
        Dec { mantissa: 0, scale: 0 }
    }

    /// An integer as a decimal of scale 0 (`Decimal::from`).
    pub fn from_int(n: i64) -> (d: Dec)
        ensures
            d.wf(),
            d == (Dec { mantissa: n as i128, scale: 0 }),
    {
        Dec { mantissa: n as i128, scale: 0 }
    }

    /// The value is zero.
    pub fn is_zero(&self) -> (b: bool)
        ensures
            b == (self.mantissa == 0),
            b == (self.units() == 0),
    {
        proof { lemma_units_sign(*self); }
        self.mantissa == 0
    }

    /// The value is greater than zero.
    pub fn is_positive(&self) -> (b: bool)
        ensures
            b == (self.mantissa > 0),
            b == (self.units() > 0),
    {
        proof { lemma_units_sign(*self); }
        self.mantissa > 0
    }

    /// The value is less than zero.
    pub fn is_negative(&self) -> (b: bool)
        ensures
            b == (self.mantissa < 0),
            b == (self.units() < 0),
    {
        proof { lemma_units_sign(*self); }
        self.mantissa < 0
    }

    /// The negation (what `Neg` for `Decimal` does: the sign flips, the
    /// digits and the scale stay).
    pub fn neg(&self) -> (d: Dec)
        requires
            self.wf(),
        ensures
            d.wf(),
            d == neg_of(*self),
            d.units() == -self.units(),
    {
        proof { lemma_neg_units(*self); }
        Dec { mantissa: -self.mantissa, scale: self.scale }
    }
}

/// Powers of ten are positive.
pub proof fn lemma_pow10_pos(n: nat)
    ensures
        pow10(n) > 0,
    decreases n,
{
    if n > 0 {
        lemma_pow10_pos((n - 1) as nat);
    }
}

/// `10^(a + b) = 10^a * 10^b`.
pub proof fn lemma_pow10_add(a: nat, b: nat)
    ensures
        pow10(a + b) == pow10(a) * pow10(b),
    decreases a,
{
    if a > 0 {
        lemma_pow10_add((a - 1) as nat, b);
        assert(pow10(a + b) == 10 * pow10((a - 1 + b) as nat));
        assert(10 * (pow10((a - 1) as nat) * pow10(b)) == (10 * pow10((a - 1) as nat)) * pow10(b))
            by (nonlinear_arith);
    }
}

/// Powers of ten grow with the exponent.
pub proof fn lemma_pow10_mono(a: nat, b: nat)
    requires
        a <= b,
    ensures
        pow10(a) <= pow10(b),
    decreases b,
{
    if a < b {
        lemma_pow10_mono(a, (b - 1) as nat);
        lemma_pow10_pos((b - 1) as nat);
    }
}

/// The value has the sign of the mantissa.
pub proof fn lemma_units_sign(d: Dec)
    ensures
        d.mantissa == 0 <==> d.units() == 0,
        d.mantissa > 0 <==> d.units() > 0,
        d.mantissa < 0 <==> d.units() < 0,
{
    let p = pow10((MAX_SCALE - d.scale) as nat);
    lemma_pow10_pos((MAX_SCALE - d.scale) as nat);
    let m = d.mantissa as int;
    assert((m > 0 ==> m * p > 0) && (m < 0 ==> m * p < 0) && (m == 0 ==> m * p == 0))
        by (nonlinear_arith)
        requires
            p > 0,
    ;
}

/// Negation negates the value.
pub proof fn lemma_neg_units(d: Dec)
    requires
        d.wf(),
    ensures
        neg_of(d).wf(),
        neg_of(d).units() == -d.units(),
{
    let p = pow10((MAX_SCALE - d.scale) as nat);
    assert((-d.mantissa) * p == -(d.mantissa * p)) by (nonlinear_arith);
}

/// A valid decimal fits at its own scale.
pub proof fn lemma_fits_own(d: Dec)
    requires
        d.wf(),
    ensures
        fits_at(d.units(), d.scale as nat),
{
    let p = pow10((MAX_SCALE - d.scale) as nat);
    lemma_pow10_pos((MAX_SCALE - d.scale) as nat);
    let m = d.mantissa as int;
    assert(-MAX_MANTISSA * p <= m * p <= MAX_MANTISSA * p) by (nonlinear_arith)
        requires
            p > 0,
            -MAX_MANTISSA <= m <= MAX_MANTISSA,
    ;
}

/// Fitting at a scale implies fitting at any smaller scale.
pub proof fn lemma_fits_smaller_scale(u: int, s: nat, t: nat)
    requires
        fits_at(u, s),
        t <= s,
        s <= MAX_SCALE,
    ensures
        fits_at(u, t),
{
    lemma_pow10_mono((MAX_SCALE - s) as nat, (MAX_SCALE - t) as nat);
    let ps = pow10((MAX_SCALE - s) as nat);
    let pt = pow10((MAX_SCALE - t) as nat);
    assert(MAX_MANTISSA * ps <= MAX_MANTISSA * pt) by (nonlinear_arith)
        requires
            ps <= pt,
    ;
}

/// Bringing a value to a larger scale keeps its units.
pub proof fn lemma_aligned_units(d: Dec, s: nat)
    requires
        d.scale <= s <= MAX_SCALE,
    ensures
        aligned(d, s) * pow10((MAX_SCALE - s) as nat) == d.units(),
{
    lemma_pow10_add((s - d.scale) as nat, (MAX_SCALE - s) as nat);
    let a = pow10((s - d.scale) as nat);
    let b = pow10((MAX_SCALE - s) as nat);
    assert((d.mantissa * a) * b == d.mantissa * (a * b)) by (nonlinear_arith);
}

/// A value of units `u` that fits at scale `s` has a mantissa within bounds
/// there.
proof fn lemma_fits_mantissa(m: int, s: nat)
    requires
        s <= MAX_SCALE,
        fits_at(m * pow10((MAX_SCALE - s) as nat), s),
    ensures
        -MAX_MANTISSA <= m <= MAX_MANTISSA,
{
    let p = pow10((MAX_SCALE - s) as nat);
    lemma_pow10_pos((MAX_SCALE - s) as nat);
    assert(-MAX_MANTISSA <= m <= MAX_MANTISSA) by (nonlinear_arith)
        requires
            p > 0,
            -MAX_MANTISSA * p <= m * p <= MAX_MANTISSA * p,
    ;
}

/// An exact sum is a valid decimal of the summed value, at no more than the
/// larger scale.
pub proof fn lemma_exact_sum(a: Dec, b: Dec)
    requires
        a.wf(),
        b.wf(),
        add_is_exact(a, b),
    ensures
        exact_sum(a, b).wf(),
        exact_sum(a, b).units() == a.units() + b.units(),
        exact_sum(a, b).scale <= max_scale(a, b),
{
    lemma_units_sign(a);
    lemma_units_sign(b);
    if a.mantissa != 0 && b.mantissa != 0 {
        let s = max_scale(a, b);
        lemma_aligned_units(a, s);
        lemma_aligned_units(b, s);
        let x = aligned(a, s);
        let y = aligned(b, s);
        let p = pow10((MAX_SCALE - s) as nat);
        assert((x + y) * p == x * p + y * p) by (nonlinear_arith);
        lemma_fits_mantissa(x + y, s);
    }
}

/// An exact difference is a valid decimal of the difference of the values,
/// at no more than the larger scale.
pub proof fn lemma_exact_difference(a: Dec, b: Dec)
    requires
        a.wf(),
        b.wf(),
        sub_is_exact(a, b),
    ensures
        exact_difference(a, b).wf(),
        exact_difference(a, b).units() == a.units() - b.units(),
        exact_difference(a, b).scale <= max_scale(a, b),
{
    lemma_units_sign(a);
    lemma_units_sign(b);
    if a.mantissa == 0 {
        lemma_neg_units(b);
    } else if b.mantissa != 0 {
        let s = max_scale(a, b);
        lemma_aligned_units(a, s);
        lemma_aligned_units(b, s);
        let x = aligned(a, s);
        let y = aligned(b, s);
        let p = pow10((MAX_SCALE - s) as nat);
        assert((x - y) * p == x * p - y * p) by (nonlinear_arith);
        lemma_fits_mantissa(x - y, s);
    }
}

/// Calls `Decimal::checked_add`. Claimed: the result is the named
/// `decimal_add` of the operands and is a valid decimal; when both operands
/// and the exact sum fit at the larger scale, the result is the exact sum:
/// the other operand when one is zero, else the sum at the larger scale. The
/// source (`ops/add.rs`) returns the other operand for a zero operand,
/// aligns the scales and adds in 96 bits, and rounds only when an operand or
/// the sum does not fit.
#[verifier::external_body]
pub(crate) fn dec_add(a: Dec, b: Dec) -> (r: Option<Dec>)
    requires
        a.wf(),
        b.wf(),
    ensures
        r == dec_of(decimal_add(a.mantissa, a.scale, b.mantissa, b.scale)),
        r matches Some(d) ==> d.wf(),
        add_is_exact(a, b) ==> r == Some(exact_sum(a, b)),
{
    let x = Decimal::from_i128_with_scale(a.mantissa, a.scale);
    let y = Decimal::from_i128_with_scale(b.mantissa, b.scale);
    match x.checked_add(y) {
        Some(z) => Some(Dec { mantissa: z.mantissa(), scale: z.scale() }),
        None => None,
    }
}

/// Calls `Decimal::checked_sub`. Claimed: the result is the named
/// `decimal_sub` of the operands and is a valid decimal; when both operands
/// and the exact difference fit at the larger scale, the result is the exact
/// difference: the negated subtrahend when the minuend is zero, the minuend
/// when the subtrahend is zero, else the difference at the larger scale.
#[verifier::external_body]
pub(crate) fn dec_sub(a: Dec, b: Dec) -> (r: Option<Dec>)
    requires
        a.wf(),
        b.wf(),
    ensures
        r == dec_of(decimal_sub(a.mantissa, a.scale, b.mantissa, b.scale)),
        r matches Some(d) ==> d.wf(),
        sub_is_exact(a, b) ==> r == Some(exact_difference(a, b)),
{
    let x = Decimal::from_i128_with_scale(a.mantissa, a.scale);
    let y = Decimal::from_i128_with_scale(b.mantissa, b.scale);
    match x.checked_sub(y) {
        Some(z) => Some(Dec { mantissa: z.mantissa(), scale: z.scale() }),
        None => None,
    }
}

/// Calls `Decimal::checked_mul`. Claimed: the result is the named
/// `decimal_mul` of the operands and is a valid decimal; when the scales add
/// up to at most 28 and the product of the mantissas fits in 96 bits, the
/// result is that product at the summed scale, or zero at scale 0; a zero
/// operand gives zero at scale 0 whatever the scales. The source
/// (`ops/mul.rs`) returns `ZERO` for a zero operand and rescales only when
/// the product exceeds 96 bits or scale 28.
#[verifier::external_body]
pub(crate) fn dec_mul(a: Dec, b: Dec) -> (r: Option<Dec>)
    requires
        a.wf(),
        b.wf(),
    ensures
        r == dec_of(decimal_mul(a.mantissa, a.scale, b.mantissa, b.scale)),
        r matches Some(d) ==> d.wf(),
        mul_is_exact(a, b) ==> r == Some(exact_product(a, b)),
        a.mantissa == 0 || b.mantissa == 0 ==> r == Some(Dec { mantissa: 0, scale: 0 }),
{
    let x = Decimal::from_i128_with_scale(a.mantissa, a.scale);
    let y = Decimal::from_i128_with_scale(b.mantissa, b.scale);
    match x.checked_mul(y) {
        Some(z) => Some(Dec { mantissa: z.mantissa(), scale: z.scale() }),
        None => None,
    }
}

/// Calls `Decimal::checked_div`. Claimed: the result is the named
/// `decimal_div` of the operands and is a valid decimal, division by zero
/// gives `None`, and zero divided by a non-zero number is zero at scale 0
/// (`ops/div.rs` returns `Decimal::ZERO` for a zero dividend). How the
/// quotient is rounded is left to the name.
#[verifier::external_body]
pub(crate) fn dec_div(a: Dec, b: Dec) -> (r: Option<Dec>)
    requires
        a.wf(),
        b.wf(),
    ensures
        r == dec_of(decimal_div(a.mantissa, a.scale, b.mantissa, b.scale)),
        r matches Some(d) ==> d.wf(),
        b.mantissa == 0 ==> r is None,
        a.mantissa == 0 && b.mantissa != 0 ==> r == Some(Dec { mantissa: 0, scale: 0 }),
{
    let x = Decimal::from_i128_with_scale(a.mantissa, a.scale);
    let y = Decimal::from_i128_with_scale(b.mantissa, b.scale);
    match x.checked_div(y) {
        Some(z) => Some(Dec { mantissa: z.mantissa(), scale: z.scale() }),
        None => None,
    }
}

/// Calls `Decimal::round_dp`. Claimed: the result is the named
/// `decimal_round_dp` and is a valid decimal; a value that already has at
/// most `dp` fractional digits comes back unchanged (`round_dp_with_strategy`
/// returns early in that case).
#[verifier::external_body]
pub(crate) fn dec_round_dp(a: Dec, dp: u32) -> (r: Dec)
    requires
        a.wf(),
    ensures
        (r.mantissa, r.scale) == decimal_round_dp(a.mantissa, a.scale, dp),
        r.wf(),
        a.scale <= dp ==> r == a,
{
    let z = Decimal::from_i128_with_scale(a.mantissa, a.scale).round_dp(dp);
    Dec { mantissa: z.mantissa(), scale: z.scale() }
}

/// Calls `<` on two `Decimal`s. Claimed: the numeric order of the values.
#[verifier::external_body]
pub(crate) fn dec_lt(a: Dec, b: Dec) -> (r: bool)
    requires
        a.wf(),
        b.wf(),
    ensures
        r == (a.units() < b.units()),
{
    Decimal::from_i128_with_scale(a.mantissa, a.scale) < Decimal::from_i128_with_scale(b.mantissa, b.scale)
}

} // verus!
