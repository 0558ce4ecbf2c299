//! Facts of integer arithmetic that the proofs of this crate rest on.

use vstd::prelude::*;

verus! {

/// The product of two bounded integers is bounded by the product of the
/// bounds.
pub(crate) proof fn lemma_product_bound(a: int, b: int, a_max: int, b_max: int)
    by (nonlinear_arith)
    requires
        -a_max <= a <= a_max,
        -b_max <= b <= b_max,
    ensures
        -(a_max * b_max) <= a * b <= a_max * b_max,
{
}

/// The product of two integers that are not negative is not negative.
pub(crate) proof fn lemma_product_is_not_negative(a: int, b: int)
    by (nonlinear_arith)
    requires
        0 <= a,
        0 <= b,
    ensures
        0 <= a * b,
{
}

/// A share `part / whole` of an amount is not negative and not more than the
/// amount.
pub(crate) proof fn lemma_share_is_bounded(amount: int, part: int, whole: int)
    by (nonlinear_arith)
    requires
        0 <= amount,
        0 <= part <= whole,
        0 < whole,
    ensures
        0 <= amount * part / whole <= amount,
{
}

/// A product grows with its second factor.
pub(crate) proof fn lemma_product_grows(a: int, b: int, c: int)
    by (nonlinear_arith)
    requires
        0 <= a,
        b <= c,
    ensures
        a * b <= a * c,
{
}

/// If a product with a positive factor is positive, so is the other factor,
/// and the other way round.
pub(crate) proof fn lemma_product_is_positive(a: int, b: int)
    by (nonlinear_arith)
    requires
        0 < b,
    ensures
        0 < a <==> 0 < a * b,
{
}

/// A number divided by a larger one gives zero.
pub(crate) proof fn lemma_small_over_large(a: int, b: int)
    by (nonlinear_arith)
    requires
        0 <= a < b,
    ensures
        a / b == 0,
{
}

/// A multiple of a divisor, divided by it, gives the multiplier.
pub(crate) proof fn lemma_multiple_over_divisor(k: int, d: int)
    by (nonlinear_arith)
    requires
        0 < d,
    ensures
        k * d / d == k,
{
}

/// A quotient without remainder, multiplied by the divisor, gives the
/// dividend.
pub(crate) proof fn lemma_exact_quotient(a: int, d: int)
    by (nonlinear_arith)
    requires
        0 < d,
        a % d == 0,
    ensures
        a / d * d == a,
{
}

/// A quotient times its divisor does not exceed the dividend.
pub(crate) proof fn lemma_quotient_times_divisor(a: int, d: int)
    by (nonlinear_arith)
    requires
        0 <= a,
        0 < d,
    ensures
        0 <= (a / d) * d <= a,
{
}

/// What is at most `m * p` gives at most `m` when divided by `p`.
pub(crate) proof fn lemma_quotient_below(a: int, m: int, p: int)
    by (nonlinear_arith)
    requires
        0 <= a <= m * p,
        0 < p,
    ensures
        0 <= a / p <= m,
{
}

/// Dividing by twice the divisor gives at most half the quotient.
pub(crate) proof fn lemma_double_divisor(a: int, d: int)
    by (nonlinear_arith)
    requires
        0 <= a,
        0 < d,
    ensures
        0 <= 2 * (a / (2 * d)) <= a / d,
{
}

/// Dividing by half the divisor at most doubles the quotient and adds one.
pub(crate) proof fn lemma_half_divisor(a: int, d: int)
    by (nonlinear_arith)
    requires
        0 <= a,
        0 < d,
    ensures
        a / d <= 2 * (a / (2 * d)) + 1,
{
}

/// What is lost when a number is cut down to a multiple of `d`, given that
/// the multiple is at least `2^23` times `d`.
pub(crate) proof fn lemma_floor_error(m: int, d: int, steps: int)
    by (nonlinear_arith)
    requires
        0 <= m,
        0 < d,
        steps == m / d,
        steps >= 0x80_0000,
    ensures
        0 <= m - steps * d <= m / 0x80_0000 + 1,
{
    assert(steps * d <= m < steps * d + d);
    assert(0x80_0000 * d <= steps * d);
    assert(d <= m / 0x80_0000);
}

/// What is lost when a number is scaled up by `p`, cut down to whole
/// multiples of `u`, and scaled back, given that there are at least `2^23`
/// multiples.
pub(crate) proof fn lemma_scaled_floor_error(m: int, p: int, u: int, steps: int)
    by (nonlinear_arith)
    requires
        0 <= m,
        0 < p,
        0 < u,
        steps == m * p / u,
        steps >= 0x80_0000,
    ensures
        0 <= m - steps * u / p <= m / 0x80_0000 + 1,
{
    let a = steps * u;
    assert(a <= m * p < a + u);
    let back = a / p;
    assert(back * p <= a < back * p + p);
    assert(back <= m);
    assert((m - back) * p < u + p);
    assert(0x80_0000 * u <= a);
    assert(0x80_0000 * u <= m * p);
    assert((m - back - 1) * p < u);
    assert((m - back - 1) * p * 0x80_0000 < m * p);
    assert((m - back - 1) * 0x80_0000 < m);
}

/// A multiple of a million that is at most `2^63` is less than `2^63`,
/// which is no multiple of a million.
pub(crate) proof fn lemma_multiples_of_unit_below_limit(steps: int, d: int, magnitude: int)
    requires
        steps * d <= magnitude <= 0x8000_0000_0000_0000,
        0 <= steps,
        0 < d,
        d % 1_000_000 == 0,
    ensures
        steps * d <= i64::MAX,
{
    let k = d / 1_000_000;
    assert(steps * d == (steps * k) * 1_000_000) by (nonlinear_arith)
        requires
            d == k * 1_000_000,
    ;
}

} // verus!
