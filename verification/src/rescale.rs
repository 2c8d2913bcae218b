//! Moving a decimal from one scale to another.

use vstd::arithmetic::power::{lemma_pow_increases, lemma_pow_positive, pow};
use vstd::prelude::*;

use crate::expr::{BinaryFunc, Datum, ScalarExpr};
use crate::scalar::{ColumnType, ScalarType, MAX_DECIMAL_PRECISION};

verus! {

/// Every power of ten that a decimal has room for is in the range of its digits,
/// so that the factor of a rescaling is that power and no other number.
pub proof fn lemma_powers_of_ten_fit(n: nat)
    requires
        n <= MAX_DECIMAL_PRECISION,
    ensures
        0 < pow(10, n) <= 100_000_000_000_000_000_000_000_000_000_000_000_000,
        pow(10, n) as i128 == pow(10, n),
{
    lemma_pow_positive(10, n);
    lemma_pow_increases(10, n, 38);
    assert(pow(10, 38) == 100_000_000_000_000_000_000_000_000_000_000_000_000) by {
        reveal(pow);
        reveal_with_fuel(pow, 39);
    }
}

/// Returns ten to the power of `n`.
fn power_of_ten(n: u8) -> (p: i128)
    requires
        n <= MAX_DECIMAL_PRECISION,
    ensures
        p == pow(10, n as nat),
{
    let mut p: i128 = 1;
    let mut i: u8 = 0;
    proof {
        reveal(pow);
    }
    while i < n
        invariant
            i <= n <= MAX_DECIMAL_PRECISION,
            p == pow(10, i as nat),
        decreases n - i,
    {
        proof {
            reveal(pow);
            lemma_powers_of_ten_fit((i + 1) as nat);
        }
        p = p * 10;
        i = i + 1;
    }
    p
}

/// Ten to the power of `n`, written as a decimal with `n` digits behind its
/// point: the number one.
pub open spec fn scaled_one(n: u8) -> ScalarExpr {
    ScalarExpr::literal(
        Datum::Decimal(pow(10, n as nat) as i128),
        ColumnType::new(ScalarType::Decimal(MAX_DECIMAL_PRECISION, n)),
    )
}

/// Whether the digits that a move from scale `s1` to scale `s2` adds or drops
/// are no more than a decimal has room for.
pub open spec fn scales_in_reach(s1: u8, s2: u8) -> bool {
    s1 - s2 <= MAX_DECIMAL_PRECISION && s2 - s1 <= MAX_DECIMAL_PRECISION
}

/// The decimal `expr` of scale `s1`, moved to scale `s2`: multiplied or divided
/// by a one that has as many digits as the scales lie apart.
pub open spec fn rescaled(expr: ScalarExpr, s1: u8, s2: u8) -> ScalarExpr {
    if s1 < s2 {
        expr.call_binary(scaled_one((s2 - s1) as u8), BinaryFunc::MulDecimal)
    } else if s1 > s2 {
        expr.call_binary(scaled_one((s1 - s2) as u8), BinaryFunc::DivDecimal)
    } else {
        expr
    }
}

/// Moves the decimal `expr` from scale `s1` to scale `s2`.
pub fn rescale_decimal(expr: ScalarExpr, s1: u8, s2: u8) -> (e: ScalarExpr)
    requires
        scales_in_reach(s1, s2),
    ensures
        e == rescaled(expr, s1, s2),
{
    if s1 < s2 {
        let typ = ColumnType::new(ScalarType::Decimal(MAX_DECIMAL_PRECISION, s2 - s1));
        let factor = ScalarExpr::literal(Datum::Decimal(power_of_ten(s2 - s1)), typ);
        expr.call_binary(factor, BinaryFunc::MulDecimal)
    } else if s1 > s2 {
        let typ = ColumnType::new(ScalarType::Decimal(MAX_DECIMAL_PRECISION, s1 - s2));
        let factor = ScalarExpr::literal(Datum::Decimal(power_of_ten(s1 - s2)), typ);
        expr.call_binary(factor, BinaryFunc::DivDecimal)
    } else {
        expr
    }
}

} // verus!
