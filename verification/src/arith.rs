//! Decimal arithmetic, done by the `rust_decimal` crate.
//!
//! Each operation is stated as far as a few lines can state it: where a zero
//! is involved and where the exact result needs no rounding. For the rest the
//! result is a function of the operands that is only named here: `rust_decimal`
//! rounds to what 96 bits and 28 digits can hold, and approximates powers and
//! logarithms by series.
//!
//! A `Decimal` always holds a mantissa and a scale within the limits of
//! `rust_decimal`. So its counterpart there can be built from them
//! (`from_i128_with_scale`), and what is read back from a result (`mantissa`,
//! `scale`) is within the limits again.

use vstd::prelude::*;
use crate::decimal::{Decimal, Value, MAX_MANTISSA, MAX_SCALE};

verus! {

/// What `rust_decimal` returns for `a + b` where neither operand is zero.
pub uninterp spec fn rounded_sum(a: Value, b: Value) -> Option<Value>;

/// What `rust_decimal` returns for `a - b` where neither operand is zero and
/// the exact difference is not known to fit.
pub uninterp spec fn rounded_difference(a: Value, b: Value) -> Option<Value>;

/// What `rust_decimal` returns for `a * b` where the exact product, at the
/// sum of the scales, does not fit.
pub uninterp spec fn rounded_product(a: Value, b: Value) -> Option<Value>;

/// What `rust_decimal` returns for `a / b` where neither operand is zero.
pub uninterp spec fn rounded_quotient(a: Value, b: Value) -> Option<Value>;

/// What `rust_decimal` returns for `base` raised to `exp` where `exp` is not
/// zero.
pub uninterp spec fn approximate_power(base: Value, exp: Value) -> Option<Value>;

/// What `rust_decimal` returns for the natural logarithm of a positive `a`.
pub uninterp spec fn approximate_log(a: Value) -> Option<Value>;

/// The content of a decimal that may be missing.
pub open spec fn view_of(r: Option<Decimal>) -> Option<Value> {
    match r {
        Some(d) => Some(d@),
        None => None,
    }
}

/// Whether `m` is a mantissa of at most 96 bits.
pub open spec fn fits(m: int) -> bool {
    -MAX_MANTISSA <= m <= MAX_MANTISSA
}

/// Whether `a - b` needs no rounding: the scales are equal and the difference
/// of the mantissas fits.
pub open spec fn difference_is_exact(a: Value, b: Value) -> bool {
    a.scale == b.scale && fits(a.mantissa - b.mantissa)
}

/// Whether `a * b` needs no rounding: the scales add up to at most 28 and the
/// product of the mantissas fits.
pub open spec fn product_is_exact(a: Value, b: Value) -> bool {
    a.scale + b.scale <= MAX_SCALE && fits(a.mantissa * b.mantissa)
}

/// The difference of two numbers of one scale, at that scale.
pub open spec fn exact_difference(a: Value, b: Value) -> Value {
    Value { mantissa: a.mantissa - b.mantissa, scale: a.scale }
}

/// The product of two numbers, at the sum of their scales.
pub open spec fn exact_product(a: Value, b: Value) -> Value {
    Value { mantissa: a.mantissa * b.mantissa, scale: a.scale + b.scale }
}

/// `a + b`: the other operand where one is zero, and `None` where the sum is
/// too large for a decimal.
pub open spec fn sum(a: Value, b: Value) -> Option<Value> {
    if a.mantissa == 0 {
        Some(b)
    } else if b.mantissa == 0 {
        Some(a)
    } else {
        rounded_sum(a, b)
    }
}

/// `a - b`: exact where one operand is zero, and where both have the same
/// scale and the difference of the mantissas fits; `None` where the
/// difference is too large for a decimal.
pub open spec fn difference(a: Value, b: Value) -> Option<Value> {
    if a.mantissa == 0 {
        Some(b.neg())
    } else if b.mantissa == 0 {
        Some(a)
    } else if difference_is_exact(a, b) {
        Some(exact_difference(a, b))
    } else {
        rounded_difference(a, b)
    }
}

/// `a * b`: plain zero where one operand is zero, exact where the product of
/// the mantissas fits and the scales add up to at most 28; `None` where the
/// product is too large for a decimal.
pub open spec fn product(a: Value, b: Value) -> Option<Value> {
    if a.mantissa == 0 {
        Some(Value::zero())
    } else if b.mantissa == 0 {
        Some(Value::zero())
    } else if product_is_exact(a, b) {
        Some(exact_product(a, b))
    } else {
        rounded_product(a, b)
    }
}

/// `a / b`: `None` where `b` is zero or the quotient is too large for a
/// decimal, plain zero where `a` is zero.
pub open spec fn quotient(a: Value, b: Value) -> Option<Value> {
    if b.mantissa == 0 {
        None
    } else if a.mantissa == 0 {
        Some(Value::zero())
    } else {
        rounded_quotient(a, b)
    }
}

/// `base` raised to `exp`: plain one where `exp` is zero; `None` where the
/// power is too large for a decimal.
pub open spec fn power(base: Value, exp: Value) -> Option<Value> {
    if exp.mantissa == 0 {
        Some(Value::one())
    } else {
        approximate_power(base, exp)
    }
}

/// The natural logarithm of `a`: `None` where `a` is zero or negative.
pub open spec fn natural_log(a: Value) -> Option<Value> {
    if a.mantissa <= 0 {
        None
    } else {
        approximate_log(a)
    }
}

/// `rust_decimal::Decimal::checked_add`. The sum is the second operand where
/// the first is zero and the first where the second is zero; otherwise it is
/// whatever the crate computes from the two operands, `None` on overflow.
#[verifier::external_body]
pub(crate) fn checked_add(a: Decimal, b: Decimal) -> (r: Option<Decimal>)
    ensures
        view_of(r) == if a@.mantissa == 0 {
            Some(b@)
        } else if b@.mantissa == 0 {
            Some(a@)
        } else {
            rounded_sum(a@, b@)
        },
{
    let x = rust_decimal::Decimal::from_i128_with_scale(a.mantissa, a.scale);
    let y = rust_decimal::Decimal::from_i128_with_scale(b.mantissa, b.scale);
    match x.checked_add(y) {
        Some(d) => Some(Decimal { mantissa: d.mantissa(), scale: d.scale() }),
        None => None,
    }
}

/// `rust_decimal::Decimal::checked_sub`. The difference is the second operand
/// with its sign turned where the first is zero, the first operand where the
/// second is zero, and the difference of the mantissas where the scales are
/// equal and it has at most 96 bits; otherwise it is whatever the crate
/// computes from the two operands, `None` on overflow.
#[verifier::external_body]
pub(crate) fn checked_sub(a: Decimal, b: Decimal) -> (r: Option<Decimal>)
    ensures
        view_of(r) == if a@.mantissa == 0 {
            Some(b@.neg())
        } else if b@.mantissa == 0 {
            Some(a@)
        } else if difference_is_exact(a@, b@) {
            Some(exact_difference(a@, b@))
        } else {
            rounded_difference(a@, b@)
        },
{
    let x = rust_decimal::Decimal::from_i128_with_scale(a.mantissa, a.scale);
    let y = rust_decimal::Decimal::from_i128_with_scale(b.mantissa, b.scale);
    match x.checked_sub(y) {
        Some(d) => Some(Decimal { mantissa: d.mantissa(), scale: d.scale() }),
        None => None,
    }
}

/// `rust_decimal::Decimal::checked_mul`. The product is zero with scale 0
/// where an operand is zero, and the product of the mantissas at the sum of
/// the scales where that has at most 96 bits and 28 digits behind the point;
/// otherwise it is whatever the crate computes from the two operands, `None`
/// on overflow.
#[verifier::external_body]
pub(crate) fn checked_mul(a: Decimal, b: Decimal) -> (r: Option<Decimal>)
    ensures
        view_of(r) == if a@.mantissa == 0 {
            Some(Value::zero())
        } else if b@.mantissa == 0 {
            Some(Value::zero())
        } else if product_is_exact(a@, b@) {
            Some(exact_product(a@, b@))
        } else {
            rounded_product(a@, b@)
        },
{
    let x = rust_decimal::Decimal::from_i128_with_scale(a.mantissa, a.scale);
    let y = rust_decimal::Decimal::from_i128_with_scale(b.mantissa, b.scale);
    match x.checked_mul(y) {
        Some(d) => Some(Decimal { mantissa: d.mantissa(), scale: d.scale() }),
        None => None,
    }
}

/// `rust_decimal::Decimal::checked_div`. There is no quotient where the
/// divisor is zero; it is zero with scale 0 where the dividend is zero;
/// otherwise it is whatever the crate computes from the two operands, `None`
/// on overflow.
#[verifier::external_body]
pub(crate) fn checked_div(a: Decimal, b: Decimal) -> (r: Option<Decimal>)
    ensures
        view_of(r) == if b@.mantissa == 0 {
            None
        } else if a@.mantissa == 0 {
            Some(Value::zero())
        } else {
            rounded_quotient(a@, b@)
        },
{
    let x = rust_decimal::Decimal::from_i128_with_scale(a.mantissa, a.scale);
    let y = rust_decimal::Decimal::from_i128_with_scale(b.mantissa, b.scale);
    match x.checked_div(y) {
        Some(d) => Some(Decimal { mantissa: d.mantissa(), scale: d.scale() }),
        None => None,
    }
}

/// `rust_decimal::MathematicalOps::checked_ln`. There is no logarithm of zero
/// or of a negative number; of a positive number it is whatever the crate
/// computes from it, `None` where that fails.
#[verifier::external_body]
pub(crate) fn checked_ln(a: Decimal) -> (r: Option<Decimal>)
    ensures
        view_of(r) == if a@.mantissa <= 0 {
            None
        } else {
            approximate_log(a@)
        },
{
    let x = rust_decimal::Decimal::from_i128_with_scale(a.mantissa, a.scale);
    match rust_decimal::MathematicalOps::checked_ln(&x) {
        Some(d) => Some(Decimal { mantissa: d.mantissa(), scale: d.scale() }),
        None => None,
    }
}

/// `rust_decimal::MathematicalOps::checked_powd`. The power is one with scale
/// 0 where the exponent is zero; otherwise it is whatever the crate computes
/// from base and exponent, `None` on overflow. For an exponent that is not
/// whole the crate takes the logarithm of the base and panics where there is
/// none, so the base must have one.
#[verifier::external_body]
pub(crate) fn checked_powd(base: Decimal, exp: Decimal) -> (r: Option<Decimal>)
    requires
        natural_log(base@) is Some,
    ensures
        view_of(r) == if exp@.mantissa == 0 {
            Some(Value::one())
        } else {
            approximate_power(base@, exp@)
        },
{
    let x = rust_decimal::Decimal::from_i128_with_scale(base.mantissa, base.scale);
    let y = rust_decimal::Decimal::from_i128_with_scale(exp.mantissa, exp.scale);
    match rust_decimal::MathematicalOps::checked_powd(&x, y) {
        Some(d) => Some(Decimal { mantissa: d.mantissa(), scale: d.scale() }),
        None => None,
    }
}

/// `a + b` of two numbers that may be missing.
pub open spec fn plus(a: Option<Value>, b: Option<Value>) -> Option<Value> {
    match (a, b) {
        (Some(x), Some(y)) => sum(x, y),
        _ => None,
    }
}

/// `a - b` of two numbers that may be missing.
pub open spec fn minus(a: Option<Value>, b: Option<Value>) -> Option<Value> {
    match (a, b) {
        (Some(x), Some(y)) => difference(x, y),
        _ => None,
    }
}

/// `a * b` of two numbers that may be missing.
pub open spec fn times(a: Option<Value>, b: Option<Value>) -> Option<Value> {
    match (a, b) {
        (Some(x), Some(y)) => product(x, y),
        _ => None,
    }
}

/// `a / b` of two numbers that may be missing.
pub open spec fn over(a: Option<Value>, b: Option<Value>) -> Option<Value> {
    match (a, b) {
        (Some(x), Some(y)) => quotient(x, y),
        _ => None,
    }
}

/// `base` raised to `exp`, for two numbers that may be missing. A power is
/// taken only of a base that has a logarithm.
pub open spec fn raised(base: Option<Value>, exp: Option<Value>) -> Option<Value> {
    match (base, exp) {
        (Some(x), Some(y)) => if natural_log(x) is Some {
            power(x, y)
        } else {
            None
        },
        _ => None,
    }
}

/// The natural logarithm of a number that may be missing.
pub open spec fn log(a: Option<Value>) -> Option<Value> {
    match a {
        Some(x) => natural_log(x),
        None => None,
    }
}

/// A number that may be missing, with the opposite sign.
pub open spec fn negated(a: Option<Value>) -> Option<Value> {
    match a {
        Some(x) => Some(x.neg()),
        None => None,
    }
}

/// `a + b`, missing where an operand is missing or the sum overflows.
pub(crate) fn try_add(a: Option<Decimal>, b: Option<Decimal>) -> (r: Option<Decimal>)
    ensures
        view_of(r) == plus(view_of(a), view_of(b)),
{
    match (a, b) {
        (Some(x), Some(y)) => checked_add(x, y),
        _ => None,
    }
}

/// `a - b`, missing where an operand is missing or the difference overflows.
pub(crate) fn try_sub(a: Option<Decimal>, b: Option<Decimal>) -> (r: Option<Decimal>)
    ensures
        view_of(r) == minus(view_of(a), view_of(b)),
{
    match (a, b) {
        (Some(x), Some(y)) => checked_sub(x, y),
        _ => None,
    }
}

/// `a * b`, missing where an operand is missing or the product overflows.
pub(crate) fn try_mul(a: Option<Decimal>, b: Option<Decimal>) -> (r: Option<Decimal>)
    ensures
        view_of(r) == times(view_of(a), view_of(b)),
{
    match (a, b) {
        (Some(x), Some(y)) => checked_mul(x, y),
        _ => None,
    }
}

/// `a / b`, missing where an operand is missing, `b` is zero or the quotient
/// overflows.
pub(crate) fn try_div(a: Option<Decimal>, b: Option<Decimal>) -> (r: Option<Decimal>)
    ensures
        view_of(r) == over(view_of(a), view_of(b)),
{
    match (a, b) {
        (Some(x), Some(y)) => checked_div(x, y),
        _ => None,
    }
}

/// `base` raised to `exp`, missing where an operand is missing, the base has
/// no logarithm or the power overflows.
pub(crate) fn try_pow(base: Option<Decimal>, exp: Option<Decimal>) -> (r: Option<Decimal>)
    ensures
        view_of(r) == raised(view_of(base), view_of(exp)),
{
    match (base, exp) {
        (Some(x), Some(y)) => match checked_ln(x) {
            Some(_) => checked_powd(x, y),
            None => None,
        },
        _ => None,
    }
}

/// The natural logarithm of `a`, missing where `a` is missing or has none.
pub(crate) fn try_ln(a: Option<Decimal>) -> (r: Option<Decimal>)
    ensures
        view_of(r) == log(view_of(a)),
{
    match a {
        Some(x) => checked_ln(x),
        None => None,
    }
}

/// `a` with the opposite sign, missing where `a` is missing.
pub(crate) fn try_neg(a: Option<Decimal>) -> (r: Option<Decimal>)
    ensures
        view_of(r) == negated(view_of(a)),
{
    match a {
        Some(x) => Some(x.neg()),
        None => None,
    }
}

} // verus!
