//! The four figures of an amortising loan.
//!
//! Every function takes decimals and returns a decimal or an `Error`. The
//! inputs are checked before any arithmetic is done. An arithmetic step that
//! has no result (an overflow, a division by zero, a logarithm of a number
//! that is not positive) ends the computation with
//! `Error::ArithmeticDomainError`.

use vstd::prelude::*;
use crate::arith::{
    difference, log, minus, negated, over, plus, quotient, raised, times, try_add, try_div, try_ln,
    try_mul, try_neg, try_pow, try_sub, view_of,
};
use crate::decimal::{Decimal, Value};

verus! {

/// Why a figure could not be computed.
#[derive(Clone, Copy, Debug, PartialEq, Eq)]
pub enum Error {
    /// An input is outside its range.
    InvalidInput,
    /// The monthly outflow does not exceed the monthly interest, so the loan
    /// is never paid off.
    NeverAmortizes,
    /// An arithmetic step has no result.
    ArithmeticDomainError,
}

/// The content of a result.
pub open spec fn outcome(r: Result<Decimal, Error>) -> Result<Value, Error> {
    match r {
        Ok(d) => Ok(d@),
        Err(e) => Err(e),
    }
}

/// A computed number, or the error for an arithmetic step without result.
pub open spec fn computed(v: Option<Value>) -> Result<Value, Error> {
    match v {
        Some(x) => Ok(x),
        None => Err(Error::ArithmeticDomainError),
    }
}

/// The price is positive, the deposit is not negative and below the price,
/// and the rate is not negative.
pub open spec fn loan_is_valid(price: Value, deposit: Value, rate: Value) -> bool {
    &&& price.mantissa > 0
    &&& deposit.mantissa >= 0
    &&& deposit.lt(price)
    &&& rate.mantissa >= 0
}

/// The amount financed: price minus deposit. It is missing where the
/// subtraction has no result or a result that is not positive.
pub open spec fn principal(price: Value, deposit: Value) -> Option<Value> {
    match difference(price, deposit) {
        Some(p) => if p.mantissa > 0 {
            Some(p)
        } else {
            None
        },
        None => None,
    }
}

/// The rate per month as a fraction: the annual rate in percent, divided by
/// 100 and then by 12.
pub open spec fn monthly_rate(rate: Value) -> Option<Value> {
    over(quotient(rate, Value::whole(100)), Some(Value::whole(12)))
}

/// The count of monthly periods in `years`: `years * 12`.
pub open spec fn periods(years: Value) -> Option<Value> {
    times(Some(years), Some(Value::whole(12)))
}

/// The payment per period that pays off `p` in `n` periods at the rate `r` per
/// period: `p / n` where `r` is zero, else `(p * r) / (1 - (1 + r)^(-n))`.
pub open spec fn payment_formula(p: Option<Value>, r: Option<Value>, n: Option<Value>) -> Option<
    Value,
> {
    match r {
        Some(rate) => if rate.mantissa == 0 {
            over(p, n)
        } else {
            over(
                times(p, r),
                minus(Some(Value::one()), raised(plus(Some(Value::one()), r), negated(n))),
            )
        },
        None => None,
    }
}

/// What `calculate_pmt` returns.
pub open spec fn monthly_payment(price: Value, deposit: Value, rate: Value, term: Value) -> Result<
    Value,
    Error,
> {
    if loan_is_valid(price, deposit, rate) && term.mantissa > 0 {
        computed(payment_formula(principal(price, deposit), monthly_rate(rate), periods(term)))
    } else {
        Err(Error::InvalidInput)
    }
}

/// Whether price, deposit and rate are in their ranges.
fn check_loan(price: Decimal, deposit: Decimal, rate: Decimal) -> (ok: bool)
    ensures
        ok == loan_is_valid(price@, deposit@, rate@),
{
    price.is_positive() && !deposit.is_negative() && deposit.lt(&price) && !rate.is_negative()
}

/// Price minus deposit, if that is positive.
fn principal_of(price: Decimal, deposit: Decimal) -> (r: Option<Decimal>)
    ensures
        view_of(r) == principal(price@, deposit@),
        r matches Some(p) ==> p@.wf(),
{
    match try_sub(Some(price), Some(deposit)) {
        Some(p) => if p.is_positive() {
            proof {
                use_type_invariant(&p);
            }
            Some(p)
        } else {
            None
        },
        None => None,
    }
}

/// The annual rate in percent as a monthly fraction.
fn monthly_rate_of(rate: Decimal) -> (r: Option<Decimal>)
    ensures
        view_of(r) == monthly_rate(rate@),
{
    let apr = try_div(Some(rate), Some(Decimal::from_i64(100)));
    try_div(apr, Some(Decimal::from_i64(12)))
}

/// The count of months in `years`.
fn periods_of(years: Decimal) -> (r: Option<Decimal>)
    ensures
        view_of(r) == periods(years@),
{
    try_mul(Some(years), Some(Decimal::from_i64(12)))
}

/// A computed number as a result.
fn finish(v: Option<Decimal>) -> (r: Result<Decimal, Error>)
    ensures
        outcome(r) == computed(view_of(v)),
{
    match v {
        Some(x) => Ok(x),
        None => Err(Error::ArithmeticDomainError),
    }
}

/// The fixed monthly payment of an amortising loan.
///
/// With principal `P = house_price - deposit`, monthly rate
/// `R = rate / 100 / 12` and `N = term_length * 12` periods, the payment is
/// `(P * R) / (1 - (1 + R)^(-N))`, and `P / N` where `R` is zero. `rate` is
/// the annual rate in percent and `term_length` is in years.
///
/// Fails with `Error::InvalidInput` unless the price is positive, the deposit
/// is at least zero and below the price, the rate is at least zero and the
/// term is positive.
pub fn calculate_pmt(
    house_price: Decimal,
    deposit: Decimal,
    rate: Decimal,
    term_length: Decimal,
) -> (r: Result<Decimal, Error>)
    ensures
        outcome(r) == monthly_payment(house_price@, deposit@, rate@, term_length@),
        r == Err::<Decimal, Error>(Error::InvalidInput) <==> !(loan_is_valid(
            house_price@,
            deposit@,
            rate@,
        ) && term_length@.mantissa > 0),
{
    if !check_loan(house_price, deposit, rate) || !term_length.is_positive() {
        return Err(Error::InvalidInput);
    }
    let p = principal_of(house_price, deposit);
    let rate_per_month = monthly_rate_of(rate);
    let n = periods_of(term_length);
    let payment = match rate_per_month {
        Some(x) => if x.is_zero() {
            try_div(p, n)
        } else {
            let one = Some(Decimal::from_i64(1));
            let discount = try_pow(try_add(one, rate_per_month), try_neg(n));
            try_div(try_mul(p, rate_per_month), try_sub(one, discount))
        },
        None => None,
    };
    finish(payment)
}

/// The balance after `k` periods of paying `outflow` on the principal `p` at
/// the rate `r` per period: `p - outflow * k` where `r` is zero, else
/// `p * s - outflow * ((s - 1) / r)` with `s = (1 + r)^k`.
pub open spec fn balance_formula(
    p: Option<Value>,
    r: Option<Value>,
    k: Option<Value>,
    outflow: Option<Value>,
) -> Option<Value> {
    match r {
        Some(rate) => if rate.mantissa == 0 {
            minus(p, times(outflow, k))
        } else {
            let s = raised(plus(Some(Value::one()), r), k);
            minus(times(p, s), times(outflow, over(minus(s, Some(Value::one())), r)))
        },
        None => None,
    }
}

/// A balance below zero counts as zero: the loan is paid off.
pub open spec fn clamped(v: Option<Value>) -> Option<Value> {
    match v {
        Some(x) => if x.mantissa < 0 {
            Some(Value::zero())
        } else {
            Some(x)
        },
        None => None,
    }
}

/// The loan is valid, the payment is positive, and neither the years nor the
/// overpayment are negative.
pub open spec fn balance_inputs_valid(
    price: Value,
    deposit: Value,
    payment: Value,
    rate: Value,
    years: Value,
    overpayment: Value,
) -> bool {
    &&& loan_is_valid(price, deposit, rate)
    &&& payment.mantissa > 0
    &&& years.mantissa >= 0
    &&& overpayment.mantissa >= 0
}

/// What `calculate_value_at_year` returns.
pub open spec fn balance_at_year(
    price: Value,
    deposit: Value,
    payment: Value,
    rate: Value,
    years: Value,
    overpayment: Value,
) -> Result<Value, Error> {
    if balance_inputs_valid(price, deposit, payment, rate, years, overpayment) {
        computed(
            clamped(
                balance_formula(
                    principal(price, deposit),
                    monthly_rate(rate),
                    periods(years),
                    plus(Some(payment), Some(overpayment)),
                ),
            ),
        )
    } else {
        Err(Error::InvalidInput)
    }
}

/// The balance still owed after `years` years.
///
/// With principal `P = house_price - deposit`, monthly rate
/// `r = rate / 100 / 12`, `k = years * 12` periods and the monthly outflow
/// `R = pmt + overpayment`, the balance is `P * s - R * ((s - 1) / r)` with
/// `s = (1 + r)^k`, and `P - R * k` where `r` is zero. A balance below zero is
/// returned as zero: by then the loan is paid off.
///
/// Fails with `Error::InvalidInput` unless the price is positive, the deposit
/// is at least zero and below the price, the payment is positive, and rate,
/// years and overpayment are at least zero.
///
/// The result is never negative, and after zero years it is the principal.
pub fn calculate_value_at_year(
    house_price: Decimal,
    deposit: Decimal,
    pmt: Decimal,
    rate: Decimal,
    years: Decimal,
    overpayment: Decimal,
) -> (r: Result<Decimal, Error>)
    ensures
        outcome(r) == balance_at_year(
            house_price@,
            deposit@,
            pmt@,
            rate@,
            years@,
            overpayment@,
        ),
        r == Err::<Decimal, Error>(Error::InvalidInput) <==> !balance_inputs_valid(
            house_price@,
            deposit@,
            pmt@,
            rate@,
            years@,
            overpayment@,
        ),
        r matches Ok(balance) ==> balance@.mantissa >= 0,
        r matches Ok(balance) ==> years@.mantissa == 0 ==> Some(balance@) == principal(
            house_price@,
            deposit@,
        ),
{
    if !check_loan(house_price, deposit, rate) || !pmt.is_positive() || years.is_negative()
        || overpayment.is_negative() {
        return Err(Error::InvalidInput);
    }
    let p = principal_of(house_price, deposit);
    let rate_per_month = monthly_rate_of(rate);
    let k = periods_of(years);
    let outflow = try_add(Some(pmt), Some(overpayment));
    let balance = match rate_per_month {
        Some(x) => if x.is_zero() {
            try_sub(p, try_mul(outflow, k))
        } else {
            let one = Some(Decimal::from_i64(1));
            let s = try_pow(try_add(one, rate_per_month), k);
            let paid = try_mul(outflow, try_div(try_sub(s, one), rate_per_month));
            try_sub(try_mul(p, s), paid)
        },
        None => None,
    };
    match balance {
        Some(b) => if b.is_negative() {
            Ok(Decimal::zero())
        } else {
            Ok(b)
        },
        None => Err(Error::ArithmeticDomainError),
    }
}

/// The loan is valid, the payment is positive and the overpayment is not
/// negative.
pub open spec fn pay_off_inputs_valid(
    price: Value,
    deposit: Value,
    rate: Value,
    payment: Value,
    overpayment: Value,
) -> bool {
    &&& loan_is_valid(price, deposit, rate)
    &&& payment.mantissa > 0
    &&& overpayment.mantissa >= 0
}

/// An input is outside its range, or the monthly outflow is not positive.
pub open spec fn pay_off_inputs_rejected(
    price: Value,
    deposit: Value,
    rate: Value,
    payment: Value,
    overpayment: Value,
) -> bool {
    ||| !pay_off_inputs_valid(price, deposit, rate, payment, overpayment)
    ||| (plus(Some(payment), Some(overpayment)) matches Some(outflow) && outflow.mantissa <= 0)
}

/// The interest of one month on the whole principal.
pub open spec fn monthly_interest(price: Value, deposit: Value, rate: Value) -> Option<Value> {
    times(principal(price, deposit), monthly_rate(rate))
}

/// The inputs are valid and the monthly outflow is positive, but it does not
/// exceed the interest of one month on the principal.
pub open spec fn never_amortizes(
    price: Value,
    deposit: Value,
    rate: Value,
    payment: Value,
    overpayment: Value,
) -> bool {
    &&& pay_off_inputs_valid(price, deposit, rate, payment, overpayment)
    &&& plus(Some(payment), Some(overpayment)) matches Some(outflow)
    &&& outflow.mantissa > 0
    &&& monthly_interest(price, deposit, rate) matches Some(interest)
    &&& outflow.le(interest)
}

/// The count of periods after which paying `outflow` has paid off `p` at the
/// rate `r` per period, where `interest` is `p * r`: `p / outflow` where `r` is
/// zero, else `-(ln(1 - interest / outflow) / ln(1 + r))`.
pub open spec fn pay_off_formula(
    p: Option<Value>,
    r: Option<Value>,
    interest: Value,
    outflow: Value,
) -> Option<Value> {
    match r {
        Some(rate) => if rate.mantissa == 0 {
            over(p, Some(outflow))
        } else {
            negated(
                over(
                    log(minus(Some(Value::one()), over(Some(interest), Some(outflow)))),
                    log(plus(Some(Value::one()), r)),
                ),
            )
        },
        None => None,
    }
}

/// What `calculate_time_to_pay_off` returns.
pub open spec fn pay_off_time(
    price: Value,
    deposit: Value,
    rate: Value,
    payment: Value,
    overpayment: Value,
) -> Result<Value, Error> {
    if !pay_off_inputs_valid(price, deposit, rate, payment, overpayment) {
        Err(Error::InvalidInput)
    } else {
        match plus(Some(payment), Some(overpayment)) {
            Some(outflow) => if outflow.mantissa <= 0 {
                Err(Error::InvalidInput)
            } else {
                match monthly_interest(price, deposit, rate) {
                    Some(interest) => if outflow.le(interest) {
                        Err(Error::NeverAmortizes)
                    } else {
                        computed(
                            pay_off_formula(
                                principal(price, deposit),
                                monthly_rate(rate),
                                interest,
                                outflow,
                            ),
                        )
                    },
                    None => Err(Error::ArithmeticDomainError),
                }
            },
            None => Err(Error::ArithmeticDomainError),
        }
    }
}

/// The time until the loan is paid off, in months.
///
/// With principal `P = house_price - deposit`, monthly rate
/// `R = rate / 100 / 12` and the monthly outflow `O = pmt + overpayment`, the
/// count of monthly periods is `-(ln(1 - (P * R) / O) / ln(1 + R))`, and
/// `P / O` where `R` is zero. The result counts months, not years.
///
/// Fails with `Error::InvalidInput` unless the price is positive, the deposit
/// is at least zero and below the price, the rate and the overpayment are at
/// least zero, and the payment and the outflow are positive. Fails with
/// `Error::NeverAmortizes` where the outflow does not exceed `P * R`, the
/// interest of one month: such a loan is never paid off.
pub fn calculate_time_to_pay_off(
    house_price: Decimal,
    deposit: Decimal,
    rate: Decimal,
    pmt: Decimal,
    overpayment: Decimal,
) -> (r: Result<Decimal, Error>)
    ensures
        outcome(r) == pay_off_time(house_price@, deposit@, rate@, pmt@, overpayment@),
        r == Err::<Decimal, Error>(Error::NeverAmortizes) <==> never_amortizes(
            house_price@,
            deposit@,
            rate@,
            pmt@,
            overpayment@,
        ),
        r == Err::<Decimal, Error>(Error::InvalidInput) <==> pay_off_inputs_rejected(
            house_price@,
            deposit@,
            rate@,
            pmt@,
            overpayment@,
        ),
{
    if !check_loan(house_price, deposit, rate) || !pmt.is_positive() || overpayment.is_negative() {
        return Err(Error::InvalidInput);
    }
    let outflow = match try_add(Some(pmt), Some(overpayment)) {
        Some(x) => x,
        None => {
            return Err(Error::ArithmeticDomainError);
        },
    };
    if !outflow.is_positive() {
        return Err(Error::InvalidInput);
    }
    let p = principal_of(house_price, deposit);
    let rate_per_month = monthly_rate_of(rate);
    let interest = match try_mul(p, rate_per_month) {
        Some(x) => x,
        None => {
            return Err(Error::ArithmeticDomainError);
        },
    };
    if outflow.le(&interest) {
        return Err(Error::NeverAmortizes);
    }
    let time = match rate_per_month {
        Some(x) => if x.is_zero() {
            try_div(p, Some(outflow))
        } else {
            let one = Some(Decimal::from_i64(1));
            let remaining = try_sub(one, try_div(Some(interest), Some(outflow)));
            try_neg(try_div(try_ln(remaining), try_ln(try_add(one, rate_per_month))))
        },
        None => None,
    };
    finish(time)
}

/// What `calculate_amount_paid` returns.
pub open spec fn total_paid(payment: Value, overpayment: Value, years: Value) -> Result<
    Value,
    Error,
> {
    if payment.mantissa >= 0 && overpayment.mantissa >= 0 && years.mantissa > 0 {
        computed(times(plus(Some(payment), Some(overpayment)), periods(years)))
    } else {
        Err(Error::InvalidInput)
    }
}

/// The total amount paid over `years` years:
/// `(pmt + overpayment) * (years * 12)`.
///
/// Fails with `Error::InvalidInput` unless payment and overpayment are at
/// least zero and the years are positive.
pub fn calculate_amount_paid(pmt: Decimal, overpayment: Decimal, years: Decimal) -> (r: Result<
    Decimal,
    Error,
>)
    ensures
        outcome(r) == total_paid(pmt@, overpayment@, years@),
        r == Err::<Decimal, Error>(Error::InvalidInput) <==> !(pmt@.mantissa >= 0
            && overpayment@.mantissa >= 0 && years@.mantissa > 0),
{
    if pmt.is_negative() || overpayment.is_negative() || !years.is_positive() {
        return Err(Error::InvalidInput);
    }
    let outflow = try_add(Some(pmt), Some(overpayment));
    finish(try_mul(outflow, periods_of(years)))
}

} // verus!
