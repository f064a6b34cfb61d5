//! What holds between the figures, whatever the inputs.

use vstd::prelude::*;
use crate::arith::{over, plus, times};
use crate::decimal::{lemma_pow10_positive, pow10, Value};
use crate::mortgage::{
    balance_at_year, computed, monthly_payment, never_amortizes, pay_off_time, periods, total_paid,
    Error,
};

verus! {

/// Without interest and without a deposit the monthly payment is the price
/// divided by the count of months: no power and no rounded subtraction takes
/// part in it.
pub proof fn lemma_zero_rate_payment(price: Value, deposit: Value, rate: Value, term: Value)
    requires
        price.mantissa > 0,
        deposit.mantissa == 0,
        rate.mantissa == 0,
        term.mantissa > 0,
    ensures
        monthly_payment(price, deposit, rate, term) == computed(over(Some(price), periods(term))),
{
    lemma_pow10_positive(deposit.scale);
    assert(price.mantissa * pow10(deposit.scale) > 0) by (nonlinear_arith)
        requires
            price.mantissa > 0,
            pow10(deposit.scale) >= 1,
    ;
    assert(deposit.mantissa * pow10(price.scale) == 0) by (nonlinear_arith)
        requires
            deposit.mantissa == 0,
    ;
    assert(deposit.lt(price));
}

/// Without overpayment the total paid is the monthly payment times the count
/// of months.
pub proof fn lemma_total_without_overpayment(payment: Value, overpayment: Value, years: Value)
    requires
        payment.mantissa >= 0,
        overpayment.mantissa == 0,
        years.mantissa > 0,
    ensures
        total_paid(payment, overpayment, years) == computed(times(Some(payment), periods(years))),
{
    assert(plus(Some(payment), Some(overpayment)) matches Some(outflow) && (outflow == payment
        || outflow.mantissa == 0));
}

/// The balance is never negative.
pub proof fn lemma_balance_not_negative(
    price: Value,
    deposit: Value,
    payment: Value,
    rate: Value,
    years: Value,
    overpayment: Value,
)
    ensures
        balance_at_year(price, deposit, payment, rate, years, overpayment) matches Ok(balance)
            ==> balance.mantissa >= 0,
{
}

/// A loan whose monthly outflow does not exceed the interest of one month is
/// reported as never paid off, and no other loan is.
pub proof fn lemma_never_amortizes(
    price: Value,
    deposit: Value,
    rate: Value,
    payment: Value,
    overpayment: Value,
)
    ensures
        pay_off_time(price, deposit, rate, payment, overpayment) == Err::<Value, Error>(
            Error::NeverAmortizes,
        ) <==> never_amortizes(price, deposit, rate, payment, overpayment),
{
}

} // verus!
