use finance_helper::decimal::Decimal;
use finance_helper::mortgage::{calculate_pmt, calculate_value_at_year, Error};

fn whole(n: i64) -> Decimal {
    Decimal::from_i64(n)
}

fn dec(mantissa: i128, scale: u32) -> Decimal {
    Decimal::new(mantissa, scale).unwrap()
}

fn outside(d: Decimal) -> rust_decimal::Decimal {
    rust_decimal::Decimal::from_i128_with_scale(d.mantissa(), d.scale())
}

fn cents(d: Decimal) -> String {
    outside(d).round_dp(2).to_string()
}

#[test]
fn balance_after_no_time_is_the_principal() {
    let b = calculate_value_at_year(
        whole(300000),
        whole(60000),
        dec(140302, 2),
        whole(5),
        whole(0),
        whole(0),
    )
    .unwrap();
    assert_eq!(b, whole(240000));
}

#[test]
fn balance_after_no_time_keeps_the_scale_of_the_principal() {
    let b = calculate_value_at_year(
        dec(30000050, 2),
        dec(6000025, 2),
        dec(140302, 2),
        dec(45, 1),
        dec(0, 3),
        whole(100),
    )
    .unwrap();
    assert_eq!(b, dec(24000025, 2));
}

#[test]
fn balance_after_no_time_without_interest_is_the_principal() {
    let b = calculate_value_at_year(
        whole(300000),
        whole(60000),
        whole(1000),
        whole(0),
        whole(0),
        whole(50),
    )
    .unwrap();
    assert_eq!(b, whole(240000));
}

#[test]
fn balance_after_ten_years() {
    let pmt = calculate_pmt(whole(300000), whole(60000), whole(5), whole(25)).unwrap();
    let b = calculate_value_at_year(
        whole(300000),
        whole(60000),
        pmt,
        whole(5),
        whole(10),
        whole(0),
    )
    .unwrap();
    assert_eq!(cents(b), "177418.74");
}

#[test]
fn balance_at_the_end_of_the_term_is_zero() {
    let pmt = calculate_pmt(whole(300000), whole(60000), whole(5), whole(25)).unwrap();
    let b = calculate_value_at_year(
        whole(300000),
        whole(60000),
        pmt,
        whole(5),
        whole(25),
        whole(0),
    )
    .unwrap();
    assert!(outside(b) < rust_decimal::Decimal::new(1, 2));
    assert!(!b.is_negative());
}

#[test]
fn balance_far_beyond_payoff_is_zero() {
    let b = calculate_value_at_year(
        whole(300000),
        whole(60000),
        dec(140302, 2),
        whole(5),
        whole(40),
        whole(500),
    )
    .unwrap();
    assert_eq!(b, whole(0));
}

#[test]
fn balance_without_interest_is_linear() {
    let b = calculate_value_at_year(
        whole(300000),
        whole(60000),
        whole(1000),
        whole(0),
        whole(10),
        whole(500),
    )
    .unwrap();
    // 240000 - 1500 * 120
    assert_eq!(b, whole(60000));
}

#[test]
fn balance_without_interest_clamps_at_zero() {
    let b = calculate_value_at_year(
        whole(300000),
        whole(60000),
        whole(1000),
        whole(0),
        whole(30),
        whole(0),
    )
    .unwrap();
    assert_eq!(b, whole(0));
}

#[test]
fn balance_grows_when_the_payment_is_below_the_interest() {
    let b = calculate_value_at_year(
        whole(300000),
        whole(60000),
        whole(500),
        whole(5),
        whole(1),
        whole(0),
    )
    .unwrap();
    assert_eq!(cents(b), "246139.43");
}

#[test]
fn balance_rejects_a_payment_that_is_not_positive() {
    assert_eq!(
        calculate_value_at_year(whole(300000), whole(60000), whole(0), whole(5), whole(1), whole(0)),
        Err(Error::InvalidInput)
    );
}

#[test]
fn balance_rejects_negative_years() {
    assert_eq!(
        calculate_value_at_year(
            whole(300000),
            whole(60000),
            whole(1000),
            whole(5),
            dec(-1, 1),
            whole(0)
        ),
        Err(Error::InvalidInput)
    );
}

#[test]
fn balance_rejects_a_negative_overpayment() {
    assert_eq!(
        calculate_value_at_year(
            whole(300000),
            whole(60000),
            whole(1000),
            whole(5),
            whole(1),
            whole(-1)
        ),
        Err(Error::InvalidInput)
    );
}

#[test]
fn balance_rejects_an_invalid_loan() {
    assert_eq!(
        calculate_value_at_year(whole(0), whole(0), whole(1000), whole(5), whole(1), whole(0)),
        Err(Error::InvalidInput)
    );
    assert_eq!(
        calculate_value_at_year(
            whole(300000),
            whole(300000),
            whole(1000),
            whole(5),
            whole(1),
            whole(0)
        ),
        Err(Error::InvalidInput)
    );
    assert_eq!(
        calculate_value_at_year(
            whole(300000),
            whole(60000),
            whole(1000),
            whole(-5),
            whole(1),
            whole(0)
        ),
        Err(Error::InvalidInput)
    );
}

#[test]
fn balance_that_overflows_has_no_result() {
    assert_eq!(
        calculate_value_at_year(
            whole(300000),
            whole(60000),
            whole(1000),
            whole(1200),
            whole(100),
            whole(0)
        ),
        Err(Error::ArithmeticDomainError)
    );
}
