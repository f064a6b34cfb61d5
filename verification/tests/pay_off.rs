use finance_helper::decimal::Decimal;
use finance_helper::mortgage::{calculate_pmt, calculate_time_to_pay_off, Error};

fn whole(n: i64) -> Decimal {
    Decimal::from_i64(n)
}

fn dec(mantissa: i128, scale: u32) -> Decimal {
    Decimal::new(mantissa, scale).unwrap()
}

fn outside(d: Decimal) -> rust_decimal::Decimal {
    rust_decimal::Decimal::from_i128_with_scale(d.mantissa(), d.scale())
}

#[test]
fn pay_off_time_is_in_months() {
    let pmt = calculate_pmt(whole(300000), whole(60000), whole(5), whole(25)).unwrap();
    let t = calculate_time_to_pay_off(whole(300000), whole(60000), whole(5), pmt, whole(0)).unwrap();
    assert_eq!(outside(t).round_dp(4).to_string(), "300.0000");
}

#[test]
fn pay_off_time_with_overpayment() {
    let t = calculate_time_to_pay_off(
        whole(300000),
        whole(60000),
        whole(5),
        dec(140302, 2),
        whole(200),
    )
    .unwrap();
    assert_eq!(outside(t).round_dp(4).to_string(), "235.1351");
}

#[test]
fn pay_off_time_without_interest_is_principal_over_outflow() {
    let t = calculate_time_to_pay_off(whole(300000), whole(60000), whole(0), whole(800), whole(200))
        .unwrap();
    assert_eq!(outside(t), rust_decimal::Decimal::new(240, 0));
}

#[test]
fn pay_off_never_when_the_outflow_is_below_the_interest() {
    // the interest of one month is 1000
    assert_eq!(
        calculate_time_to_pay_off(whole(300000), whole(60000), whole(5), whole(900), whole(50)),
        Err(Error::NeverAmortizes)
    );
}

#[test]
fn pay_off_never_when_the_outflow_equals_the_interest() {
    // 240000 * (6 / 100 / 12) = 1200 exactly
    assert_eq!(
        calculate_time_to_pay_off(whole(300000), whole(60000), whole(6), whole(1000), whole(200)),
        Err(Error::NeverAmortizes)
    );
    assert_eq!(
        calculate_time_to_pay_off(whole(300000), whole(60000), whole(6), dec(120000, 2), whole(0)),
        Err(Error::NeverAmortizes)
    );
}

#[test]
fn pay_off_just_above_the_interest_takes_long() {
    let t = calculate_time_to_pay_off(
        whole(300000),
        whole(60000),
        whole(6),
        dec(120001, 2),
        whole(0),
    )
    .unwrap();
    assert!(outside(t) > rust_decimal::Decimal::new(2000, 0));
    assert!(outside(t) < rust_decimal::Decimal::new(2500, 0));
}

#[test]
fn pay_off_rejects_a_payment_that_is_not_positive() {
    assert_eq!(
        calculate_time_to_pay_off(whole(300000), whole(60000), whole(5), whole(0), whole(2000)),
        Err(Error::InvalidInput)
    );
    assert_eq!(
        calculate_time_to_pay_off(whole(300000), whole(60000), whole(5), whole(-5), whole(2000)),
        Err(Error::InvalidInput)
    );
}

#[test]
fn pay_off_rejects_a_negative_overpayment() {
    assert_eq!(
        calculate_time_to_pay_off(whole(300000), whole(60000), whole(5), whole(2000), whole(-1)),
        Err(Error::InvalidInput)
    );
}

#[test]
fn pay_off_rejects_an_invalid_loan() {
    assert_eq!(
        calculate_time_to_pay_off(whole(-300000), whole(0), whole(5), whole(2000), whole(0)),
        Err(Error::InvalidInput)
    );
    assert_eq!(
        calculate_time_to_pay_off(whole(300000), whole(-1), whole(5), whole(2000), whole(0)),
        Err(Error::InvalidInput)
    );
    assert_eq!(
        calculate_time_to_pay_off(whole(300000), whole(400000), whole(5), whole(2000), whole(0)),
        Err(Error::InvalidInput)
    );
    assert_eq!(
        calculate_time_to_pay_off(whole(300000), whole(60000), dec(-1, 3), whole(2000), whole(0)),
        Err(Error::InvalidInput)
    );
}

#[test]
fn pay_off_with_an_outflow_that_overflows_has_no_result() {
    let huge = dec(79_228_162_514_264_337_593_543_950_335, 0);
    assert_eq!(
        calculate_time_to_pay_off(whole(300000), whole(60000), whole(5), huge, huge),
        Err(Error::ArithmeticDomainError)
    );
}
