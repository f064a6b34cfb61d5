use finance_helper::decimal::Decimal;
use finance_helper::mortgage::{calculate_amount_paid, Error};

fn whole(n: i64) -> Decimal {
    Decimal::from_i64(n)
}

fn dec(mantissa: i128, scale: u32) -> Decimal {
    Decimal::new(mantissa, scale).unwrap()
}

#[test]
fn total_paid_over_twenty_five_years() {
    let total = calculate_amount_paid(whole(1000), whole(0), whole(25)).unwrap();
    assert_eq!(total, whole(300000));
    assert_eq!(total.mantissa(), 300000);
    assert_eq!(total.scale(), 0);
}

#[test]
fn total_paid_with_overpayment() {
    let total = calculate_amount_paid(whole(1000), whole(200), whole(25)).unwrap();
    assert_eq!(total, whole(360000));
}

#[test]
fn total_paid_keeps_the_digits_behind_the_point() {
    let total = calculate_amount_paid(dec(140302, 2), dec(50, 1), dec(25, 1)).unwrap();
    // (1403.02 + 5.0) * (2.5 * 12) = 1408.02 * 30.0
    assert_eq!(total, dec(42240600, 3));
}

#[test]
fn total_paid_of_no_payment_is_zero() {
    let total = calculate_amount_paid(whole(0), whole(0), whole(25)).unwrap();
    assert!(total.is_zero());
}

#[test]
fn total_paid_rejects_a_negative_payment() {
    assert_eq!(calculate_amount_paid(whole(-1), whole(0), whole(25)), Err(Error::InvalidInput));
}

#[test]
fn total_paid_rejects_a_negative_overpayment() {
    assert_eq!(calculate_amount_paid(whole(1000), dec(-1, 2), whole(25)), Err(Error::InvalidInput));
}

#[test]
fn total_paid_rejects_years_that_are_not_positive() {
    assert_eq!(calculate_amount_paid(whole(1000), whole(0), whole(0)), Err(Error::InvalidInput));
    assert_eq!(calculate_amount_paid(whole(1000), whole(0), whole(-3)), Err(Error::InvalidInput));
}

#[test]
fn total_paid_that_overflows_has_no_result() {
    let huge = dec(79_228_162_514_264_337_593_543_950_335, 0);
    assert_eq!(
        calculate_amount_paid(huge, whole(0), whole(25)),
        Err(Error::ArithmeticDomainError)
    );
    assert_eq!(
        calculate_amount_paid(huge, huge, whole(1)),
        Err(Error::ArithmeticDomainError)
    );
}
