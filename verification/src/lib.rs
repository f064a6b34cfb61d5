//! Mortgage amortisation figures on exact base-10 numbers: the monthly
//! payment, the balance still owed after some years, the time until the loan
//! is paid off and the total amount paid.

pub mod arith;
pub mod decimal;
pub mod laws;
pub mod mortgage;
