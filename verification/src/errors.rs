//! Division helpers with explicit, tagged failures.
//!
//! Both helpers refuse a zero divisor instead of aborting: [`divide`] reports
//! the refusal directly, while [`divide_assert`] phrases the same check as an
//! assertion-style guard that turns a violated condition into a tagged error.

use vstd::prelude::*;

verus! {

/// Why a division request was refused.
#[derive(Clone, Copy, Debug, PartialEq, Eq, Structural)]
pub enum DivideError {
    /// The divisor was zero, so no quotient exists.
    DivisionByZero,
    /// The assertion-style guard found a divisor that was not positive.
    NonPositiveDivisor,
}

/// Divides `a` by `b`, refusing a zero divisor.
pub fn divide(a: usize, b: usize) -> (r: Result<usize, DivideError>)
    ensures
        b != 0 ==> (r matches Ok(q) && q == a / b),
        b == 0 ==> (r matches Err(e) && e == DivideError::DivisionByZero),
{
    if b == 0 {
        Err(DivideError::DivisionByZero)
    } else {
        Ok(a / b)
    }
}

/// Divides `a` by `b` behind an assertion-style guard on the divisor: a
/// violated condition comes back as a tagged error rather than an abort.
pub fn divide_assert(a: usize, b: usize) -> (r: Result<usize, DivideError>)
    ensures
        b > 0 ==> (r matches Ok(q) && q == a / b),
        b == 0 ==> (r matches Err(e) && e == DivideError::NonPositiveDivisor),
{
    if b > 0 {
        Ok(a / b)
    } else {
        Err(DivideError::NonPositiveDivisor)
    }
}

} // verus!
