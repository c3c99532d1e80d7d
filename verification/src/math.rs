//! Overflow- and underflow-checked integer arithmetic.
//!
//! Every balance-affecting transition goes through these helpers, so a
//! transition can only commit when each intermediate value fits in its
//! machine word.

use crate::error::VaultError;
use vstd::prelude::*;

verus! {

/// Checked addition: `Ok(a + b)` when the sum fits in a `u64`,
/// `Err(ArithmeticOverflow)` otherwise.
pub fn safe_add(a: u64, b: u64) -> (r: Result<u64, VaultError>)
    ensures
        a + b <= u64::MAX ==> r == Ok::<u64, VaultError>((a + b) as u64),
        a + b > u64::MAX ==> r == Err::<u64, VaultError>(VaultError::ArithmeticOverflow),
{
    match a.checked_add(b) {
        Some(v) => Ok(v),
        None => Err(VaultError::ArithmeticOverflow),
    }
}

/// Checked subtraction: `Ok(a - b)` when `a >= b`,
/// `Err(ArithmeticUnderflow)` otherwise.
pub fn safe_sub(a: u64, b: u64) -> (r: Result<u64, VaultError>)
    ensures
        a >= b ==> r == Ok::<u64, VaultError>((a - b) as u64),
        a < b ==> r == Err::<u64, VaultError>(VaultError::ArithmeticUnderflow),
{
    match a.checked_sub(b) {
        Some(v) => Ok(v),
        None => Err(VaultError::ArithmeticUnderflow),
    }
}

/// Checked signed adjustment of an unsigned balance, used for
/// profit-and-loss settlement: adds a non-negative `delta`, subtracts the
/// absolute value of a negative one, and reports overflow or underflow.
pub fn safe_add_signed(a: u64, delta: i64) -> (r: Result<u64, VaultError>)
    ensures
        r == spec_add_signed(a, delta),
{
    if delta >= 0 {
        match a.checked_add(delta as u64) {
            Some(v) => Ok(v),
            None => Err(VaultError::ArithmeticOverflow),
        }
    } else {
        let magnitude: u64 = if delta == i64::MIN {
            9_223_372_036_854_775_808
        } else {
            (-delta) as u64
        };
        match a.checked_sub(magnitude) {
            Some(v) => Ok(v),
            None => Err(VaultError::ArithmeticUnderflow),
        }
    }
}

/// What `safe_add_signed` returns: the adjusted balance when it fits in a
/// `u64`, the matching arithmetic error otherwise.
pub open spec fn spec_add_signed(a: u64, delta: i64) -> Result<u64, VaultError> {
    if delta >= 0 {
        if a + delta <= u64::MAX {
            Ok((a + delta) as u64)
        } else {
            Err(VaultError::ArithmeticOverflow)
        }
    } else {
        if a + delta >= 0 {
            Ok((a + delta) as u64)
        } else {
            Err(VaultError::ArithmeticUnderflow)
        }
    }
}

} // verus!
