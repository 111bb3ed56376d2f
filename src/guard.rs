//! Checked arithmetic on the recorded balance.
use vstd::prelude::*;

use crate::vault::VaultError;

verus! {

/// The balance after crediting `amount`, or the overflow error.
pub open spec fn credited(balance: u64, amount: u64) -> Result<u64, VaultError> {
    if balance + amount <= u64::MAX {
        Ok((balance + amount) as u64)
    } else {
        Err(VaultError::ArithmeticOverflow)
    }
}

/// The balance after debiting `amount`, or the underflow error.
pub open spec fn debited(balance: u64, amount: u64) -> Result<u64, VaultError> {
    if amount <= balance {
        Ok((balance - amount) as u64)
    } else {
        Err(VaultError::ArithmeticUnderflow)
    }
}

/// Adds `amount` to `balance`; fails with `ArithmeticOverflow` when the sum
/// leaves the `u64` range.
pub fn credit(balance: u64, amount: u64) -> (r: Result<u64, VaultError>)
    ensures
        r == credited(balance, amount),
{
    match balance.checked_add(amount) {
        Some(total) => Ok(total),
        None => Err(VaultError::ArithmeticOverflow),
    }
}

/// Subtracts `amount` from `balance`; fails with `ArithmeticUnderflow` when
/// `amount` exceeds `balance`.
pub fn debit(balance: u64, amount: u64) -> (r: Result<u64, VaultError>)
    ensures
        r == debited(balance, amount),
{
    match balance.checked_sub(amount) {
        Some(rest) => Ok(rest),
        None => Err(VaultError::ArithmeticUnderflow),
    }
}

} // verus!
