//! Properties of sequences of operations on one vault record.
//!
//! Operations on one record run one after another (each settling call takes
//! the record by `&mut`), so a sequence of them is described by feeding each
//! operation the balance that the previous one left.
use vstd::prelude::*;

use crate::vault::{balance_after, deposit_result, withdraw_result, TransferOutcome, VaultError};

verus! {

/// One operation on a vault and what the custody ledger reported of its
/// transfer.
pub enum Operation {
    Deposit { amount: u64, outcome: TransferOutcome },
    Withdrawal { amount: u64, outcome: TransferOutcome },
}

/// The result of one operation on a record holding `balance`.
pub open spec fn operation_result(balance: u64, op: Operation) -> Result<u64, VaultError> {
    match op {
        Operation::Deposit { amount, outcome } => deposit_result(balance, amount, outcome),
        Operation::Withdrawal { amount, outcome } => withdraw_result(balance, amount, outcome),
    }
}

/// The balance after running `ops` in order from `balance`.
pub open spec fn replay(balance: u64, ops: Seq<Operation>) -> u64
    decreases ops.len(),
{
    if ops.len() == 0 {
        balance
    } else {
        replay(balance_after(operation_result(balance, ops[0]), balance), ops.drop_first())
    }
}

/// The signed amount that one operation moved into the vault's holding:
/// nothing when it failed.
pub open spec fn moved(balance: u64, op: Operation) -> int {
    if operation_result(balance, op) is Ok {
        match op {
            Operation::Deposit { amount, .. } => amount as int,
            Operation::Withdrawal { amount, .. } => -(amount as int),
        }
    } else {
        0
    }
}

/// The net amount that running `ops` from `balance` moved into the vault's
/// holding.
pub open spec fn net_moved(balance: u64, ops: Seq<Operation>) -> int
    decreases ops.len(),
{
    if ops.len() == 0 {
        0
    } else {
        let next = balance_after(operation_result(balance, ops[0]), balance);
        moved(balance, ops[0]) + net_moved(next, ops.drop_first())
    }
}

/// The balance after `n` completed deposits of `amount` from `balance`.
pub open spec fn repeated_deposits(balance: u64, amount: u64, n: nat) -> u64
    decreases n,
{
    if n == 0 {
        balance
    } else {
        let before = repeated_deposits(balance, amount, (n - 1) as nat);
        balance_after(deposit_result(before, amount, TransferOutcome::Completed), before)
    }
}

/// A deposit that succeeds, followed by a completed withdrawal of the same
/// amount, succeeds and restores the balance.
pub proof fn lemma_deposit_then_withdraw(balance: u64, amount: u64)
    requires
        deposit_result(balance, amount, TransferOutcome::Completed) is Ok,
    ensures
        withdraw_result(
            balance_after(deposit_result(balance, amount, TransferOutcome::Completed), balance),
            amount,
            TransferOutcome::Completed,
        ) == Ok::<u64, VaultError>(balance),
{
}

/// A withdrawal of more than the balance fails with `InsufficientBalance`
/// whatever the ledger would report, and a withdrawal that succeeds never
/// took more than the balance.
pub proof fn lemma_withdraw_within_balance(balance: u64, amount: u64, outcome: TransferOutcome)
    ensures
        amount > balance ==> withdraw_result(balance, amount, outcome) == Err::<u64, VaultError>(
            VaultError::InsufficientBalance,
        ),
        withdraw_result(balance, amount, outcome) is Ok ==> amount <= balance,
{
}

/// Over any sequence of operations the recorded balance equals the starting
/// balance plus the net amount that was moved, and so never falls below zero
/// nor rises past `u64::MAX`.
pub proof fn lemma_balance_tracks_transfers(balance: u64, ops: Seq<Operation>)
    ensures
        replay(balance, ops) == balance + net_moved(balance, ops),
        0 <= balance + net_moved(balance, ops) <= u64::MAX,
    decreases ops.len(),
{
    if ops.len() > 0 {
        let next = balance_after(operation_result(balance, ops[0]), balance);
        lemma_balance_tracks_transfers(next, ops.drop_first());
    }
}

/// `n` completed deposits of `amount` add `n * amount` as long as that fits in
/// a `u64`; a deposit that would overflow fails with `ArithmeticOverflow` and
/// leaves the balance as it was, however often it is repeated.
pub proof fn lemma_repeated_deposits(balance: u64, amount: u64, n: nat)
    ensures
        balance + n * amount <= u64::MAX ==> repeated_deposits(balance, amount, n) == balance + n
            * amount,
        balance + amount > u64::MAX ==> deposit_result(balance, amount, TransferOutcome::Completed)
            == Err::<u64, VaultError>(VaultError::ArithmeticOverflow),
        balance + amount > u64::MAX ==> repeated_deposits(balance, amount, n) == balance,
    decreases n,
{
    if n > 0 {
        let m = (n - 1) as nat;
        lemma_repeated_deposits(balance, amount, m);
        assert(m * amount + amount == n * amount) by (nonlinear_arith)
            requires
                m == n - 1,
        ;
        assert(m * amount <= n * amount) by (nonlinear_arith)
            requires
                m == n - 1,
        ;
        let before = repeated_deposits(balance, amount, m);
        assert(repeated_deposits(balance, amount, n) == balance_after(
            deposit_result(before, amount, TransferOutcome::Completed),
            before,
        ));
    }
}

/// Two withdrawals on one record see each other's effect: when both succeed,
/// together they took no more than the balance, and exactly both amounts are
/// gone.
pub proof fn lemma_serialized_withdrawals(
    balance: u64,
    first: u64,
    first_outcome: TransferOutcome,
    second: u64,
    second_outcome: TransferOutcome,
)
    requires
        withdraw_result(balance, first, first_outcome) is Ok,
        withdraw_result(
            balance_after(withdraw_result(balance, first, first_outcome), balance),
            second,
            second_outcome,
        ) is Ok,
    ensures
        first + second <= balance,
        balance_after(
            withdraw_result(
                balance_after(withdraw_result(balance, first, first_outcome), balance),
                second,
                second_outcome,
            ),
            balance,
        ) == balance - first - second,
{
}

} // verus!
