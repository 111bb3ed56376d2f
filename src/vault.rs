//! The vault record and the operations on it.
//!
//! Deposits and withdrawals each take two calls. The `plan_*` call decides,
//! before anything irreversible happens, whether the operation may go ahead,
//! and names the external transfer to issue. The settling call (`add_funds`,
//! `remove_funds`) takes what the custody ledger reported and updates the
//! record; on any failure the record is left as it was.
use vstd::prelude::*;

use crate::guard::{credit, credited, debit, debited};

verus! {

/// A 32-byte identity: of a principal, of a vault record, or of a holding on
/// the custody ledger.
#[derive(Clone, Copy, Debug, PartialEq, Eq)]
pub struct AccountKey {
    pub bytes: [u8; 32],
}

/// Why an operation did not take effect.
#[derive(Clone, Copy, Debug, PartialEq, Eq, Structural)]
pub enum VaultError {
    /// A withdrawal asked for more than the recorded balance.
    InsufficientBalance,
    /// A credit would take the balance past `u64::MAX`.
    ArithmeticOverflow,
    /// A debit would take the balance below zero.
    ArithmeticUnderflow,
    /// The custody ledger reported that the transfer did not happen.
    ExternalTransferFailed,
}

/// What the custody ledger reported of a transfer.
#[derive(Clone, Copy, Debug, PartialEq, Eq, Structural)]
pub enum TransferOutcome {
    /// The whole amount moved.
    Completed,
    /// Nothing moved.
    Failed,
}

/// The persistent record of one vault.
#[derive(Debug, PartialEq, Eq)]
pub struct Vault {
    /// The principal that created the vault; never reassigned.
    pub admin: AccountKey,
    /// A label chosen at creation; never changed.
    pub name: String,
    /// Value that the custody ledger holds for this vault, as recorded here.
    pub total_balance: u64,
}

/// The identities that take part in creating a vault.
#[derive(Clone, Copy, Debug, PartialEq, Eq)]
pub struct InitializeVault {
    /// The address the environment assigned to the new record.
    pub vault: AccountKey,
    /// The authenticated caller, who becomes the admin.
    pub admin: AccountKey,
}

/// The identities that take part in a deposit.
#[derive(Clone, Copy, Debug, PartialEq, Eq)]
pub struct AddFunds {
    pub vault: AccountKey,
    /// The authenticated depositor.
    pub user: AccountKey,
    /// The depositor's holding, debited by the transfer.
    pub user_token_account: AccountKey,
    /// The vault's holding, credited by the transfer.
    pub vault_token_account: AccountKey,
    pub token_mint: AccountKey,
}

/// The identities that take part in a withdrawal.
#[derive(Clone, Copy, Debug, PartialEq, Eq)]
pub struct RemoveFunds {
    pub vault: AccountKey,
    /// The recipient.
    pub user: AccountKey,
    /// The vault's holding, debited by the transfer.
    pub vault_token_account: AccountKey,
    /// The recipient's holding, credited by the transfer.
    pub user_token_account: AccountKey,
    pub token_mint: AccountKey,
}

/// A transfer for the custody ledger to perform.
#[derive(Clone, Copy, Debug, PartialEq, Eq)]
pub struct Transfer {
    pub from: AccountKey,
    pub to: AccountKey,
    /// The principal that authorises the debit of `from`.
    pub authority: AccountKey,
    pub amount: u64,
}

/// The transfer a deposit asks for: from the depositor's holding to the
/// vault's, authorised by the depositor.
pub open spec fn deposit_transfer(accounts: AddFunds, amount: u64) -> Transfer {
    Transfer {
        from: accounts.user_token_account,
        to: accounts.vault_token_account,
        authority: accounts.user,
        amount,
    }
}

/// The transfer a withdrawal asks for: from the vault's holding to the
/// recipient's, authorised by the vault itself.
pub open spec fn withdrawal_transfer(accounts: RemoveFunds, amount: u64) -> Transfer {
    Transfer {
        from: accounts.vault_token_account,
        to: accounts.user_token_account,
        authority: accounts.vault,
        amount,
    }
}

/// The new balance of a whole deposit, or its error. The credit is checked
/// before the transfer is issued, so an overflow is reported whatever the
/// ledger would have done.
pub open spec fn deposit_result(balance: u64, amount: u64, outcome: TransferOutcome) -> Result<
    u64,
    VaultError,
> {
    match credited(balance, amount) {
        Ok(total) => if outcome == TransferOutcome::Completed {
            Ok(total)
        } else {
            Err(VaultError::ExternalTransferFailed)
        },
        Err(e) => Err(e),
    }
}

/// The new balance of a whole withdrawal, or its error. The sufficiency check
/// comes before the transfer is issued.
pub open spec fn withdraw_result(balance: u64, amount: u64, outcome: TransferOutcome) -> Result<
    u64,
    VaultError,
> {
    if amount > balance {
        Err(VaultError::InsufficientBalance)
    } else if outcome == TransferOutcome::Failed {
        Err(VaultError::ExternalTransferFailed)
    } else {
        debited(balance, amount)
    }
}

/// The balance left after an operation with this result: the new one on
/// success, the old one on failure.
pub open spec fn balance_after(result: Result<u64, VaultError>, balance: u64) -> u64 {
    match result {
        Ok(total) => total,
        Err(_) => balance,
    }
}

/// What a settling call returns for an operation with this result.
pub open spec fn settled(result: Result<u64, VaultError>) -> Result<(), VaultError> {
    match result {
        Ok(_) => Ok(()),
        Err(e) => Err(e),
    }
}

/// Creates the record of a new vault: the caller is its admin, the balance
/// is zero.
pub fn initialize_vault(accounts: &InitializeVault, vault_name: String) -> (v: Vault)
    ensures
        v.admin == accounts.admin,
        v.name == vault_name,
        v.total_balance == 0,
{
    Vault { admin: accounts.admin, name: vault_name, total_balance: 0 }
}

/// Decides a deposit before any value moves: the transfer to issue, or
/// `ArithmeticOverflow` when crediting `amount` would overflow the balance.
pub fn plan_add_funds(vault: &Vault, accounts: &AddFunds, amount: u64) -> (r: Result<
    Transfer,
    VaultError,
>)
    ensures
        credited(vault.total_balance, amount) is Ok ==> r == Ok::<Transfer, VaultError>(
            deposit_transfer(*accounts, amount),
        ),
        credited(vault.total_balance, amount) is Err ==> r == Err::<Transfer, VaultError>(
            VaultError::ArithmeticOverflow,
        ),
{
    match credit(vault.total_balance, amount) {
        Ok(_) => Ok(
            Transfer {
                from: accounts.user_token_account,
                to: accounts.vault_token_account,
                authority: accounts.user,
                amount,
            },
        ),
        Err(e) => Err(e),
    }
}

/// Settles a deposit of `amount` whose transfer ended with `outcome`: credits
/// the record when the transfer completed and the credit fits, and leaves it
/// unchanged otherwise.
pub fn add_funds(vault: &mut Vault, amount: u64, outcome: TransferOutcome) -> (r: Result<
    (),
    VaultError,
>)
    ensures
        r == settled(deposit_result(old(vault).total_balance, amount, outcome)),
        final(vault).total_balance == balance_after(
            deposit_result(old(vault).total_balance, amount, outcome),
            old(vault).total_balance,
        ),
        final(vault).admin == old(vault).admin,
        final(vault).name == old(vault).name,
{
    let total = match credit(vault.total_balance, amount) {
        Ok(total) => total,
        Err(e) => return Err(e),
    };
    match outcome {
        TransferOutcome::Completed => {
            vault.total_balance = total;
            Ok(())
        },
        TransferOutcome::Failed => Err(VaultError::ExternalTransferFailed),
    }
}

/// Decides a withdrawal before any value moves: the transfer to issue, or
/// `InsufficientBalance` when `amount` exceeds the recorded balance.
pub fn plan_remove_funds(vault: &Vault, accounts: &RemoveFunds, amount: u64) -> (r: Result<
    Transfer,
    VaultError,
>)
    ensures
        amount <= vault.total_balance ==> r == Ok::<Transfer, VaultError>(
            withdrawal_transfer(*accounts, amount),
        ),
        amount > vault.total_balance ==> r == Err::<Transfer, VaultError>(
            VaultError::InsufficientBalance,
        ),
{
    if amount > vault.total_balance {
        return Err(VaultError::InsufficientBalance);
    }
    Ok(
        Transfer {
            from: accounts.vault_token_account,
            to: accounts.user_token_account,
            authority: accounts.vault,
            amount,
        },
    )
}

/// Settles a withdrawal of `amount` whose transfer ended with `outcome`:
/// debits the record when the balance covers `amount` and the transfer
/// completed, and leaves it unchanged otherwise.
pub fn remove_funds(vault: &mut Vault, amount: u64, outcome: TransferOutcome) -> (r: Result<
    (),
    VaultError,
>)
    ensures
        r == settled(withdraw_result(old(vault).total_balance, amount, outcome)),
        final(vault).total_balance == balance_after(
            withdraw_result(old(vault).total_balance, amount, outcome),
            old(vault).total_balance,
        ),
        final(vault).admin == old(vault).admin,
        final(vault).name == old(vault).name,
{
    if amount > vault.total_balance {
        return Err(VaultError::InsufficientBalance);
    }
    if outcome == TransferOutcome::Failed {
        return Err(VaultError::ExternalTransferFailed);
    }
    match debit(vault.total_balance, amount) {
        Ok(rest) => {
            vault.total_balance = rest;
            Ok(())
        },
        Err(e) => Err(e),
    }
}

} // verus!
