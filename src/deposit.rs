//! Deposit: the owner moves units from their token account into custody,
//! and the record's counter grows by the same amount once the custody
//! service has confirmed the transfer.
use vstd::prelude::*;

use crate::accounts::{check_vault_accounts, vault_accounts_error, Mint, TokenAccount};
use crate::address::Address;
use crate::custody::{Authority, TransferOrder};
use crate::error::{CustodyError, ErrorCode, VaultError};
use crate::events::DepositEvent;
use crate::vault_state::VaultState;

verus! {

/// The accounts of a deposit: the signer, their token account, the vault
/// record's address, the custody token account and the mint.
#[derive(Clone, Copy, Debug, PartialEq, Eq)]
pub struct Deposit {
    pub user: Address,
    pub user_account: TokenAccount,
    pub vault_state: Address,
    pub vault_account: TokenAccount,
    pub mint: Mint,
}

/// The first check that a deposit of `amount` fails, in the order they are
/// made; `None` when the transfer may be ordered.
pub open spec fn deposit_error(
    program_id: Seq<u8>,
    state: VaultState,
    accounts: Deposit,
    amount: u64,
) -> Option<ErrorCode> {
    match vault_accounts_error(
        program_id,
        state,
        accounts.user,
        accounts.user_account,
        accounts.vault_state,
        accounts.vault_account,
        accounts.mint,
    ) {
        Some(e) => Some(e),
        None => if amount == 0 {
            Some(ErrorCode::InvalidArgument)
        } else if accounts.user_account.amount < amount {
            Some(ErrorCode::InsufficientBalance)
        } else if state.deposited + amount > u64::MAX {
            Some(ErrorCode::MathOverflow)
        } else {
            None
        },
    }
}

/// The transfer that a valid deposit orders: `amount` units from the owner's
/// token account into custody, on the owner's own signature.
pub open spec fn deposit_order(state: VaultState, accounts: Deposit, amount: u64, order: TransferOrder) -> bool {
    &&& order.from == accounts.user_account.key
    &&& order.to == accounts.vault_account.key
    &&& order.mint == state.mint
    &&& order.authority == Authority::Owner(accounts.user)
    &&& order.amount == amount
    &&& order.decimals == accounts.mint.decimals
}

/// The record after a confirmed deposit of `amount`: the counter grown by
/// `amount`, everything else as before.
pub open spec fn deposit_applied(before: VaultState, amount: u64, after: VaultState) -> bool {
    &&& after.deposited == before.deposited + amount
    &&& after.user == before.user
    &&& after.mint == before.mint
    &&& after.bump == before.bump
    &&& after.bump_token_account == before.bump_token_account
    &&& after._padding == before._padding
}

/// Validates a deposit of `amount` into the vault whose record is `state`,
/// and orders the transfer into custody. Nothing is ordered when a check fails.
pub fn handler(program_id: &Address, state: &VaultState, accounts: &Deposit, amount: u64) -> (r: Result<TransferOrder, VaultError>)
    ensures
        match deposit_error(program_id@, *state, *accounts, amount) {
            Some(e) => r == Err::<TransferOrder, VaultError>(VaultError::Vault(e)),
            None => r matches Ok(order) && deposit_order(*state, *accounts, amount, order),
        },
        accounts.user@ != state.user@ ==> r == Err::<TransferOrder, VaultError>(
            VaultError::Vault(ErrorCode::Unauthorized),
        ),
        amount == 0 ==> r is Err,
{
    check_vault_accounts(
        program_id,
        state,
        &accounts.user,
        &accounts.user_account,
        &accounts.vault_state,
        &accounts.vault_account,
        &accounts.mint,
    )?;
    if amount == 0 {
        return Err(VaultError::Vault(ErrorCode::InvalidArgument));
    }
    if accounts.user_account.amount < amount {
        return Err(VaultError::Vault(ErrorCode::InsufficientBalance));
    }
    if state.deposited > u64::MAX - amount {
        return Err(VaultError::Vault(ErrorCode::MathOverflow));
    }
    Ok(
        TransferOrder {
            from: accounts.user_account.key,
            to: accounts.vault_account.key,
            mint: state.mint,
            authority: Authority::Owner(accounts.user),
            amount,
            decimals: accounts.mint.decimals,
        },
    )
}

/// Books a deposit of `amount` once the custody service has reported on the
/// transfer. The counter moves only when the transfer was confirmed and the
/// new count fits; otherwise the record is left as it was.
pub fn settle(state: &mut VaultState, amount: u64, outcome: Result<(), CustodyError>) -> (r: Result<DepositEvent, VaultError>)
    ensures
        match outcome {
            Err(e) => r == Err::<DepositEvent, VaultError>(VaultError::Custody(e)),
            Ok(()) => if old(state).deposited + amount > u64::MAX {
                r == Err::<DepositEvent, VaultError>(VaultError::Vault(ErrorCode::MathOverflow))
            } else {
                r == Ok::<DepositEvent, VaultError>(
                    (DepositEvent { owner: old(state).user, mint: old(state).mint, amount }),
                )
            },
        },
        r is Ok ==> deposit_applied(*old(state), amount, *final(state)),
        r is Err ==> *final(state) == *old(state),
{
    if let Err(e) = outcome {
        return Err(VaultError::Custody(e));
    }
    match state.deposited.checked_add(amount) {
        Some(total) => {
            state.deposited = total;
            Ok(DepositEvent { owner: state.user, mint: state.mint, amount })
        },
        None => Err(VaultError::Vault(ErrorCode::MathOverflow)),
    }
}

} // verus!
