//! Withdraw: the vault record, signing by its derived address, moves units
//! from custody back to the owner's token account, and the record's counter
//! shrinks by the same amount once the custody service has confirmed it.
use vstd::prelude::*;

use crate::accounts::{check_vault_accounts, vault_accounts_error, Mint, TokenAccount};
use crate::address::Address;
use crate::custody::{Authority, TransferOrder};
use crate::derivation::{vault_seeds, vault_signer_seeds, with_bump};
use crate::error::{CustodyError, ErrorCode, VaultError};
use crate::events::WithdrawEvent;
use crate::vault_state::VaultState;

verus! {

/// The accounts of a withdrawal: the signer, their token account, the vault
/// record's address, the custody token account and the mint.
#[derive(Clone, Copy, Debug, PartialEq, Eq)]
pub struct Withdraw {
    pub user: Address,
    pub user_account: TokenAccount,
    pub vault_state: Address,
    pub vault_account: TokenAccount,
    pub mint: Mint,
}

/// The first check that a withdrawal of `amount` fails, in the order they
/// are made; `None` when the transfer may be ordered.
pub open spec fn withdraw_error(
    program_id: Seq<u8>,
    state: VaultState,
    accounts: Withdraw,
    amount: u64,
) -> Option<ErrorCode> {
    match vault_accounts_error(
        program_id,
        state,
        accounts.user,
        accounts.user_account,
        accounts.vault_state,
        accounts.vault_account,
        accounts.mint,
    ) {
        Some(e) => Some(e),
        None => if amount == 0 {
            Some(ErrorCode::InvalidArgument)
        } else if amount > accounts.vault_account.amount {
            Some(ErrorCode::InsufficientBalance)
        } else {
            None
        },
    }
}

/// Whether `authority` is the vault record's derived address, proved by the
/// record's seeds and stored bump.
pub open spec fn signed_by_vault(state: VaultState, authority: Authority) -> bool {
    authority matches Authority::Vault(seeds) && seeds.deep_view() == with_bump(
        vault_seeds(state.user@, state.mint@),
        state.bump,
    )
}

/// The transfer that a valid withdrawal orders: `amount` units from custody
/// to the owner's token account, signed by the vault record.
pub open spec fn withdraw_order(state: VaultState, accounts: Withdraw, amount: u64, order: TransferOrder) -> bool {
    &&& order.from == accounts.vault_account.key
    &&& order.to == accounts.user_account.key
    &&& order.mint == state.mint
    &&& signed_by_vault(state, order.authority)
    &&& order.amount == amount
    &&& order.decimals == accounts.mint.decimals
}

/// The record after a confirmed withdrawal of `amount`: the counter shrunk
/// by `amount`, everything else as before.
pub open spec fn withdraw_applied(before: VaultState, amount: u64, after: VaultState) -> bool {
    &&& after.deposited == before.deposited - amount
    &&& after.user == before.user
    &&& after.mint == before.mint
    &&& after.bump == before.bump
    &&& after.bump_token_account == before.bump_token_account
    &&& after._padding == before._padding
}

/// Validates a withdrawal of `amount` from the vault whose record is
/// `state`, and orders the transfer out of custody. Nothing is ordered when a
/// check fails.
pub fn handler(program_id: &Address, state: &VaultState, accounts: &Withdraw, amount: u64) -> (r: Result<TransferOrder, VaultError>)
    ensures
        match withdraw_error(program_id@, *state, *accounts, amount) {
            Some(e) => r == Err::<TransferOrder, VaultError>(VaultError::Vault(e)),
            None => r matches Ok(order) && withdraw_order(*state, *accounts, amount, order),
        },
        accounts.user@ != state.user@ ==> r == Err::<TransferOrder, VaultError>(
            VaultError::Vault(ErrorCode::Unauthorized),
        ),
        amount == 0 ==> r is Err,
{
    check_vault_accounts(
        program_id,
        state,
        &accounts.user,
        &accounts.user_account,
        &accounts.vault_state,
        &accounts.vault_account,
        &accounts.mint,
    )?;
    if amount == 0 {
        return Err(VaultError::Vault(ErrorCode::InvalidArgument));
    }
    if amount > accounts.vault_account.amount {
        return Err(VaultError::Vault(ErrorCode::InsufficientBalance));
    }
    let seeds = vault_signer_seeds(&state.user, &state.mint, state.bump);
    Ok(
        TransferOrder {
            from: accounts.vault_account.key,
            to: accounts.user_account.key,
            mint: state.mint,
            authority: Authority::Vault(seeds),
            amount,
            decimals: accounts.mint.decimals,
        },
    )
}

/// Books a withdrawal of `amount` once the custody service has reported on
/// the transfer. The counter moves only when the transfer was confirmed and
/// the counter covers `amount`; otherwise the record is left as it was.
pub fn settle(state: &mut VaultState, amount: u64, outcome: Result<(), CustodyError>) -> (r: Result<WithdrawEvent, VaultError>)
    ensures
        match outcome {
            Err(e) => r == Err::<WithdrawEvent, VaultError>(VaultError::Custody(e)),
            Ok(()) => if amount > old(state).deposited {
                r == Err::<WithdrawEvent, VaultError>(VaultError::Vault(ErrorCode::MathOverflow))
            } else {
                r == Ok::<WithdrawEvent, VaultError>(
                    (WithdrawEvent { owner: old(state).user, mint: old(state).mint, amount }),
                )
            },
        },
        r is Ok ==> withdraw_applied(*old(state), amount, *final(state)),
        r is Err ==> *final(state) == *old(state),
{
    if let Err(e) = outcome {
        return Err(VaultError::Custody(e));
    }
    match state.deposited.checked_sub(amount) {
        Some(rest) => {
            state.deposited = rest;
            Ok(WithdrawEvent { owner: state.user, mint: state.mint, amount })
        },
        None => Err(VaultError::Vault(ErrorCode::MathOverflow)),
    }
}

/// A withdrawal beyond what was deposited is refused as an insufficient
/// balance, before any transfer, whenever the custody balance equals the
/// record's counter (the conservation invariant) and the accounts are in order.
pub proof fn lemma_withdraw_beyond_deposit(
    program_id: Seq<u8>,
    state: VaultState,
    accounts: Withdraw,
    amount: u64,
)
    requires
        vault_accounts_error(
            program_id,
            state,
            accounts.user,
            accounts.user_account,
            accounts.vault_state,
            accounts.vault_account,
            accounts.mint,
        ) is None,
        accounts.vault_account.amount == state.deposited,
        amount > state.deposited,
    ensures
        withdraw_error(program_id, state, accounts, amount) == Some(ErrorCode::InsufficientBalance),
{
}

} // verus!
