//! Close: the whole custody balance goes back to the owner, then the custody
//! account and the vault record are torn down, their reserves going to the
//! owner. The record goes last, and only once custody has confirmed both.
use vstd::prelude::*;

use crate::accounts::{check_vault_accounts, vault_accounts_error, Mint, TokenAccount};
use crate::address::Address;
use crate::custody::{Authority, CloseOrder, TransferOrder};
use crate::derivation::vault_signer_seeds;
use crate::error::{CustodyError, ErrorCode, VaultError};
use crate::events::CloseEvent;
use crate::vault_state::VaultState;
use crate::withdraw::signed_by_vault;

verus! {

/// The accounts of a closure: the signer, their token account, the vault
/// record's address, the custody token account and the mint.
#[derive(Clone, Copy, Debug, PartialEq, Eq)]
pub struct CloseVault {
    pub user: Address,
    pub user_account: TokenAccount,
    pub vault_state: Address,
    pub vault_account: TokenAccount,
    pub mint: Mint,
}

/// What a closure asks of the host, in order: sweep custody into the owner's
/// token account, close the custody account, then release the vault record,
/// its reserve going to `record_reserve_to`.
#[derive(Clone, Debug, PartialEq, Eq)]
pub struct ClosePlan {
    pub sweep: TransferOrder,
    pub close_custody: CloseOrder,
    pub record: Address,
    pub record_reserve_to: Address,
}

pub open spec fn close_error(program_id: Seq<u8>, state: VaultState, accounts: CloseVault) -> Option<ErrorCode> {
    vault_accounts_error(
        program_id,
        state,
        accounts.user,
        accounts.user_account,
        accounts.vault_state,
        accounts.vault_account,
        accounts.mint,
    )
}

/// The plan of a valid closure: the entire live custody balance to the
/// owner, then both accounts closed to the owner, the vault signing.
pub open spec fn close_plan(state: VaultState, accounts: CloseVault, plan: ClosePlan) -> bool {
    &&& plan.sweep.from == accounts.vault_account.key
    &&& plan.sweep.to == accounts.user_account.key
    &&& plan.sweep.mint == state.mint
    &&& signed_by_vault(state, plan.sweep.authority)
    &&& plan.sweep.amount == accounts.vault_account.amount
    &&& plan.sweep.decimals == accounts.mint.decimals
    &&& plan.close_custody.account == accounts.vault_account.key
    &&& plan.close_custody.destination == accounts.user
    &&& signed_by_vault(state, plan.close_custody.authority)
    &&& plan.record == accounts.vault_state
    &&& plan.record_reserve_to == accounts.user
}

/// Validates the closure of the vault whose record is `state` and plans the
/// teardown. Nothing is ordered when a check fails.
pub fn handle_close_vault(program_id: &Address, state: &VaultState, accounts: &CloseVault) -> (r: Result<ClosePlan, VaultError>)
    ensures
        match close_error(program_id@, *state, *accounts) {
            Some(e) => r == Err::<ClosePlan, VaultError>(VaultError::Vault(e)),
            None => r matches Ok(plan) && close_plan(*state, *accounts, plan),
        },
        accounts.user@ != state.user@ ==> r == Err::<ClosePlan, VaultError>(
            VaultError::Vault(ErrorCode::Unauthorized),
        ),
{
    check_vault_accounts(
        program_id,
        state,
        &accounts.user,
        &accounts.user_account,
        &accounts.vault_state,
        &accounts.vault_account,
        &accounts.mint,
    )?;
    let sweep = TransferOrder {
        from: accounts.vault_account.key,
        to: accounts.user_account.key,
        mint: state.mint,
        authority: Authority::Vault(vault_signer_seeds(&state.user, &state.mint, state.bump)),
        amount: accounts.vault_account.amount,
        decimals: accounts.mint.decimals,
    };
    let close_custody = CloseOrder {
        account: accounts.vault_account.key,
        destination: accounts.user,
        authority: Authority::Vault(vault_signer_seeds(&state.user, &state.mint, state.bump)),
    };
    Ok(ClosePlan { sweep, close_custody, record: accounts.vault_state, record_reserve_to: accounts.user })
}

/// Tears the vault record down once the custody service has reported on the
/// sweep and the custody account's closure (`outcome` is the first failure of
/// the two, if any). On failure the record stays as it was.
pub fn settle(record: &mut Option<VaultState>, outcome: Result<(), CustodyError>) -> (r: Result<CloseEvent, VaultError>)
    requires
        *old(record) is Some,
    ensures
        match outcome {
            Err(e) => r == Err::<CloseEvent, VaultError>(VaultError::Custody(e)) && *final(record)
                == *old(record),
            Ok(()) => r == Ok::<CloseEvent, VaultError>(
                (CloseEvent { owner: old(record).unwrap().user, mint: old(record).unwrap().mint }),
            ) && *final(record) is None,
        },
{
    if let Err(e) = outcome {
        return Err(VaultError::Custody(e));
    }
    let state = record.take().unwrap();
    Ok(CloseEvent { owner: state.user, mint: state.mint })
}

} // verus!
