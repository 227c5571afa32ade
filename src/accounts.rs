//! What the vault reads of the accounts handed to an instruction, and the
//! checks that every instruction on an existing vault makes of them.
use vstd::prelude::*;

use crate::address::Address;
use crate::derivation::{
    custody_address, custody_seeds, program_address, vault_address, vault_seeds, with_bump,
};
use crate::error::{ErrorCode, VaultError};
use crate::vault_state::VaultState;

verus! {

/// A token account: its address, the mint of its units, the key that may
/// move them, and its live balance.
#[derive(Clone, Copy, Debug, PartialEq, Eq)]
pub struct TokenAccount {
    pub key: Address,
    pub mint: Address,
    pub owner: Address,
    pub amount: u64,
}

/// A mint: its address, whether it was initialized, the units issued, and
/// the decimals that checked transfers state.
#[derive(Clone, Copy, Debug, PartialEq, Eq)]
pub struct Mint {
    pub key: Address,
    pub is_initialized: bool,
    pub supply: u64,
    pub decimals: u8,
}

/// Whether the record's stored bumps re-derive the record's own address and
/// its custody account's address.
pub open spec fn bumps_rederive(program_id: Seq<u8>, state: VaultState, vault_state: Seq<u8>, vault_account: Seq<u8>) -> bool {
    &&& program_address(with_bump(vault_seeds(state.user@, state.mint@), state.bump), program_id)
        == Some(vault_state)
    &&& program_address(with_bump(custody_seeds(vault_state), state.bump_token_account), program_id)
        == Some(vault_account)
}

/// The first check that the accounts of a deposit, withdrawal or closure
/// fail, in the order they are made; `None` when all pass.
pub open spec fn vault_accounts_error(
    program_id: Seq<u8>,
    state: VaultState,
    user: Address,
    user_account: TokenAccount,
    vault_state: Address,
    vault_account: TokenAccount,
    mint: Mint,
) -> Option<ErrorCode> {
    if user@ != state.user@ {
        Some(ErrorCode::Unauthorized)
    } else if mint.key@ != state.mint@ {
        Some(ErrorCode::InvalidMint)
    } else if program_address(with_bump(vault_seeds(state.user@, state.mint@), state.bump), program_id)
        != Some(vault_state@) {
        Some(ErrorCode::Unauthorized)
    } else if program_address(
        with_bump(custody_seeds(vault_state@), state.bump_token_account),
        program_id,
    ) != Some(vault_account.key@) {
        Some(ErrorCode::Unauthorized)
    } else if user_account.mint@ != state.mint@ {
        Some(ErrorCode::InvalidMint)
    } else if user_account.owner@ != user@ {
        Some(ErrorCode::Unauthorized)
    } else {
        None
    }
}

/// Checks that `user` is the record's owner, that the record and custody
/// addresses re-derive from the stored bumps, and that the owner's token
/// account holds the vault's mint and belongs to the owner.
pub fn check_vault_accounts(
    program_id: &Address,
    state: &VaultState,
    user: &Address,
    user_account: &TokenAccount,
    vault_state: &Address,
    vault_account: &TokenAccount,
    mint: &Mint,
) -> (r: Result<(), VaultError>)
    ensures
        match vault_accounts_error(
            program_id@,
            *state,
            *user,
            *user_account,
            *vault_state,
            *vault_account,
            *mint,
        ) {
            Some(e) => r == Err::<(), VaultError>(VaultError::Vault(e)),
            None => r is Ok,
        },
{
    if *user != state.user {
        return Err(VaultError::Vault(ErrorCode::Unauthorized));
    }
    if mint.key != state.mint {
        return Err(VaultError::Vault(ErrorCode::InvalidMint));
    }
    match vault_address(program_id, &state.user, &state.mint, state.bump) {
        Some(a) => {
            if a != *vault_state {
                return Err(VaultError::Vault(ErrorCode::Unauthorized));
            }
        },
        None => {
            return Err(VaultError::Vault(ErrorCode::Unauthorized));
        },
    }
    match custody_address(program_id, vault_state, state.bump_token_account) {
        Some(a) => {
            if a != vault_account.key {
                return Err(VaultError::Vault(ErrorCode::Unauthorized));
            }
        },
        None => {
            return Err(VaultError::Vault(ErrorCode::Unauthorized));
        },
    }
    if user_account.mint != state.mint {
        return Err(VaultError::Vault(ErrorCode::InvalidMint));
    }
    if user_account.owner != *user {
        return Err(VaultError::Vault(ErrorCode::Unauthorized));
    }
    Ok(())
}

/// The owner, with the record's and custody account's true addresses and a
/// token account of their own for the vault's mint, passes every account
/// check of a deposit, withdrawal or closure.
pub proof fn lemma_owner_accounts_pass(
    program_id: Seq<u8>,
    state: VaultState,
    user: Address,
    user_account: TokenAccount,
    vault_state: Address,
    vault_account: TokenAccount,
    mint: Mint,
)
    requires
        bumps_rederive(program_id, state, vault_state@, vault_account.key@),
        user@ == state.user@,
        mint.key@ == state.mint@,
        user_account.mint@ == state.mint@,
        user_account.owner@ == user@,
    ensures
        vault_accounts_error(program_id, state, user, user_account, vault_state, vault_account, mint) is None,
{
}

} // verus!
