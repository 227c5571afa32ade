//! Initialize: allocates the vault record of (owner, mint) at its derived
//! address and the custody token account at the address derived from the
//! record's, with the record as the custody account's transfer authority.
use vstd::prelude::*;

use crate::accounts::{bumps_rederive, Mint};
use crate::address::Address;
use crate::custody::CreateTokenAccount;
use crate::derivation::{
    custody_seeds, find_custody_address, find_vault_address, found_program_address, push_bump,
    custody_seed_list, vault_seeds, with_bump,
};
use crate::error::{ErrorCode, VaultError};
use crate::events::InitializeEvent;
use crate::vault_state::VaultState;

verus! {

/// The accounts of an initialization: the signer, the addresses given for
/// the record and the custody account with whether each is already
/// allocated, and the mint.
#[derive(Clone, Copy, Debug, PartialEq, Eq)]
pub struct Initialize {
    pub user: Address,
    pub vault_state: Address,
    pub vault_state_exists: bool,
    pub vault_account: Address,
    pub vault_account_exists: bool,
    pub mint: Mint,
}

/// A new vault: the record to store at the record's address, the custody
/// account to create, and the event to emit.
#[derive(Clone, Debug, PartialEq, Eq)]
pub struct Initialized {
    pub state: VaultState,
    pub custody: CreateTokenAccount,
    pub event: InitializeEvent,
}

/// The first check that an initialization fails, in the order they are
/// made; `None` when the vault may be created.
pub open spec fn initialize_error(program_id: Seq<u8>, accounts: Initialize) -> Option<ErrorCode> {
    match found_program_address(vault_seeds(accounts.user@, accounts.mint.key@), program_id) {
        None => Some(ErrorCode::Unauthorized),
        Some((vault, _)) => if vault != accounts.vault_state@ {
            Some(ErrorCode::Unauthorized)
        } else if accounts.vault_state_exists {
            Some(ErrorCode::VaultAlreadyExists)
        } else {
            match found_program_address(custody_seeds(vault), program_id) {
                None => Some(ErrorCode::Unauthorized),
                Some((custody, _)) => if custody != accounts.vault_account@ {
                    Some(ErrorCode::Unauthorized)
                } else if accounts.vault_account_exists {
                    Some(ErrorCode::VaultAlreadyExists)
                } else if !accounts.mint.is_initialized || accounts.mint.supply == 0 {
                    Some(ErrorCode::InvalidMint)
                } else {
                    None
                },
            }
        },
    }
}

/// The vault that a valid initialization creates: a record of the signer and
/// the mint with nothing deposited and the bumps that the searches found, and
/// a custody account for the mint under the record's authority.
pub open spec fn initialized_vault(program_id: Seq<u8>, accounts: Initialize, out: Initialized) -> bool {
    let vault_bump = found_program_address(vault_seeds(accounts.user@, accounts.mint.key@), program_id)->Some_0.1;
    let custody_bump = found_program_address(custody_seeds(accounts.vault_state@), program_id)->Some_0.1;
    &&& out.state.user == accounts.user
    &&& out.state.mint == accounts.mint.key
    &&& out.state.deposited == 0
    &&& out.state.bump == vault_bump
    &&& out.state.bump_token_account == custody_bump
    &&& out.state._padding@ == seq![0u8, 0u8, 0u8, 0u8, 0u8, 0u8]
    &&& out.custody.account == accounts.vault_account
    &&& out.custody.mint == accounts.mint.key
    &&& out.custody.authority == accounts.vault_state
    &&& out.custody.signer_seeds.deep_view() == with_bump(custody_seeds(accounts.vault_state@), custody_bump)
    &&& out.event == (InitializeEvent { owner: accounts.user, mint: accounts.mint.key })
}

/// Creates the vault of the signer for the mint: checks that the given
/// addresses are the derived ones and still free and that the mint is live,
/// then hands back the record, the custody account to create and the event.
pub fn handle_initialize(program_id: &Address, accounts: &Initialize) -> (r: Result<Initialized, VaultError>)
    ensures
        match initialize_error(program_id@, *accounts) {
            Some(e) => r == Err::<Initialized, VaultError>(VaultError::Vault(e)),
            None => r matches Ok(out) && initialized_vault(program_id@, *accounts, out),
        },
        r matches Ok(out) ==> bumps_rederive(
            program_id@,
            out.state,
            accounts.vault_state@,
            accounts.vault_account@,
        ),
{
    let (vault, vault_bump) = match find_vault_address(program_id, &accounts.user, &accounts.mint.key) {
        Some(found) => found,
        None => {
            return Err(VaultError::Vault(ErrorCode::Unauthorized));
        },
    };
    if vault != accounts.vault_state {
        return Err(VaultError::Vault(ErrorCode::Unauthorized));
    }
    if accounts.vault_state_exists {
        return Err(VaultError::Vault(ErrorCode::VaultAlreadyExists));
    }
    let (custody, custody_bump) = match find_custody_address(program_id, &vault) {
        Some(found) => found,
        None => {
            return Err(VaultError::Vault(ErrorCode::Unauthorized));
        },
    };
    if custody != accounts.vault_account {
        return Err(VaultError::Vault(ErrorCode::Unauthorized));
    }
    if accounts.vault_account_exists {
        return Err(VaultError::Vault(ErrorCode::VaultAlreadyExists));
    }
    if !accounts.mint.is_initialized || accounts.mint.supply == 0 {
        return Err(VaultError::Vault(ErrorCode::InvalidMint));
    }
    let state = VaultState::new(accounts.user, accounts.mint.key, vault_bump, custody_bump);
    let mut signer_seeds = custody_seed_list(&accounts.vault_state);
    push_bump(&mut signer_seeds, custody_bump);
    let custody = CreateTokenAccount {
        account: accounts.vault_account,
        mint: accounts.mint.key,
        authority: accounts.vault_state,
        signer_seeds,
    };
    let event = InitializeEvent { owner: accounts.user, mint: accounts.mint.key };
    Ok(Initialized { state, custody, event })
}

/// A vault is unique per (owner, mint): once an initialization has created
/// the record, a second one for the same owner and mint, at the same record
/// address now allocated, fails with `VaultAlreadyExists`.
pub proof fn lemma_initialize_unique(program_id: Seq<u8>, first: Initialize, second: Initialize)
    requires
        initialize_error(program_id, first) is None,
        second.user@ == first.user@,
        second.mint.key@ == first.mint.key@,
        second.vault_state@ == first.vault_state@,
        second.vault_state_exists,
    ensures
        initialize_error(program_id, second) == Some(ErrorCode::VaultAlreadyExists),
{
}

/// Vaults of different pairs do not interfere: an initialization whose record
/// and custody addresses are the derived ones and free, with a live mint,
/// succeeds, whatever other vaults exist.
pub proof fn lemma_initialize_free_pair(
    program_id: Seq<u8>,
    accounts: Initialize,
    vault: Seq<u8>,
    vault_bump: u8,
    custody: Seq<u8>,
    custody_bump: u8,
)
    requires
        found_program_address(vault_seeds(accounts.user@, accounts.mint.key@), program_id) == Some(
            (vault, vault_bump),
        ),
        found_program_address(custody_seeds(vault), program_id) == Some((custody, custody_bump)),
        accounts.vault_state@ == vault,
        accounts.vault_account@ == custody,
        !accounts.vault_state_exists,
        !accounts.vault_account_exists,
        accounts.mint.is_initialized,
        accounts.mint.supply > 0,
    ensures
        initialize_error(program_id, accounts) is None,
{
}

} // verus!
