//! The movements that the vault orders from the custody service (the token
//! program). The vault decides them; the host carries them out and reports
//! the outcome back.
use vstd::prelude::*;

use crate::address::Address;

verus! {

/// Who authorizes a movement: the owner's own signature, or the vault
/// record's derived address, proved by the seeds (bump included) that derive it.
#[derive(Clone, Debug, PartialEq, Eq)]
pub enum Authority {
    Owner(Address),
    Vault(Vec<Vec<u8>>),
}

/// A checked transfer of `amount` units of `mint` from one token account to another.
#[derive(Clone, Debug, PartialEq, Eq)]
pub struct TransferOrder {
    pub from: Address,
    pub to: Address,
    pub mint: Address,
    pub authority: Authority,
    pub amount: u64,
    pub decimals: u8,
}

/// Closing a token account, its reserve going to `destination`.
#[derive(Clone, Debug, PartialEq, Eq)]
pub struct CloseOrder {
    pub account: Address,
    pub destination: Address,
    pub authority: Authority,
}

/// Creating the custody token account at its derived address, `signer_seeds`
/// proving that address, with the vault record as its transfer authority.
#[derive(Clone, Debug, PartialEq, Eq)]
pub struct CreateTokenAccount {
    pub account: Address,
    pub mint: Address,
    pub authority: Address,
    pub signer_seeds: Vec<Vec<u8>>,
}

} // verus!
