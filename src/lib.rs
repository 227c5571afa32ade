//! A single-owner, single-asset custodial token vault.
//!
//! The library holds the vault's decisions: which accounts an instruction
//! accepts, which custody transfers it orders, and how the record's
//! `deposited` counter follows the confirmed transfers.
pub mod accounts;
pub mod address;
pub mod close_vault;
pub mod conservation;
pub mod custody;
pub mod deposit;
pub mod derivation;
pub mod error;
pub mod events;
pub mod initialize;
pub mod vault_state;
pub mod withdraw;
