//! Notifications emitted after each successful instruction.
use vstd::prelude::*;

use crate::address::Address;

verus! {

#[derive(Clone, Copy, Debug, PartialEq, Eq)]
pub struct InitializeEvent {
    pub owner: Address,
    pub mint: Address,
}

#[derive(Clone, Copy, Debug, PartialEq, Eq)]
pub struct DepositEvent {
    pub owner: Address,
    pub mint: Address,
    pub amount: u64,
}

#[derive(Clone, Copy, Debug, PartialEq, Eq)]
pub struct WithdrawEvent {
    pub owner: Address,
    pub mint: Address,
    pub amount: u64,
}

#[derive(Clone, Copy, Debug, PartialEq, Eq)]
pub struct CloseEvent {
    pub owner: Address,
    pub mint: Address,
}

} // verus!
