use std::collections::HashMap;

use token_vault::accounts::{Mint, TokenAccount};
use token_vault::address::Address;
use token_vault::close_vault::{self, handle_close_vault, CloseVault};
use token_vault::custody::{Authority, TransferOrder};
use token_vault::deposit::{self, Deposit};
use token_vault::derivation::{find_custody_address, find_vault_address};
use token_vault::error::CustodyError;
use token_vault::initialize::{handle_initialize, Initialize};
use token_vault::vault_state::VaultState;
use token_vault::withdraw::{self, Withdraw};

const RESERVE: u64 = 2_039_280;
const RECORD_RESERVE: u64 = 1_503_360;
const LAMPORTS_PER_SOL: u64 = 1_000_000_000;

fn program_id() -> Address {
    let mut b = [0u8; 32];
    b[0] = 0x71;
    b[31] = 0x3a;
    Address::new(b)
}

fn key(n: u8) -> Address {
    let mut b = [n; 32];
    b[0] = 0xee;
    Address::new(b)
}

fn mint(k: Address) -> Mint {
    Mint { key: k, is_initialized: true, supply: 5_000_000_000, decimals: 9 }
}

/// Token balances by account, moved as the custody service would move them.
struct Ledger {
    balances: HashMap<[u8; 32], u64>,
}

impl Ledger {
    fn new() -> Ledger {
        Ledger { balances: HashMap::new() }
    }

    fn set(&mut self, a: Address, amount: u64) {
        self.balances.insert(a.bytes, amount);
    }

    fn get(&self, a: Address) -> u64 {
        *self.balances.get(&a.bytes).unwrap_or(&0)
    }

    fn transfer(&mut self, order: &TransferOrder) -> Result<(), CustodyError> {
        let from = self.get(order.from);
        if from < order.amount {
            return Err(CustodyError { code: 1 });
        }
        let to = self.get(order.to).checked_add(order.amount).ok_or(CustodyError { code: 14 })?;
        self.set(order.from, from - order.amount);
        self.set(order.to, to);
        Ok(())
    }
}

struct Vault {
    program: Address,
    user: Address,
    mint: Address,
    user_ata: Address,
    record: Address,
    custody: Address,
    state: VaultState,
}

fn vault_with(deposited: u64) -> Vault {
    let program = program_id();
    let user = key(1);
    let mint_key = key(2);
    let (record, bump) = find_vault_address(&program, &user, &mint_key).unwrap();
    let (custody, custody_bump) = find_custody_address(&program, &record).unwrap();
    let state = VaultState {
        user,
        mint: mint_key,
        deposited,
        bump,
        bump_token_account: custody_bump,
        _padding: [0; 6],
    };
    Vault { program, user, mint: mint_key, user_ata: key(3), record, custody, state }
}

fn token_account(k: Address, owner: Address, m: Address, amount: u64) -> TokenAccount {
    TokenAccount { key: k, mint: m, owner, amount }
}

fn deposited_of(state: &VaultState) -> u64 {
    u64::from_le_bytes(state.to_bytes()[64..72].try_into().unwrap())
}

#[test]
fn test_initialize_vault() {
    let program = program_id();
    let user = key(1);
    let token_mint = key(2);
    let (vault_state_pda, state_bump) = find_vault_address(&program, &user, &token_mint).unwrap();
    let (vault_account_pda, account_bump) = find_custody_address(&program, &vault_state_pda).unwrap();
    let accounts = Initialize {
        user,
        vault_state: vault_state_pda,
        vault_state_exists: false,
        vault_account: vault_account_pda,
        vault_account_exists: false,
        mint: mint(token_mint),
    };
    let out = handle_initialize(&program, &accounts).expect("initialize failed");
    assert_eq!(out.state.user, user);
    assert_eq!(out.state.mint, token_mint);
    assert_eq!(out.state.deposited, 0);
    assert_eq!(out.state.bump, state_bump);
    assert_eq!(out.state.bump_token_account, account_bump);
    assert_eq!(out.custody.account, vault_account_pda);
    assert_eq!(out.custody.authority, vault_state_pda);
    assert_eq!(out.event.owner, user);
    assert_eq!(out.event.mint, token_mint);
}

#[test]
fn test_deposit_vault() {
    let mut v = vault_with(0);
    let initial_user_balance = 10_000_000;
    let initial_vault_balance = 0;
    let deposit_amount = 5_000_000;
    let mut ledger = Ledger::new();
    ledger.set(v.user_ata, initial_user_balance);
    ledger.set(v.custody, initial_vault_balance);
    let accounts = Deposit {
        user: v.user,
        user_account: token_account(v.user_ata, v.user, v.mint, ledger.get(v.user_ata)),
        vault_state: v.record,
        vault_account: token_account(v.custody, v.record, v.mint, ledger.get(v.custody)),
        mint: mint(v.mint),
    };
    let order = deposit::handler(&v.program, &v.state, &accounts, deposit_amount).expect("Deposit instruction failed");
    assert_eq!(order.authority, Authority::Owner(v.user));
    let outcome = ledger.transfer(&order);
    let event = deposit::settle(&mut v.state, deposit_amount, outcome).expect("Deposit instruction failed");
    assert_eq!(event.amount, deposit_amount);

    let user_balance_after = ledger.get(v.user_ata);
    assert_eq!(user_balance_after, initial_user_balance - deposit_amount, "User token balance should decrease by deposit amount");
    let vault_balance_after = ledger.get(v.custody);
    assert_eq!(vault_balance_after, initial_vault_balance + deposit_amount, "Vault token balance should increase by deposit amount");
    assert_eq!(deposited_of(&v.state), deposit_amount, "Vault state deposited amount should be updated");
}

#[test]
fn test_withdraw_vault() {
    let existing_deposit = 8_000_000;
    let initial_user_balance = 2_000_000;
    let withdraw_amount = 1_000_000;
    let mut v = vault_with(existing_deposit);
    let mut ledger = Ledger::new();
    ledger.set(v.user_ata, initial_user_balance);
    ledger.set(v.custody, existing_deposit);
    let accounts = Withdraw {
        user: v.user,
        user_account: token_account(v.user_ata, v.user, v.mint, ledger.get(v.user_ata)),
        vault_state: v.record,
        vault_account: token_account(v.custody, v.record, v.mint, ledger.get(v.custody)),
        mint: mint(v.mint),
    };
    let order = withdraw::handler(&v.program, &v.state, &accounts, withdraw_amount).expect("Withdraw instruction failed");
    assert!(matches!(order.authority, Authority::Vault(_)));
    let outcome = ledger.transfer(&order);
    withdraw::settle(&mut v.state, withdraw_amount, outcome).expect("Withdraw instruction failed");

    let user_balance_after = ledger.get(v.user_ata);
    assert_eq!(user_balance_after, initial_user_balance + withdraw_amount, "User token balance should increase by withdraw amount");
    let vault_balance_after = ledger.get(v.custody);
    assert_eq!(vault_balance_after, existing_deposit - withdraw_amount, "Vault token balance should decrease by withdraw amount");
    assert_eq!(deposited_of(&v.state), existing_deposit - withdraw_amount, "Vault state deposited amount should be updated");
}

#[test]
fn test_close_vault() {
    let remaining_deposit = 1_500_000;
    let initial_user_balance = 8_500_000;
    let v = vault_with(remaining_deposit);
    let mut ledger = Ledger::new();
    ledger.set(v.user_ata, initial_user_balance);
    ledger.set(v.custody, remaining_deposit);
    let mut lamports: HashMap<[u8; 32], u64> = HashMap::new();
    let initial_user_lamports = LAMPORTS_PER_SOL;
    lamports.insert(v.user.bytes, initial_user_lamports);
    lamports.insert(v.record.bytes, RECORD_RESERVE);
    lamports.insert(v.custody.bytes, RESERVE);

    let accounts = CloseVault {
        user: v.user,
        user_account: token_account(v.user_ata, v.user, v.mint, ledger.get(v.user_ata)),
        vault_state: v.record,
        vault_account: token_account(v.custody, v.record, v.mint, ledger.get(v.custody)),
        mint: mint(v.mint),
    };
    let plan = handle_close_vault(&v.program, &v.state, &accounts).expect("Close vault instruction failed");
    let outcome = ledger.transfer(&plan.sweep).and_then(|_| {
        let freed = lamports.remove(&plan.close_custody.account.bytes).unwrap();
        *lamports.get_mut(&plan.close_custody.destination.bytes).unwrap() += freed;
        Ok(())
    });
    let mut record = Some(v.state);
    close_vault::settle(&mut record, outcome).expect("Close vault instruction failed");
    let freed = lamports.remove(&plan.record.bytes).unwrap();
    *lamports.get_mut(&plan.record_reserve_to.bytes).unwrap() += freed;

    let user_balance_after = ledger.get(v.user_ata);
    assert_eq!(user_balance_after, initial_user_balance + remaining_deposit, "User should receive all remaining tokens from vault");
    assert!(record.is_none(), "Vault state account should be closed");
    assert!(lamports.get(&v.record.bytes).is_none(), "Vault state account should be closed");
    assert!(lamports.get(&v.custody.bytes).is_none(), "Vault token account should be closed");
    assert_eq!(
        lamports[&v.user.bytes],
        initial_user_lamports + RECORD_RESERVE + RESERVE,
        "User should receive rent from closed accounts"
    );
}

#[test]
fn round_trip_keeps_counter_and_custody_equal() {
    let program = program_id();
    let user = key(10);
    let m = key(11);
    let user_ata = key(12);
    let (record, _) = find_vault_address(&program, &user, &m).unwrap();
    let (custody, _) = find_custody_address(&program, &record).unwrap();
    let init = Initialize {
        user,
        vault_state: record,
        vault_state_exists: false,
        vault_account: custody,
        vault_account_exists: false,
        mint: mint(m),
    };
    let mut state = handle_initialize(&program, &init).unwrap().state;
    let mut ledger = Ledger::new();
    ledger.set(user_ata, 1_000_000);
    ledger.set(custody, 0);

    let d = Deposit {
        user,
        user_account: token_account(user_ata, user, m, ledger.get(user_ata)),
        vault_state: record,
        vault_account: token_account(custody, record, m, ledger.get(custody)),
        mint: mint(m),
    };
    let order = deposit::handler(&program, &state, &d, 500_000).unwrap();
    let outcome = ledger.transfer(&order);
    deposit::settle(&mut state, 500_000, outcome).unwrap();
    assert_eq!(state.deposited, ledger.get(custody));

    let w = Withdraw {
        user,
        user_account: token_account(user_ata, user, m, ledger.get(user_ata)),
        vault_state: record,
        vault_account: token_account(custody, record, m, ledger.get(custody)),
        mint: mint(m),
    };
    let order = withdraw::handler(&program, &state, &w, 250_000).unwrap();
    let outcome = ledger.transfer(&order);
    withdraw::settle(&mut state, 250_000, outcome).unwrap();

    assert_eq!(state.deposited, 250_000);
    assert_eq!(ledger.get(custody), 250_000);
    assert_eq!(ledger.get(user_ata), 750_000);
}

#[test]
fn close_sweeps_whole_custody_balance() {
    let v = vault_with(1_500_000);
    let accounts = CloseVault {
        user: v.user,
        user_account: token_account(v.user_ata, v.user, v.mint, 0),
        vault_state: v.record,
        vault_account: token_account(v.custody, v.record, v.mint, 1_500_000),
        mint: mint(v.mint),
    };
    let plan = handle_close_vault(&v.program, &v.state, &accounts).unwrap();
    assert_eq!(plan.sweep.amount, 1_500_000);
    assert_eq!(plan.sweep.from, v.custody);
    assert_eq!(plan.sweep.to, v.user_ata);
    assert_eq!(plan.close_custody.account, v.custody);
    assert_eq!(plan.close_custody.destination, v.user);
    assert_eq!(plan.record, v.record);
    assert_eq!(plan.record_reserve_to, v.user);
    let mut record = Some(v.state);
    let event = close_vault::settle(&mut record, Ok(())).unwrap();
    assert!(record.is_none());
    assert_eq!(event.owner, v.user);
    assert_eq!(event.mint, v.mint);
}
