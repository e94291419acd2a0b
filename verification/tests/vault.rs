use anchor_lang::prelude::{Pubkey, Rent};
use vault_program::pda::{find_state_address, find_vault_address, state_address_with_bump, vault_address_with_bump};
use vault_program::vault_program as program;
use vault_program::{
    Address, CustomError, StateAccount, VaultAccounts, VaultError, VaultState, WalletAccount,
    ANCHOR_DISCRIMINATOR_SIZE, VAULT_SEED,
};

const LAMPORTS_PER_SOL: u64 = 1_000_000_000;

fn sol(amount: u64) -> u64 {
    amount.checked_mul(LAMPORTS_PER_SOL).unwrap()
}

fn state_rent() -> u64 {
    Rent::default().minimum_balance(ANCHOR_DISCRIMINATOR_SIZE + VaultState::INIT_SPACE)
}

fn vault_rent() -> u64 {
    Rent::default().minimum_balance(0)
}

fn wallet(seed: u8, lamports: u64) -> WalletAccount {
    WalletAccount { key: Address::new_from_array([seed; 32]), lamports }
}

fn derive_accounts(authority: &Address) -> (Address, u8, Address, u8) {
    let program_id = program::id();
    let (vault_state, state_bump) = find_state_address(authority, &program_id).unwrap();
    let (vault, vault_bump) = find_vault_address(&vault_state, &program_id).unwrap();
    (vault_state, state_bump, vault, vault_bump)
}

/// A user with 10 SOL and the (not yet created) accounts of the user's vault.
fn setup() -> VaultAccounts {
    let user = wallet(7, sol(10));
    let (vault_state, _, vault, _) = derive_accounts(&user.key);
    VaultAccounts {
        authority: user,
        vault_state: StateAccount { key: vault_state, lamports: 0, data: None },
        vault: WalletAccount { key: vault, lamports: 0 },
    }
}

/// The same vault, with another signer.
fn signed_by(accounts: &VaultAccounts, signer: WalletAccount) -> VaultAccounts {
    VaultAccounts { authority: signer, vault_state: accounts.vault_state, vault: accounts.vault }
}

fn opened() -> VaultAccounts {
    let mut accounts = setup();
    program::initialize(&program::id(), &mut accounts, state_rent()).unwrap();
    accounts
}

#[test]
fn test_initialize_deposit_withdraw_close() {
    let mut accounts = setup();
    let (_, state_bump, _, vault_bump) = derive_accounts(&accounts.authority.key);

    // Initialize
    program::initialize(&program::id(), &mut accounts, state_rent()).unwrap();
    let state = accounts.vault_state.data.unwrap();
    assert_eq!(state.authority, accounts.authority.key);
    assert_eq!(state.state_bump, state_bump);
    assert_eq!(state.vault_bump, vault_bump);

    // Deposit
    const DEPOSIT_SOL: u64 = 5_000_000_000;
    program::deposit(&program::id(), &mut accounts, DEPOSIT_SOL).unwrap();
    assert_eq!(accounts.vault.lamports, DEPOSIT_SOL);

    // Withdraw
    const WITHDRAW_SOL: u64 = 4_000_000_000;
    program::withdraw(&program::id(), &mut accounts, WITHDRAW_SOL, vault_rent()).unwrap();
    assert_eq!(accounts.vault.lamports, DEPOSIT_SOL - WITHDRAW_SOL);

    // Close
    let user_balance_before = accounts.authority.lamports;
    program::close(&program::id(), &mut accounts).unwrap();
    assert!(accounts.vault.lamports == 0);
    assert!(accounts.vault_state.lamports == 0 && accounts.vault_state.data.is_none());
    assert!(accounts.authority.lamports > user_balance_before);
}

#[test]
#[should_panic(expected = "InsufficientBalance")]
fn test_withdraw_more_than_balance() {
    let mut accounts = opened();
    // Deposit 1 SOL
    program::deposit(&program::id(), &mut accounts, sol(1)).unwrap();
    // Try withdrawing 5 SOL
    program::withdraw(&program::id(), &mut accounts, sol(5), vault_rent()).unwrap();
}

#[test]
#[should_panic(expected = "InvalidAuthority")]
fn test_withdraw_from_different_authority() {
    let accounts = opened();
    let attacker = wallet(9, sol(5));
    // Attacker withdraw attempt
    let mut attempt = signed_by(&accounts, attacker);
    program::withdraw(&program::id(), &mut attempt, sol(1), vault_rent()).unwrap();
}

#[test]
#[should_panic(expected = "InvalidAuthority")]
fn test_close_from_different_authority() {
    let accounts = opened();
    let attacker = wallet(9, sol(5));
    let mut attempt = signed_by(&accounts, attacker);
    program::close(&program::id(), &mut attempt).unwrap();
}

#[test]
fn test_deposit_from_different_authority_allowed() {
    let accounts = opened();
    let depositor = wallet(11, sol(5));
    // Different depositor deposits
    let mut by_depositor = signed_by(&accounts, depositor);
    program::deposit(&program::id(), &mut by_depositor, sol(2)).unwrap();
    assert_eq!(by_depositor.vault.lamports, sol(2));
    assert_eq!(by_depositor.authority.lamports, sol(3));
}
