use anchor_lang::prelude::{Pubkey, Rent};
use vault_program::pda::{find_state_address, find_vault_address, state_address_with_bump, vault_address_with_bump};
use vault_program::vault_program as program;
use vault_program::{
    Address, CustomError, StateAccount, VaultAccounts, VaultError, VaultState, WalletAccount,
    ANCHOR_DISCRIMINATOR_SIZE, VAULT_SEED,
};

fn state_rent() -> u64 {
    Rent::default().minimum_balance(ANCHOR_DISCRIMINATOR_SIZE + VaultState::INIT_SPACE)
}

fn vault_rent() -> u64 {
    Rent::default().minimum_balance(0)
}

fn key(seed: u8) -> Address {
    Address::new_from_array([seed; 32])
}

fn pubkey(a: &Address) -> Pubkey {
    Pubkey::new_from_array(a.bytes)
}

fn fresh(authority_lamports: u64) -> VaultAccounts {
    let user = key(7);
    let pid = program::id();
    let (vault_state, _) = find_state_address(&user, &pid).unwrap();
    let (vault, _) = find_vault_address(&vault_state, &pid).unwrap();
    VaultAccounts {
        authority: WalletAccount { key: user, lamports: authority_lamports },
        vault_state: StateAccount { key: vault_state, lamports: 0, data: None },
        vault: WalletAccount { key: vault, lamports: 0 },
    }
}

fn opened(authority_lamports: u64) -> VaultAccounts {
    let mut accounts = fresh(authority_lamports);
    accounts.initialize(&program::id(), state_rent()).unwrap();
    accounts
}

fn total(a: &VaultAccounts) -> u128 {
    a.authority.lamports as u128 + a.vault_state.lamports as u128 + a.vault.lamports as u128
}

// ---- addresses and derivation ----

#[test]
fn program_id_is_the_declared_one() {
    let declared: Pubkey = "5yfhPSsqiQC3Sqvvf6JaG6sGVNj4CUEmnoWJdCzWfWWA".parse().unwrap();
    assert_eq!(pubkey(&program::id()), declared);
}

#[test]
fn vault_seed_is_vault() {
    assert_eq!(VAULT_SEED, "vault");
    assert_eq!(ANCHOR_DISCRIMINATOR_SIZE + VaultState::INIT_SPACE, 42);
}

#[test]
fn same_as_compares_every_byte() {
    let a = key(3);
    let mut b = key(3);
    assert!(a.same_as(&b));
    b.bytes[31] = 4;
    assert!(!a.same_as(&b));
    b.bytes[31] = 3;
    b.bytes[0] = 0;
    assert!(!a.same_as(&b));
}

#[test]
fn found_addresses_are_those_of_anchor() {
    let pid = program::id();
    let user = key(7);
    let (state, state_bump) = find_state_address(&user, &pid).unwrap();
    let (expected, expected_bump) =
        Pubkey::find_program_address(&[b"vault", user.bytes.as_ref()], &pubkey(&pid));
    assert_eq!(pubkey(&state), expected);
    assert_eq!(state_bump, expected_bump);
    assert!(!state.same_as(&user));

    let (vault, vault_bump) = find_vault_address(&state, &pid).unwrap();
    let (expected, expected_bump) =
        Pubkey::find_program_address(&[b"vault", state.bytes.as_ref()], &pubkey(&pid));
    assert_eq!(pubkey(&vault), expected);
    assert_eq!(vault_bump, expected_bump);
}

#[test]
fn stored_bumps_rederive_the_found_addresses() {
    let pid = program::id();
    let user = key(7);
    let (state, state_bump) = find_state_address(&user, &pid).unwrap();
    let (vault, vault_bump) = find_vault_address(&state, &pid).unwrap();
    assert_eq!(state_address_with_bump(&user, state_bump, &pid), Some(state));
    assert_eq!(vault_address_with_bump(&state, vault_bump, &pid), Some(vault));
    // Another bump derives another address, or none.
    assert_ne!(state_address_with_bump(&user, state_bump.wrapping_sub(1), &pid), Some(state));
    let expected = Pubkey::create_program_address(
        &[b"vault", user.bytes.as_ref(), &[state_bump.wrapping_sub(1)]],
        &pubkey(&pid),
    )
    .ok()
    .map(|a| Address::new_from_array(a.to_bytes()));
    assert_eq!(state_address_with_bump(&user, state_bump.wrapping_sub(1), &pid), expected);
}

// ---- errors ----

#[test]
fn custom_error_codes_names_and_messages() {
    assert_eq!(CustomError::InsufficientBalance.code(), 6000);
    assert_eq!(CustomError::InvalidAuthority.code(), 6001);
    assert_eq!(CustomError::InsufficientBalance.name(), "InsufficientBalance");
    assert_eq!(CustomError::InvalidAuthority.name(), "InvalidAuthority");
    assert_eq!(
        CustomError::InsufficientBalance.message(),
        "Can't withdraw given amount due to insufficient balance"
    );
    assert_eq!(
        CustomError::InvalidAuthority.message(),
        "You do not have authority to perform actions on this account"
    );
}

// ---- initialize ----

#[test]
fn initialize_records_signer_and_pays_rent() {
    let mut accounts = fresh(10_000_000);
    let before = accounts;
    let paid = program::initialize(&program::id(), &mut accounts, state_rent()).unwrap();
    assert_eq!(paid, state_rent());
    assert_eq!(paid, 1_183_200);
    assert_eq!(accounts.authority.lamports, 10_000_000 - 1_183_200);
    assert_eq!(accounts.vault_state.lamports, 1_183_200);
    assert_eq!(accounts.vault_state.data.unwrap().authority, before.authority.key);
    assert_eq!(total(&accounts), total(&before));
    assert_eq!(accounts.vault, before.vault);
}

#[test]
fn initialize_tops_up_a_prefunded_state_account() {
    let mut accounts = fresh(10_000_000);
    accounts.vault_state.lamports = 500_000;
    let paid = accounts.initialize(&program::id(), 1_183_200).unwrap();
    assert_eq!(paid, 683_200);
    assert_eq!(accounts.vault_state.lamports, 1_183_200);

    let mut rich = fresh(10_000_000);
    rich.vault_state.lamports = 2_000_000;
    assert_eq!(rich.initialize(&program::id(), 1_183_200), Ok(0));
    assert_eq!(rich.vault_state.lamports, 2_000_000);
    assert_eq!(rich.authority.lamports, 10_000_000);

    let mut free = fresh(10);
    assert_eq!(free.initialize(&program::id(), 0), Ok(0));
}

#[test]
fn initialize_refusals() {
    let pid = program::id();
    // A vault-state account at another address.
    let mut wrong_state = fresh(10_000_000);
    wrong_state.vault_state.key = key(1);
    let before = wrong_state;
    assert_eq!(wrong_state.initialize(&pid, state_rent()), Err(VaultError::ConstraintSeeds));
    assert_eq!(wrong_state, before);

    // A vault at another address.
    let mut wrong_vault = fresh(10_000_000);
    wrong_vault.vault.key = key(2);
    assert_eq!(wrong_vault.initialize(&pid, state_rent()), Err(VaultError::ConstraintSeeds));

    // Opening the same vault twice.
    let mut twice = opened(10_000_000);
    let before = twice;
    assert_eq!(twice.initialize(&pid, state_rent()), Err(VaultError::AccountAlreadyInUse));
    assert_eq!(twice, before);

    // A signer who cannot pay the rent.
    let mut poor = fresh(1_000);
    assert_eq!(poor.initialize(&pid, state_rent()), Err(VaultError::InsufficientFunds));
    assert_eq!(poor.vault_state.data, None);
}

#[test]
fn initialize_with_given_addresses() {
    let mut accounts = VaultAccounts {
        authority: WalletAccount { key: key(1), lamports: 100 },
        vault_state: StateAccount { key: key(2), lamports: 0, data: None },
        vault: WalletAccount { key: key(3), lamports: 0 },
    };
    let res = accounts.initialize_with(Some((key(2), 250)), Some((key(3), 251)), 40);
    assert_eq!(res, Ok(40));
    assert_eq!(
        accounts.vault_state.data,
        Some(VaultState { authority: key(1), state_bump: 250, vault_bump: 251 })
    );
    assert_eq!(accounts.authority.lamports, 60);
    let mut other = VaultAccounts { vault_state: StateAccount { key: key(2), lamports: 0, data: None }, ..accounts };
    assert_eq!(other.initialize_with(None, Some((key(3), 251)), 40), Err(VaultError::ConstraintSeeds));
    assert_eq!(other.initialize_with(Some((key(2), 250)), None, 40), Err(VaultError::ConstraintSeeds));
}

// ---- deposit ----

#[test]
fn deposit_refusals() {
    let pid = program::id();
    // Into a vault that was never opened.
    let mut unopened = fresh(10_000_000);
    assert_eq!(unopened.deposit(&pid, 5), Err(VaultError::AccountNotInitialized));

    // From a signer who lacks the amount.
    let mut accounts = opened(2_000_000);
    let before = accounts;
    assert_eq!(accounts.deposit(&pid, 2_000_000), Err(VaultError::InsufficientFunds));
    assert_eq!(accounts, before);

    // Into a vault at another address.
    let mut wrong_vault = opened(10_000_000);
    wrong_vault.vault.key = key(2);
    assert_eq!(wrong_vault.deposit(&pid, 5), Err(VaultError::ConstraintSeeds));

    // Into a vault-state account at another address.
    let mut wrong_state = opened(10_000_000);
    wrong_state.vault_state.key = key(1);
    assert_eq!(wrong_state.deposit(&pid, 5), Err(VaultError::ConstraintSeeds));

    // Into a vault whose balance would overflow.
    let mut full = opened(10_000_000);
    full.vault.lamports = u64::MAX;
    assert_eq!(full.deposit(&pid, 1), Err(VaultError::ArithmeticOverflow));
}

#[test]
fn deposit_ignores_who_signs() {
    let pid = program::id();
    let vault = opened(10_000_000);
    let mut by_owner = vault;
    let mut by_stranger = VaultAccounts { authority: WalletAccount { key: key(9), lamports: vault.authority.lamports }, ..vault };
    assert_eq!(by_owner.deposit(&pid, 1_000), Ok(1_000));
    assert_eq!(by_stranger.deposit(&pid, 1_000), Ok(1_000));
    assert_eq!(by_owner.vault, by_stranger.vault);
    assert_eq!(total(&by_stranger), total(&vault));
}

// ---- withdraw ----

#[test]
fn withdraw_keeps_the_vault_rent_exempt() {
    let pid = program::id();
    let mut accounts = opened(10_000_000_000);
    accounts.deposit(&pid, 2_000_000).unwrap();
    // Leaving exactly the minimum is allowed...
    let mut exact = accounts;
    assert_eq!(exact.withdraw(&pid, 2_000_000 - 890_880, vault_rent()), Ok(1_109_120));
    assert_eq!(exact.vault.lamports, 890_880);
    // ...one lamport more is not.
    let mut over = accounts;
    let before = over;
    assert_eq!(
        over.withdraw(&pid, 1_109_121, vault_rent()),
        Err(VaultError::Program(CustomError::InsufficientBalance))
    );
    assert_eq!(over, before);
    // Nor is more than the vault holds.
    assert_eq!(
        over.withdraw(&pid, 2_000_001, vault_rent()),
        Err(VaultError::Program(CustomError::InsufficientBalance))
    );
}

#[test]
fn withdraw_refusals() {
    let pid = program::id();
    let mut unopened = fresh(10);
    assert_eq!(unopened.withdraw(&pid, 0, 0), Err(VaultError::AccountNotInitialized));

    let mut wrong_vault = opened(10_000_000);
    wrong_vault.vault.key = key(2);
    assert_eq!(wrong_vault.withdraw(&pid, 0, 0), Err(VaultError::ConstraintSeeds));

    let mut rich = opened(10_000_000);
    rich.vault.lamports = 5;
    rich.authority.lamports = u64::MAX - 4;
    assert_eq!(rich.withdraw(&pid, 5, 0), Err(VaultError::ArithmeticOverflow));
    assert_eq!(rich.withdraw(&pid, 4, 0), Ok(4));
    assert_eq!(rich.authority.lamports, u64::MAX);
}

#[test]
fn withdraw_with_given_addresses() {
    let st = VaultState { authority: key(1), state_bump: 1, vault_bump: 2 };
    let mut accounts = VaultAccounts {
        authority: WalletAccount { key: key(1), lamports: 0 },
        vault_state: StateAccount { key: key(2), lamports: 10, data: Some(st) },
        vault: WalletAccount { key: key(3), lamports: 100 },
    };
    assert_eq!(accounts.withdraw_from(Some(key(4)), Some(key(3)), 10, 0), Err(VaultError::ConstraintSeeds));
    assert_eq!(accounts.withdraw_from(Some(key(2)), None, 10, 0), Err(VaultError::ConstraintSeeds));
    assert_eq!(accounts.withdraw_from(Some(key(2)), Some(key(3)), 10, 90), Ok(10));
    assert_eq!(accounts.vault.lamports, 90);
    assert_eq!(accounts.authority.lamports, 10);
    let mut stranger = VaultAccounts { authority: WalletAccount { key: key(5), lamports: 0 }, ..accounts };
    assert_eq!(
        stranger.withdraw_from(Some(key(2)), Some(key(3)), 10, 0),
        Err(VaultError::Program(CustomError::InvalidAuthority))
    );
}

#[test]
fn deposit_then_withdraw_restores_the_accounts() {
    let pid = program::id();
    let mut accounts = opened(10_000_000_000);
    accounts.deposit(&pid, vault_rent()).unwrap();
    let before = accounts;
    accounts.deposit(&pid, 123_456_789).unwrap();
    accounts.withdraw(&pid, 123_456_789, vault_rent()).unwrap();
    assert_eq!(accounts, before);
}

// ---- close ----

#[test]
fn close_drains_both_accounts_into_the_authority() {
    let pid = program::id();
    let mut accounts = opened(10_000_000_000);
    accounts.deposit(&pid, 3_000_000_000).unwrap();
    let before = accounts;
    assert_eq!(accounts.close(&pid), Ok(3_000_000_000));
    assert_eq!(accounts.vault.lamports, 0);
    assert_eq!(accounts.vault_state.lamports, 0);
    assert_eq!(accounts.vault_state.data, None);
    assert_eq!(
        accounts.authority.lamports,
        before.authority.lamports + 3_000_000_000 + before.vault_state.lamports
    );
    assert_eq!(total(&accounts), total(&before));
    // A closed vault cannot be closed again.
    assert_eq!(accounts.close(&pid), Err(VaultError::AccountNotInitialized));
}

#[test]
fn close_refusals() {
    let pid = program::id();
    let mut wrong_vault = opened(10_000_000);
    wrong_vault.vault.key = key(2);
    assert_eq!(wrong_vault.close(&pid), Err(VaultError::ConstraintSeeds));

    let mut rich = opened(10_000_000);
    rich.authority.lamports = u64::MAX - rich.vault_state.lamports;
    rich.vault.lamports = 1;
    let before = rich;
    assert_eq!(rich.close(&pid), Err(VaultError::ArithmeticOverflow));
    assert_eq!(rich, before);

    // The vault-state account may not close into itself.
    let st = VaultState { authority: key(2), state_bump: 1, vault_bump: 2 };
    let mut into_itself = VaultAccounts {
        authority: WalletAccount { key: key(2), lamports: 0 },
        vault_state: StateAccount { key: key(2), lamports: 10, data: Some(st) },
        vault: WalletAccount { key: key(3), lamports: 100 },
    };
    assert_eq!(into_itself.close_with(Some(key(2)), Some((key(3), 2))), Err(VaultError::ConstraintClose));
    assert_eq!(into_itself.close_with(Some(key(2)), None), Err(VaultError::ConstraintClose));
}

#[test]
fn reopening_after_close() {
    let pid = program::id();
    let mut accounts = opened(10_000_000_000);
    accounts.close(&pid).unwrap();
    assert_eq!(accounts.initialize(&pid, state_rent()), Ok(state_rent()));
    assert_eq!(accounts.vault_state.data.unwrap().authority, key(7));
}
