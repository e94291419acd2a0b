//! The program's entry points: one per instruction, each on the accounts of
//! that instruction.

use vstd::prelude::*;

use crate::accounts::{Close, Deposit, Initialize, Withdraw};
use crate::address::Address;
use crate::error::VaultError;
use crate::instructions::close::close_done;
use crate::instructions::deposit::deposit_done;
use crate::instructions::initialize::initialize_done;
use crate::instructions::withdraw::withdraw_done;
use crate::instructions::{stored_state_address, stored_vault_address};
use crate::pda::{found_program_address, state_seeds, vault_seeds};

verus! {

/// The bytes of the address at which the vault program is deployed.
pub open spec fn program_id() -> Seq<u8> {
    seq![
        73u8, 243u8, 6u8, 239u8, 107u8, 107u8, 169u8, 232u8, 149u8, 0u8, 143u8, 220u8, 143u8,
        160u8, 126u8, 212u8, 205u8, 31u8, 76u8, 161u8, 213u8, 222u8, 204u8, 85u8, 138u8, 12u8,
        219u8, 143u8, 60u8, 163u8, 242u8, 207u8,
    ]
}

/// The address at which the vault program is deployed.
pub fn id() -> (res: Address)
    ensures
        res@ == program_id(),
{
    let res = Address {
        bytes: [
            73, 243, 6, 239, 107, 107, 169, 232, 149, 0, 143, 220, 143, 160, 126, 212, 205, 31, 76,
            161, 213, 222, 204, 85, 138, 12, 219, 143, 60, 163, 242, 207,
        ],
    };
    assert(res@ =~= program_id());
    res
}

/// Creates the vault-state account and remembers which wallet owns it.
pub fn initialize(program_id: &Address, accounts: &mut Initialize, rent_exempt_minimum: u64) -> (res: Result<u64, VaultError>)
    ensures
        initialize_done(
            *old(accounts),
            *final(accounts),
            found_program_address(state_seeds(old(accounts).authority.key@), program_id@),
            found_program_address(vault_seeds(old(accounts).vault_state.key@), program_id@),
            rent_exempt_minimum,
            res,
        ),
        res is Ok ==> stored_state_address(*final(accounts), program_id@) == Some(final(accounts).vault_state.key@),
        res is Ok ==> stored_vault_address(*final(accounts), program_id@) == Some(final(accounts).vault.key@),
{
    accounts.initialize(program_id, rent_exempt_minimum)
}

/// Moves lamports from any signer into the vault.
pub fn deposit(program_id: &Address, accounts: &mut Deposit, amount: u64) -> (res: Result<u64, VaultError>)
    ensures
        deposit_done(
            *old(accounts),
            *final(accounts),
            stored_state_address(*old(accounts), program_id@),
            stored_vault_address(*old(accounts), program_id@),
            amount,
            res,
        ),
{
    accounts.deposit(program_id, amount)
}

/// Withdraws lamports back to the recorded authority, but only if the vault
/// keeps enough lamports to remain rent exempt.
pub fn withdraw(program_id: &Address, accounts: &mut Withdraw, amount: u64, rent_exempt_minimum: u64) -> (res: Result<u64, VaultError>)
    ensures
        withdraw_done(
            *old(accounts),
            *final(accounts),
            stored_state_address(*old(accounts), program_id@),
            stored_vault_address(*old(accounts), program_id@),
            amount,
            rent_exempt_minimum,
            res,
        ),
{
    accounts.withdraw(program_id, amount, rent_exempt_minimum)
}

/// Drains the vault and closes the vault-state account, returning the
/// remaining lamports to the authority.
pub fn close(program_id: &Address, accounts: &mut Close) -> (res: Result<u64, VaultError>)
    ensures
        close_done(
            *old(accounts),
            *final(accounts),
            stored_state_address(*old(accounts), program_id@),
            found_program_address(vault_seeds(old(accounts).vault_state.key@), program_id@),
            res,
        ),
{
    accounts.close(program_id)
}

} // verus!
