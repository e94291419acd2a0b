//! Putting lamports into a vault.

use vstd::prelude::*;

use crate::accounts::VaultAccounts;
use crate::address::Address;
use crate::error::VaultError;
use crate::instructions::{address_matches, derives, stored_state_address, stored_vault_address};
use crate::pda::{address_bytes, state_address_with_bump, vault_address_with_bump};

verus! {

/// Why a deposit of `amount` into `pre` is refused, given the addresses that
/// the stored bumps derive: the first check that fails, in the order the
/// program makes them, or `None` when all pass. Who signs plays no part.
pub open spec fn deposit_refusal(
    pre: VaultAccounts,
    state_address: Option<Seq<u8>>,
    vault_address: Option<Seq<u8>>,
    amount: u64,
) -> Option<VaultError> {
    match pre.vault_state.data {
        None => Some(VaultError::AccountNotInitialized),
        Some(_) => if !derives(state_address, pre.vault_state.key) {
            Some(VaultError::ConstraintSeeds)
        } else if !derives(vault_address, pre.vault.key) {
            Some(VaultError::ConstraintSeeds)
        } else if amount > pre.authority.lamports {
            Some(VaultError::InsufficientFunds)
        } else if pre.vault.lamports + amount > u64::MAX {
            Some(VaultError::ArithmeticOverflow)
        } else {
            None
        },
    }
}

/// The accounts after `amount` lamports went from the signer to the vault.
pub open spec fn after_deposit(pre: VaultAccounts, amount: u64) -> VaultAccounts {
    pre.with_lamports(
        pre.authority.lamports - amount,
        pre.vault_state.lamports as int,
        pre.vault.lamports + amount,
    )
}

/// Whether a deposit of `amount` took `pre` to `post` with result `res`,
/// given the addresses that the stored bumps derive: it succeeds exactly
/// when nothing refuses it, moves `amount` lamports from the signer to the
/// vault, and changes nothing when refused.
pub open spec fn deposit_done(
    pre: VaultAccounts,
    post: VaultAccounts,
    state_address: Option<Seq<u8>>,
    vault_address: Option<Seq<u8>>,
    amount: u64,
    res: Result<u64, VaultError>,
) -> bool {
    match res {
        Ok(moved) => {
            &&& deposit_refusal(pre, state_address, vault_address, amount) is None
            &&& moved == amount
            &&& post == after_deposit(pre, amount)
        },
        Err(e) => {
            &&& deposit_refusal(pre, state_address, vault_address, amount) == Some(e)
            &&& post == pre
        },
    }
}

impl VaultAccounts {
    /// Deposits `amount` lamports from the signer into the vault, given the
    /// addresses that the stored bumps derive for the vault-state account and
    /// the vault. Returns the lamports moved.
    pub fn deposit_into(
        &mut self,
        state_address: Option<Address>,
        vault_address: Option<Address>,
        amount: u64,
    ) -> (res: Result<u64, VaultError>)
        ensures
            deposit_done(*old(self), *final(self), address_bytes(state_address), address_bytes(vault_address), amount, res),
    {
        if self.vault_state.data.is_none() {
            return Err(VaultError::AccountNotInitialized);
        }
        if !address_matches(&state_address, &self.vault_state.key) {
            return Err(VaultError::ConstraintSeeds);
        }
        if !address_matches(&vault_address, &self.vault.key) {
            return Err(VaultError::ConstraintSeeds);
        }
        let authority_after = match self.authority.lamports.checked_sub(amount) {
            Some(b) => b,
            None => return Err(VaultError::InsufficientFunds),
        };
        let vault_after = match self.vault.lamports.checked_add(amount) {
            Some(b) => b,
            None => return Err(VaultError::ArithmeticOverflow),
        };
        self.authority.lamports = authority_after;
        self.vault.lamports = vault_after;
        Ok(amount)
    }

    /// Deposits `amount` lamports from the signer into the vault of the
    /// program `program_id`. Anyone may deposit. Returns the lamports moved.
    pub fn deposit(&mut self, program_id: &Address, amount: u64) -> (res: Result<u64, VaultError>)
        ensures
            deposit_done(*old(self), *final(self), stored_state_address(*old(self), program_id@), stored_vault_address(*old(self), program_id@), amount, res),
    {
        let (state_address, vault_address) = match &self.vault_state.data {
            Some(st) => (
                state_address_with_bump(&st.authority, st.state_bump, program_id),
                vault_address_with_bump(&self.vault_state.key, st.vault_bump, program_id),
            ),
            None => (None, None),
        };
        self.deposit_into(state_address, vault_address, amount)
    }
}

} // verus!
