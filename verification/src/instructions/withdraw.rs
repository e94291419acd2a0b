//! Taking lamports out of a vault.

use vstd::prelude::*;

use crate::accounts::VaultAccounts;
use crate::address::Address;
use crate::error::{CustomError, VaultError};
use crate::instructions::{address_matches, derives, stored_state_address, stored_vault_address};
use crate::pda::{address_bytes, state_address_with_bump, vault_address_with_bump};

verus! {

/// Why a withdrawal of `amount` from `pre` is refused, given the addresses
/// that the stored bumps derive: the first check that fails, in the order the
/// program makes them, or `None` when all pass.
pub open spec fn withdraw_refusal(
    pre: VaultAccounts,
    state_address: Option<Seq<u8>>,
    vault_address: Option<Seq<u8>>,
    amount: u64,
    rent_exempt_minimum: u64,
) -> Option<VaultError> {
    match pre.vault_state.data {
        None => Some(VaultError::AccountNotInitialized),
        Some(st) => if !derives(state_address, pre.vault_state.key) {
            Some(VaultError::ConstraintSeeds)
        } else if st.authority@ != pre.authority.key@ {
            Some(VaultError::Program(CustomError::InvalidAuthority))
        } else if !derives(vault_address, pre.vault.key) {
            Some(VaultError::ConstraintSeeds)
        } else if amount > pre.vault.lamports || pre.vault.lamports - amount < rent_exempt_minimum {
            Some(VaultError::Program(CustomError::InsufficientBalance))
        } else if pre.authority.lamports + amount > u64::MAX {
            Some(VaultError::ArithmeticOverflow)
        } else {
            None
        },
    }
}

/// The accounts after `amount` lamports went from the vault to the signer.
pub open spec fn after_withdraw(pre: VaultAccounts, amount: u64) -> VaultAccounts {
    pre.with_lamports(
        pre.authority.lamports + amount,
        pre.vault_state.lamports as int,
        pre.vault.lamports - amount,
    )
}

/// Whether a withdrawal of `amount` took `pre` to `post` with result `res`,
/// given the addresses that the stored bumps derive: it succeeds exactly
/// when nothing refuses it, moves `amount` lamports from the vault to the
/// signer, and changes nothing when refused.
pub open spec fn withdraw_done(
    pre: VaultAccounts,
    post: VaultAccounts,
    state_address: Option<Seq<u8>>,
    vault_address: Option<Seq<u8>>,
    amount: u64,
    rent_exempt_minimum: u64,
    res: Result<u64, VaultError>,
) -> bool {
    match res {
        Ok(moved) => {
            &&& withdraw_refusal(pre, state_address, vault_address, amount, rent_exempt_minimum) is None
            &&& moved == amount
            &&& post == after_withdraw(pre, amount)
        },
        Err(e) => {
            &&& withdraw_refusal(pre, state_address, vault_address, amount, rent_exempt_minimum) == Some(e)
            &&& post == pre
        },
    }
}

impl VaultAccounts {
    /// Withdraws `amount` lamports from the vault to the signer, given the
    /// addresses that the stored bumps derive for the vault-state account and
    /// the vault. The vault must keep `rent_exempt_minimum` lamports.
    /// Returns the lamports moved.
    pub fn withdraw_from(
        &mut self,
        state_address: Option<Address>,
        vault_address: Option<Address>,
        amount: u64,
        rent_exempt_minimum: u64,
    ) -> (res: Result<u64, VaultError>)
        ensures
            withdraw_done(*old(self), *final(self), address_bytes(state_address), address_bytes(vault_address), amount, rent_exempt_minimum, res),
    {
        let st = match &self.vault_state.data {
            Some(st) => *st,
            None => return Err(VaultError::AccountNotInitialized),
        };
        if !address_matches(&state_address, &self.vault_state.key) {
            return Err(VaultError::ConstraintSeeds);
        }
        if !st.authority.same_as(&self.authority.key) {
            return Err(VaultError::Program(CustomError::InvalidAuthority));
        }
        if !address_matches(&vault_address, &self.vault.key) {
            return Err(VaultError::ConstraintSeeds);
        }
        // The vault keeps enough lamports to stay rent exempt.
        let balance_after = match self.vault.lamports.checked_sub(amount) {
            Some(b) => b,
            None => return Err(VaultError::Program(CustomError::InsufficientBalance)),
        };
        if balance_after < rent_exempt_minimum {
            return Err(VaultError::Program(CustomError::InsufficientBalance));
        }
        let authority_after = match self.authority.lamports.checked_add(amount) {
            Some(b) => b,
            None => return Err(VaultError::ArithmeticOverflow),
        };
        self.vault.lamports = balance_after;
        self.authority.lamports = authority_after;
        Ok(amount)
    }

    /// Withdraws `amount` lamports from the vault to the signer of the
    /// program `program_id`. Only the recorded authority may withdraw, and
    /// the vault must keep `rent_exempt_minimum` lamports. Returns the
    /// lamports moved.
    pub fn withdraw(&mut self, program_id: &Address, amount: u64, rent_exempt_minimum: u64) -> (res: Result<u64, VaultError>)
        ensures
            withdraw_done(*old(self), *final(self), stored_state_address(*old(self), program_id@), stored_vault_address(*old(self), program_id@), amount, rent_exempt_minimum, res),
    {
        let (state_address, vault_address) = match &self.vault_state.data {
            Some(st) => (
                state_address_with_bump(&st.authority, st.state_bump, program_id),
                vault_address_with_bump(&self.vault_state.key, st.vault_bump, program_id),
            ),
            None => (None, None),
        };
        self.withdraw_from(state_address, vault_address, amount, rent_exempt_minimum)
    }
}

} // verus!
