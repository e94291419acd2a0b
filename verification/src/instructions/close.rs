//! Emptying and closing a vault.

use vstd::prelude::*;

use crate::accounts::{StateAccount, VaultAccounts, WalletAccount};
use crate::address::Address;
use crate::error::{CustomError, VaultError};
use crate::instructions::{address_matches, derives, finds, found_matches, stored_state_address};
use crate::pda::{
    address_bytes, found_bytes, found_program_address, state_address_with_bump, vault_seeds,
    find_vault_address,
};

verus! {

/// Why closing `pre` is refused, given the vault-state address that the
/// stored bump derives and the vault address found for the vault-state
/// account: the first check that fails, in the order the program makes them,
/// or `None` when all pass.
pub open spec fn close_refusal(
    pre: VaultAccounts,
    state_address: Option<Seq<u8>>,
    vault_found: Option<(Seq<u8>, u8)>,
) -> Option<VaultError> {
    match pre.vault_state.data {
        None => Some(VaultError::AccountNotInitialized),
        Some(st) => if !derives(state_address, pre.vault_state.key) {
            Some(VaultError::ConstraintSeeds)
        } else if st.authority@ != pre.authority.key@ {
            Some(VaultError::Program(CustomError::InvalidAuthority))
        } else if pre.vault_state.key@ == pre.authority.key@ {
            Some(VaultError::ConstraintClose)
        } else if !finds(vault_found, pre.vault.key) {
            Some(VaultError::ConstraintSeeds)
        } else if pre.authority.lamports + pre.vault.lamports + pre.vault_state.lamports > u64::MAX {
            Some(VaultError::ArithmeticOverflow)
        } else {
            None
        },
    }
}

/// The accounts after the vault's and then the vault-state account's
/// lamports went to the signer and the vault state was erased.
pub open spec fn after_close(pre: VaultAccounts) -> VaultAccounts {
    VaultAccounts {
        authority: WalletAccount {
            key: pre.authority.key,
            lamports: (pre.authority.lamports + pre.vault.lamports + pre.vault_state.lamports) as u64,
        },
        vault_state: StateAccount { key: pre.vault_state.key, lamports: 0, data: None },
        vault: WalletAccount { key: pre.vault.key, lamports: 0 },
    }
}

/// Whether closing took `pre` to `post` with result `res`, given the
/// vault-state address that the stored bump derives and the vault address
/// found: it succeeds exactly when nothing refuses it, returns the lamports
/// the vault held, empties both accounts into the signer and erases the
/// vault state, and changes nothing when refused.
pub open spec fn close_done(
    pre: VaultAccounts,
    post: VaultAccounts,
    state_address: Option<Seq<u8>>,
    vault_found: Option<(Seq<u8>, u8)>,
    res: Result<u64, VaultError>,
) -> bool {
    match res {
        Ok(moved) => {
            &&& close_refusal(pre, state_address, vault_found) is None
            &&& moved == pre.vault.lamports
            &&& post == after_close(pre)
        },
        Err(e) => {
            &&& close_refusal(pre, state_address, vault_found) == Some(e)
            &&& post == pre
        },
    }
}

impl VaultAccounts {
    /// Closes the vault, given the vault-state address that the stored bump
    /// derives and the vault address found for the vault-state account: all
    /// the vault's lamports go to the signer, then the vault-state account's,
    /// and the vault state is erased. Returns the lamports taken out of the
    /// vault.
    pub fn close_with(
        &mut self,
        state_address: Option<Address>,
        vault_found: Option<(Address, u8)>,
    ) -> (res: Result<u64, VaultError>)
        ensures
            close_done(*old(self), *final(self), address_bytes(state_address), found_bytes(vault_found), res),
    {
        let st = match &self.vault_state.data {
            Some(st) => *st,
            None => return Err(VaultError::AccountNotInitialized),
        };
        if !address_matches(&state_address, &self.vault_state.key) {
            return Err(VaultError::ConstraintSeeds);
        }
        if !st.authority.same_as(&self.authority.key) {
            return Err(VaultError::Program(CustomError::InvalidAuthority));
        }
        if self.vault_state.key.same_as(&self.authority.key) {
            return Err(VaultError::ConstraintClose);
        }
        if !found_matches(&vault_found, &self.vault.key) {
            return Err(VaultError::ConstraintSeeds);
        }
        // Move whatever is left in the vault back to the authority first.
        let moved = self.vault.lamports;
        let after_vault = match self.authority.lamports.checked_add(moved) {
            Some(b) => b,
            None => return Err(VaultError::ArithmeticOverflow),
        };
        // Then the vault-state account closes into the authority.
        let after_state = match after_vault.checked_add(self.vault_state.lamports) {
            Some(b) => b,
            None => return Err(VaultError::ArithmeticOverflow),
        };
        self.authority.lamports = after_state;
        self.vault.lamports = 0;
        self.vault_state.lamports = 0;
        self.vault_state.data = None;
        Ok(moved)
    }

    /// Closes the vault of the program `program_id`: only the recorded
    /// authority may, and it receives the vault's lamports and then the
    /// vault-state account's. Returns the lamports taken out of the vault.
    pub fn close(&mut self, program_id: &Address) -> (res: Result<u64, VaultError>)
        ensures
            close_done(*old(self), *final(self), stored_state_address(*old(self), program_id@), found_program_address(vault_seeds(old(self).vault_state.key@), program_id@), res),
    {
        let state_address = match &self.vault_state.data {
            Some(st) => state_address_with_bump(&st.authority, st.state_bump, program_id),
            None => None,
        };
        let vault_found = find_vault_address(&self.vault_state.key, program_id);
        self.close_with(state_address, vault_found)
    }
}

} // verus!
