//! Opening a vault.

use vstd::prelude::*;

use crate::accounts::{StateAccount, VaultAccounts, WalletAccount};
use crate::address::Address;
use crate::error::VaultError;
use crate::instructions::{finds, found_matches, stored_state_address, stored_vault_address};
use crate::pda::{
    find_state_address, find_vault_address, found_bytes, found_program_address, state_seeds,
    vault_seeds,
};
use crate::state::VaultState;

verus! {

/// The lamports the signer pays to create the vault-state account when it
/// holds `current` lamports and a rent-exempt account of its size needs
/// `rent_exempt_minimum`: all of it for an empty account; for one that holds
/// lamports already, what it lacks of the minimum (of at least one lamport).
pub open spec fn initial_funding(current: u64, rent_exempt_minimum: u64) -> int {
    if current == 0 {
        rent_exempt_minimum as int
    } else {
        let target: int = if rent_exempt_minimum == 0 { 1 } else { rent_exempt_minimum as int };
        if target > current { target - current } else { 0 }
    }
}

/// Why opening a vault for the signer of `pre` is refused, given the
/// addresses and bumps found for the vault-state account and the vault: the
/// first check that fails, in the order the program makes them, or `None`
/// when all pass.
pub open spec fn initialize_refusal(
    pre: VaultAccounts,
    state_found: Option<(Seq<u8>, u8)>,
    vault_found: Option<(Seq<u8>, u8)>,
    rent_exempt_minimum: u64,
) -> Option<VaultError> {
    if !finds(state_found, pre.vault_state.key) {
        Some(VaultError::ConstraintSeeds)
    } else if pre.vault_state.data is Some {
        Some(VaultError::AccountAlreadyInUse)
    } else if initial_funding(pre.vault_state.lamports, rent_exempt_minimum) > pre.authority.lamports {
        Some(VaultError::InsufficientFunds)
    } else if !finds(vault_found, pre.vault.key) {
        Some(VaultError::ConstraintSeeds)
    } else {
        None
    }
}

/// The accounts after the signer funded the vault-state account and the
/// account came to record the signer as authority, with the bumps found.
pub open spec fn after_initialize(
    pre: VaultAccounts,
    state_bump: u8,
    vault_bump: u8,
    rent_exempt_minimum: u64,
) -> VaultAccounts {
    let funding = initial_funding(pre.vault_state.lamports, rent_exempt_minimum);
    VaultAccounts {
        authority: WalletAccount {
            key: pre.authority.key,
            lamports: (pre.authority.lamports - funding) as u64,
        },
        vault_state: StateAccount {
            key: pre.vault_state.key,
            lamports: (pre.vault_state.lamports + funding) as u64,
            data: Some(VaultState { authority: pre.authority.key, state_bump, vault_bump }),
        },
        vault: pre.vault,
    }
}

/// The bump found, where something was found.
pub open spec fn found_bump(found: Option<(Seq<u8>, u8)>) -> u8 {
    match found {
        Some((_, b)) => b,
        None => 0,
    }
}

/// Whether opening a vault took `pre` to `post` with result `res`, given
/// the addresses and bumps found for the vault-state account and the vault:
/// it succeeds exactly when nothing refuses it, returns what the signer paid
/// into the vault-state account, which comes to record the signer and the
/// bumps found, and changes nothing when refused.
pub open spec fn initialize_done(
    pre: VaultAccounts,
    post: VaultAccounts,
    state_found: Option<(Seq<u8>, u8)>,
    vault_found: Option<(Seq<u8>, u8)>,
    rent_exempt_minimum: u64,
    res: Result<u64, VaultError>,
) -> bool {
    match res {
        Ok(paid) => {
            &&& initialize_refusal(pre, state_found, vault_found, rent_exempt_minimum) is None
            &&& paid == initial_funding(pre.vault_state.lamports, rent_exempt_minimum)
            &&& post == after_initialize(pre, found_bump(state_found), found_bump(vault_found), rent_exempt_minimum)
        },
        Err(e) => {
            &&& initialize_refusal(pre, state_found, vault_found, rent_exempt_minimum) == Some(e)
            &&& post == pre
        },
    }
}

impl VaultAccounts {
    /// The lamports to pay into the vault-state account, which holds
    /// `current` lamports, for it to be rent exempt.
    fn funding_needed(current: u64, rent_exempt_minimum: u64) -> (res: u64)
        ensures
            res == initial_funding(current, rent_exempt_minimum),
    {
        if current == 0 {
            rent_exempt_minimum
        } else {
            let target = if rent_exempt_minimum == 0 { 1 } else { rent_exempt_minimum };
            target.saturating_sub(current)
        }
    }

    /// Opens a vault for the signer, given the addresses and bumps found for
    /// the vault-state account and the vault. A rent-exempt vault-state
    /// account needs `rent_exempt_minimum` lamports. Returns the lamports the
    /// signer paid.
    pub fn initialize_with(
        &mut self,
        state_found: Option<(Address, u8)>,
        vault_found: Option<(Address, u8)>,
        rent_exempt_minimum: u64,
    ) -> (res: Result<u64, VaultError>)
        ensures
            initialize_done(*old(self), *final(self), found_bytes(state_found), found_bytes(vault_found), rent_exempt_minimum, res),
    {
        if !found_matches(&state_found, &self.vault_state.key) {
            return Err(VaultError::ConstraintSeeds);
        }
        if self.vault_state.data.is_some() {
            return Err(VaultError::AccountAlreadyInUse);
        }
        let paid = Self::funding_needed(self.vault_state.lamports, rent_exempt_minimum);
        if paid > self.authority.lamports {
            return Err(VaultError::InsufficientFunds);
        }
        if !found_matches(&vault_found, &self.vault.key) {
            return Err(VaultError::ConstraintSeeds);
        }
        let state_bump = match state_found {
            Some((_, b)) => b,
            None => 0,
        };
        let vault_bump = match vault_found {
            Some((_, b)) => b,
            None => 0,
        };
        self.authority.lamports = self.authority.lamports - paid;
        self.vault_state.lamports = self.vault_state.lamports + paid;
        // Remember which wallet owns the vault, and the bumps that derive
        // both addresses, so later instructions can re-derive them.
        self.vault_state.data = Some(VaultState {
            authority: self.authority.key,
            state_bump,
            vault_bump,
        });
        Ok(paid)
    }

    /// Opens a vault of the program `program_id` for the signer: the
    /// vault-state account, found from the signer's address, is funded to be
    /// rent exempt (`rent_exempt_minimum`) and records the signer as the
    /// vault's authority. Returns the lamports the signer paid.
    pub fn initialize(&mut self, program_id: &Address, rent_exempt_minimum: u64) -> (res: Result<u64, VaultError>)
        ensures
            initialize_done(
                *old(self),
                *final(self),
                found_program_address(state_seeds(old(self).authority.key@), program_id@),
                found_program_address(vault_seeds(old(self).vault_state.key@), program_id@),
                rent_exempt_minimum,
                res,
            ),
            // The bumps recorded re-derive the addresses of both accounts.
            res is Ok ==> stored_state_address(*final(self), program_id@) == Some(final(self).vault_state.key@),
            res is Ok ==> stored_vault_address(*final(self), program_id@) == Some(final(self).vault.key@),
    {
        let state_found = find_state_address(&self.authority.key, program_id);
        let vault_found = find_vault_address(&self.vault_state.key, program_id);
        self.initialize_with(state_found, vault_found, rent_exempt_minimum)
    }
}

} // verus!
