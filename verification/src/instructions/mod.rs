//! The four instructions of the vault, and the address checks they share.

pub mod close;
pub mod deposit;
pub mod initialize;
pub mod withdraw;

use vstd::prelude::*;

use crate::accounts::VaultAccounts;
use crate::address::Address;
use crate::pda::{address_bytes, program_address, state_seeds, vault_seeds, with_bump};

verus! {

/// Whether `derived` is the address `key`.
pub open spec fn derives(derived: Option<Seq<u8>>, key: Address) -> bool {
    derived == Some(key@)
}

/// Whether the address in `found` is `key`.
pub open spec fn finds(found: Option<(Seq<u8>, u8)>, key: Address) -> bool {
    match found {
        Some((a, _)) => a == key@,
        None => false,
    }
}

/// The vault-state address that the stored authority and state bump derive.
pub open spec fn stored_state_address(accounts: VaultAccounts, program_id: Seq<u8>) -> Option<Seq<u8>> {
    match accounts.vault_state.data {
        Some(st) => program_address(with_bump(state_seeds(st.authority@), st.state_bump), program_id),
        None => None,
    }
}

/// The vault address that the vault-state address and the stored vault bump
/// derive.
pub open spec fn stored_vault_address(accounts: VaultAccounts, program_id: Seq<u8>) -> Option<Seq<u8>> {
    match accounts.vault_state.data {
        Some(st) => program_address(with_bump(vault_seeds(accounts.vault_state.key@), st.vault_bump), program_id),
        None => None,
    }
}

/// Whether the derived address `derived` is the address `key`.
pub fn address_matches(derived: &Option<Address>, key: &Address) -> (res: bool)
    ensures
        res == derives(address_bytes(*derived), *key),
{
    match derived {
        Some(a) => a.same_as(key),
        None => false,
    }
}

/// Whether the address in `found` is the address `key`.
pub fn found_matches(found: &Option<(Address, u8)>, key: &Address) -> (res: bool)
    ensures
        res == finds(crate::pda::found_bytes(*found), *key),
{
    match found {
        Some((a, _)) => a.same_as(key),
        None => false,
    }
}

} // verus!
