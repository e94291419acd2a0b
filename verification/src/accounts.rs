//! The accounts an instruction of the vault touches, by the values the
//! program reads and writes of them.

use vstd::prelude::*;

use crate::address::Address;
use crate::state::VaultState;

verus! {

/// A wallet or a system-owned account: its address and balance.
#[derive(Clone, Copy, Debug, PartialEq, Eq)]
pub struct WalletAccount {
    pub key: Address,
    pub lamports: u64,
}

/// The vault-state account: its address, its balance and, once it is
/// initialized, the vault state it stores.
#[derive(Clone, Copy, Debug, PartialEq, Eq)]
pub struct StateAccount {
    pub key: Address,
    pub lamports: u64,
    pub data: Option<VaultState>,
}

/// The accounts that every instruction of the vault is given: the signing
/// wallet, the vault-state account and the vault.
#[derive(Clone, Copy, Debug, PartialEq, Eq)]
pub struct VaultAccounts {
    /// The signer of the instruction.
    pub authority: WalletAccount,
    /// The account that records who owns the vault.
    pub vault_state: StateAccount,
    /// The account that holds the vault's lamports.
    pub vault: WalletAccount,
}

/// The accounts of the instruction that opens a vault.
pub type Initialize = VaultAccounts;

/// The accounts of the instruction that puts lamports into a vault.
pub type Deposit = VaultAccounts;

/// The accounts of the instruction that takes lamports out of a vault.
pub type Withdraw = VaultAccounts;

/// The accounts of the instruction that empties and closes a vault.
pub type Close = VaultAccounts;

impl VaultAccounts {
    /// The lamports that the three accounts hold together.
    pub open spec fn total_lamports(self) -> int {
        self.authority.lamports + self.vault_state.lamports + self.vault.lamports
    }

    /// The accounts with the signer's balance set to `authority`, the
    /// vault-state account's to `state` and the vault's to `vault`.
    pub open spec fn with_lamports(self, authority: int, state: int, vault: int) -> VaultAccounts {
        VaultAccounts {
            authority: WalletAccount { key: self.authority.key, lamports: authority as u64 },
            vault_state: StateAccount {
                key: self.vault_state.key,
                lamports: state as u64,
                data: self.vault_state.data,
            },
            vault: WalletAccount { key: self.vault.key, lamports: vault as u64 },
        }
    }
}

} // verus!
