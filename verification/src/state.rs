use vstd::prelude::*;

use crate::address::Address;

verus! {

/// What the vault-state account stores.
#[derive(Clone, Copy, Debug, PartialEq, Eq)]
pub struct VaultState {
    /// The wallet that is allowed to withdraw from and close this vault.
    pub authority: Address,
    /// Bump with which the vault-state address derives from its seeds.
    pub state_bump: u8,
    /// Bump with which the vault address derives from its seeds.
    pub vault_bump: u8,
}

impl VaultState {
    /// Bytes the stored fields take: an address and two bumps.
    pub const INIT_SPACE: usize = 34;
}

} // verus!
