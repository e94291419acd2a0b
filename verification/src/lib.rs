//! A Solana vault: a wallet opens a vault, anyone may deposit lamports into it,
//! and only the wallet that opened it may withdraw (keeping the vault rent
//! exempt) or close it.
//!
//! The library states the vault program's rules over plain values: account
//! addresses, lamport balances and the stored vault state.

pub mod accounts;
pub mod address;
pub mod constants;
pub mod error;
pub mod instructions;
pub mod laws;
pub mod pda;
pub mod state;
pub mod vault_program;

pub use accounts::{Close, Deposit, Initialize, StateAccount, VaultAccounts, WalletAccount, Withdraw};
pub use address::Address;
pub use constants::{ANCHOR_DISCRIMINATOR_SIZE, VAULT_SEED};
pub use error::{CustomError, VaultError};
pub use state::VaultState;
pub use vault_program::id;
