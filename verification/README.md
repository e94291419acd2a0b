# vault_program

A Solana vault: a wallet opens a vault, anyone may deposit lamports into it,
and only the wallet that opened it may withdraw (the vault must stay rent
exempt) or close it.

- `src/` is the verified library. It holds the program's rules over plain
  values: the accounts an instruction touches (`accounts.rs`), the addresses
  they must have (`pda.rs`, which calls Anchor's program-address derivation),
  the four instructions (`instructions/`), their entry points
  (`vault_program.rs`) and the laws that hold of them (`laws.rs`).
- `app/` is the on-chain Anchor program around the library: account types,
  the rent sysvar, and the system-program transfers that the library's
  decisions call for.
- `tests/` runs the instructions on concrete accounts.
