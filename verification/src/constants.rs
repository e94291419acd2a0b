use vstd::prelude::*;

verus! {

/// Prefix of the seeds from which both program addresses of a vault derive.
pub const VAULT_SEED: &'static str = "vault";

/// Bytes that Anchor puts before an account's data to tell its type.
pub const ANCHOR_DISCRIMINATOR_SIZE: usize = 8;

} // verus!
