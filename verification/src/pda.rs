//! Program-derived addresses: the vault-state account derives from the vault
//! seed and the authority's address, the vault from the vault seed and the
//! vault-state address.

use anchor_lang::prelude::Pubkey;
use vstd::prelude::*;
use vstd::string::StringSliceAdditionalSpecFns;

use crate::address::Address;
use crate::constants::VAULT_SEED;

verus! {

/// The address that `Pubkey::create_program_address` derives from `seeds`
/// (the bump, where there is one, is the last seed) for `program_id`, or
/// `None` where it refuses them.
pub uninterp spec fn program_address(seeds: Seq<Seq<u8>>, program_id: Seq<u8>) -> Option<Seq<u8>>;

/// The address and bump that `Pubkey::try_find_program_address` finds for
/// `seeds` and `program_id`, or `None` where it finds none.
pub uninterp spec fn found_program_address(seeds: Seq<Seq<u8>>, program_id: Seq<u8>) -> Option<(Seq<u8>, u8)>;

/// An optional address by its bytes.
pub open spec fn address_bytes(a: Option<Address>) -> Option<Seq<u8>> {
    match a {
        Some(a) => Some(a@),
        None => None,
    }
}

/// An optional address and bump by the address's bytes.
pub open spec fn found_bytes(f: Option<(Address, u8)>) -> Option<(Seq<u8>, u8)> {
    match f {
        Some((a, b)) => Some((a@, b)),
        None => None,
    }
}

/// The bytes of the vault seed.
pub open spec fn vault_seed() -> Seq<u8> {
    VAULT_SEED.spec_bytes()
}

/// Seeds of the vault-state account of the wallet `authority`.
pub open spec fn state_seeds(authority: Seq<u8>) -> Seq<Seq<u8>> {
    seq![vault_seed(), authority]
}

/// Seeds of the vault that belongs to the vault-state account `state`.
pub open spec fn vault_seeds(state: Seq<u8>) -> Seq<Seq<u8>> {
    seq![vault_seed(), state]
}

/// The seeds `seeds` followed by the one-byte seed `bump`.
pub open spec fn with_bump(seeds: Seq<Seq<u8>>, bump: u8) -> Seq<Seq<u8>> {
    seeds.push(seq![bump])
}

/// `Pubkey::create_program_address(&[prefix, key, &[bump]], program_id)`.
///
/// Claims that the result is `program_address` of those seeds, with `None`
/// where the call returns an error.
#[verifier::external_body]
fn create_program_address(prefix: &[u8], key: &Address, bump: u8, program_id: &Address) -> (res: Option<Address>)
    ensures
        address_bytes(res) == program_address(seq![prefix@, key@, seq![bump]], program_id@),
{
    let bump_seed = [bump];
    let pid = Pubkey::new_from_array(program_id.bytes);
    match Pubkey::create_program_address(&[prefix, &key.bytes, &bump_seed], &pid) {
        Ok(a) => Some(Address { bytes: a.to_bytes() }),
        Err(_) => None,
    }
}

/// `Pubkey::try_find_program_address(&[prefix, key], program_id)`.
///
/// Claims that the result is `found_program_address` of those seeds, and, as
/// the function's source and documentation show, that a found address is the
/// one `create_program_address` derives from the seeds followed by the found
/// bump.
#[verifier::external_body]
fn try_find_program_address(prefix: &[u8], key: &Address, program_id: &Address) -> (res: Option<(Address, u8)>)
    ensures
        found_bytes(res) == found_program_address(seq![prefix@, key@], program_id@),
        res matches Some((a, b)) ==> program_address(
            with_bump(seq![prefix@, key@], b),
            program_id@,
        ) == Some(a@),
{
    let pid = Pubkey::new_from_array(program_id.bytes);
    match Pubkey::try_find_program_address(&[prefix, &key.bytes], &pid) {
        Some((a, b)) => Some((Address { bytes: a.to_bytes() }, b)),
        None => None,
    }
}

/// The vault-state address of `authority`, derived with the stored `bump`.
pub fn state_address_with_bump(authority: &Address, bump: u8, program_id: &Address) -> (res: Option<Address>)
    ensures
        address_bytes(res) == program_address(with_bump(state_seeds(authority@), bump), program_id@),
{
    let res = create_program_address(VAULT_SEED.as_bytes(), authority, bump, program_id);
    assert(seq![vault_seed(), authority@, seq![bump]] =~= with_bump(state_seeds(authority@), bump));
    res
}

/// The vault address of the vault-state account `state`, derived with the
/// stored `bump`.
pub fn vault_address_with_bump(state: &Address, bump: u8, program_id: &Address) -> (res: Option<Address>)
    ensures
        address_bytes(res) == program_address(with_bump(vault_seeds(state@), bump), program_id@),
{
    let res = create_program_address(VAULT_SEED.as_bytes(), state, bump, program_id);
    assert(seq![vault_seed(), state@, seq![bump]] =~= with_bump(vault_seeds(state@), bump));
    res
}

/// The vault-state address of `authority` and its canonical bump.
pub fn find_state_address(authority: &Address, program_id: &Address) -> (res: Option<(Address, u8)>)
    ensures
        found_bytes(res) == found_program_address(state_seeds(authority@), program_id@),
        res matches Some((a, b)) ==> program_address(with_bump(state_seeds(authority@), b), program_id@) == Some(a@),
{
    try_find_program_address(VAULT_SEED.as_bytes(), authority, program_id)
}

/// The vault address of the vault-state account `state` and its canonical
/// bump.
pub fn find_vault_address(state: &Address, program_id: &Address) -> (res: Option<(Address, u8)>)
    ensures
        found_bytes(res) == found_program_address(vault_seeds(state@), program_id@),
        res matches Some((a, b)) ==> program_address(with_bump(vault_seeds(state@), b), program_id@) == Some(a@),
{
    try_find_program_address(VAULT_SEED.as_bytes(), state, program_id)
}

} // verus!
