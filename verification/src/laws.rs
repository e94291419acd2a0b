//! What holds of the vault's instructions for all accounts and amounts.

use vstd::prelude::*;

use crate::accounts::{VaultAccounts, WalletAccount};
use crate::error::{CustomError, VaultError};
use crate::instructions::close::close_done;
use crate::instructions::deposit::{deposit_done, deposit_refusal};
use crate::instructions::initialize::initialize_done;
use crate::instructions::withdraw::{after_withdraw, withdraw_done, withdraw_refusal};
use crate::instructions::{derives, finds, stored_state_address, stored_vault_address};
use crate::state::VaultState;

verus! {

/// A withdrawal that succeeds leaves the vault with at least the rent-exempt
/// minimum.
pub proof fn lemma_withdraw_keeps_vault_rent_exempt(
    pre: VaultAccounts,
    post: VaultAccounts,
    state_address: Option<Seq<u8>>,
    vault_address: Option<Seq<u8>>,
    amount: u64,
    rent_exempt_minimum: u64,
    res: Result<u64, VaultError>,
)
    requires
        withdraw_done(pre, post, state_address, vault_address, amount, rent_exempt_minimum, res),
        res is Ok,
    ensures
        post.vault.lamports >= rent_exempt_minimum,
        post.vault.lamports == pre.vault.lamports - amount,
{
}

/// Only the wallet recorded as the vault's authority can withdraw: a
/// withdrawal that succeeds was signed by it, and one signed by another
/// wallet, on a vault-state account at its derived address, is refused with
/// `InvalidAuthority`.
pub proof fn lemma_only_authority_withdraws(
    pre: VaultAccounts,
    post: VaultAccounts,
    state_address: Option<Seq<u8>>,
    vault_address: Option<Seq<u8>>,
    amount: u64,
    rent_exempt_minimum: u64,
    res: Result<u64, VaultError>,
)
    requires
        withdraw_done(pre, post, state_address, vault_address, amount, rent_exempt_minimum, res),
    ensures
        res is Ok ==> (pre.vault_state.data matches Some(st) && st.authority@ == pre.authority.key@),
        (pre.vault_state.data matches Some(st) && st.authority@ != pre.authority.key@)
            && derives(state_address, pre.vault_state.key)
            ==> res == Err::<u64, VaultError>(VaultError::Program(CustomError::InvalidAuthority)),
{
}

/// Only the wallet recorded as the vault's authority can close the vault: a
/// close that succeeds was signed by it, and one signed by another wallet,
/// on a vault-state account at its derived address, is refused with
/// `InvalidAuthority`.
pub proof fn lemma_only_authority_closes(
    pre: VaultAccounts,
    post: VaultAccounts,
    state_address: Option<Seq<u8>>,
    vault_found: Option<(Seq<u8>, u8)>,
    res: Result<u64, VaultError>,
)
    requires
        close_done(pre, post, state_address, vault_found, res),
    ensures
        res is Ok ==> (pre.vault_state.data matches Some(st) && st.authority@ == pre.authority.key@),
        (pre.vault_state.data matches Some(st) && st.authority@ != pre.authority.key@)
            && derives(state_address, pre.vault_state.key)
            ==> res == Err::<u64, VaultError>(VaultError::Program(CustomError::InvalidAuthority)),
{
}

/// On a vault whose accounts are at their derived addresses, a withdrawal by
/// the recorded authority succeeds exactly when the vault holds the amount
/// and keeps the rent-exempt minimum after it (and the authority's balance
/// can take the amount); otherwise, when the vault cannot, it is refused with
/// `InsufficientBalance`.
pub proof fn lemma_withdraw_succeeds_when_balance_allows(
    pre: VaultAccounts,
    post: VaultAccounts,
    state_address: Option<Seq<u8>>,
    vault_address: Option<Seq<u8>>,
    amount: u64,
    rent_exempt_minimum: u64,
    res: Result<u64, VaultError>,
)
    requires
        withdraw_done(pre, post, state_address, vault_address, amount, rent_exempt_minimum, res),
        pre.vault_state.data matches Some(st) && st.authority@ == pre.authority.key@,
        derives(state_address, pre.vault_state.key),
        derives(vault_address, pre.vault.key),
    ensures
        res is Ok <==> amount <= pre.vault.lamports && pre.vault.lamports - amount >= rent_exempt_minimum
            && pre.authority.lamports + amount <= u64::MAX,
        amount > pre.vault.lamports || pre.vault.lamports - amount < rent_exempt_minimum
            ==> res == Err::<u64, VaultError>(VaultError::Program(CustomError::InsufficientBalance)),
{
}

/// Anyone may deposit: whether a deposit is refused, and why, does not depend
/// on which wallet signs, only on its balance.
pub proof fn lemma_deposit_ignores_signer(
    pre1: VaultAccounts,
    pre2: VaultAccounts,
    state_address: Option<Seq<u8>>,
    vault_address: Option<Seq<u8>>,
    amount: u64,
)
    requires
        pre1.vault_state == pre2.vault_state,
        pre1.vault == pre2.vault,
        pre1.authority.lamports == pre2.authority.lamports,
    ensures
        deposit_refusal(pre1, state_address, vault_address, amount)
            == deposit_refusal(pre2, state_address, vault_address, amount),
{
}

/// A deposit that succeeds moves the amount from the signer to the vault,
/// keeps the lamports of the three accounts together, and leaves the stored
/// vault state as it was.
pub proof fn lemma_deposit_conserves_lamports(
    pre: VaultAccounts,
    post: VaultAccounts,
    state_address: Option<Seq<u8>>,
    vault_address: Option<Seq<u8>>,
    amount: u64,
    res: Result<u64, VaultError>,
)
    requires
        deposit_done(pre, post, state_address, vault_address, amount, res),
    ensures
        post.total_lamports() == pre.total_lamports(),
        post.vault_state == pre.vault_state,
        res is Ok ==> post.vault.lamports == pre.vault.lamports + amount,
{
}

/// A withdrawal keeps the lamports of the three accounts together and leaves
/// the stored vault state as it was.
pub proof fn lemma_withdraw_conserves_lamports(
    pre: VaultAccounts,
    post: VaultAccounts,
    state_address: Option<Seq<u8>>,
    vault_address: Option<Seq<u8>>,
    amount: u64,
    rent_exempt_minimum: u64,
    res: Result<u64, VaultError>,
)
    requires
        withdraw_done(pre, post, state_address, vault_address, amount, rent_exempt_minimum, res),
    ensures
        post.total_lamports() == pre.total_lamports(),
        post.vault_state == pre.vault_state,
{
}

/// Opening a vault keeps the lamports of the three accounts together: what
/// the signer pays, the vault-state account receives.
pub proof fn lemma_initialize_conserves_lamports(
    pre: VaultAccounts,
    post: VaultAccounts,
    state_found: Option<(Seq<u8>, u8)>,
    vault_found: Option<(Seq<u8>, u8)>,
    rent_exempt_minimum: u64,
    res: Result<u64, VaultError>,
)
    requires
        initialize_done(pre, post, state_found, vault_found, rent_exempt_minimum, res),
    ensures
        post.total_lamports() == pre.total_lamports(),
        res matches Ok(paid) ==> post.vault_state.lamports == pre.vault_state.lamports + paid
            && post.authority.lamports == pre.authority.lamports - paid,
{
}

/// A vault opened successfully records the signer as its authority, and its
/// vault-state account holds at least the rent-exempt minimum.
pub proof fn lemma_initialize_records_signer(
    pre: VaultAccounts,
    post: VaultAccounts,
    state_found: Option<(Seq<u8>, u8)>,
    vault_found: Option<(Seq<u8>, u8)>,
    rent_exempt_minimum: u64,
    res: Result<u64, VaultError>,
)
    requires
        initialize_done(pre, post, state_found, vault_found, rent_exempt_minimum, res),
        res is Ok,
    ensures
        post.vault_state.data matches Some(st) && st.authority == pre.authority.key,
        post.vault_state.lamports >= rent_exempt_minimum,
        finds(state_found, post.vault_state.key),
        finds(vault_found, post.vault.key),
{
}

/// Closing drains the vault and the vault-state account into the signer,
/// keeps the lamports of the three accounts together, and erases the vault
/// state.
pub proof fn lemma_close_drains_vault(
    pre: VaultAccounts,
    post: VaultAccounts,
    state_address: Option<Seq<u8>>,
    vault_found: Option<(Seq<u8>, u8)>,
    res: Result<u64, VaultError>,
)
    requires
        close_done(pre, post, state_address, vault_found, res),
    ensures
        post.total_lamports() == pre.total_lamports(),
        res is Ok ==> {
            &&& post.vault.lamports == 0
            &&& post.vault_state.lamports == 0
            &&& post.vault_state.data is None
            &&& post.authority.lamports == pre.authority.lamports + pre.vault.lamports + pre.vault_state.lamports
        },
{
}

/// An instruction that is refused changes no account.
pub proof fn lemma_refusal_changes_nothing(
    pre: VaultAccounts,
    post: VaultAccounts,
    state_address: Option<Seq<u8>>,
    vault_address: Option<Seq<u8>>,
    state_found: Option<(Seq<u8>, u8)>,
    vault_found: Option<(Seq<u8>, u8)>,
    amount: u64,
    rent_exempt_minimum: u64,
    res: Result<u64, VaultError>,
)
    requires
        res is Err,
        initialize_done(pre, post, state_found, vault_found, rent_exempt_minimum, res)
            || deposit_done(pre, post, state_address, vault_address, amount, res)
            || withdraw_done(pre, post, state_address, vault_address, amount, rent_exempt_minimum, res)
            || close_done(pre, post, state_address, vault_found, res),
    ensures
        post == pre,
{
}

/// On an opened vault, whose recorded bumps re-derive its two addresses, any
/// wallet may deposit: the deposit is refused only when the signer lacks the
/// amount or the vault's balance cannot take it.
pub proof fn lemma_opened_vault_takes_deposits(
    opened: VaultAccounts,
    signer: WalletAccount,
    program_id: Seq<u8>,
    amount: u64,
)
    requires
        opened.vault_state.data is Some,
        stored_state_address(opened, program_id) == Some(opened.vault_state.key@),
        stored_vault_address(opened, program_id) == Some(opened.vault.key@),
    ensures
        ({
            let pre = VaultAccounts { authority: signer, vault_state: opened.vault_state, vault: opened.vault };
            &&& stored_state_address(pre, program_id) == stored_state_address(opened, program_id)
            &&& stored_vault_address(pre, program_id) == stored_vault_address(opened, program_id)
            &&& (deposit_refusal(pre, stored_state_address(pre, program_id), stored_vault_address(pre, program_id), amount) is None
                <==> amount <= signer.lamports && opened.vault.lamports + amount <= u64::MAX)
        }),
{
}

/// Depositing an amount and then withdrawing it, both by the recorded
/// authority, gives back the accounts as they were, provided the vault held
/// the rent-exempt minimum before the deposit.
pub proof fn lemma_deposit_then_withdraw_restores(
    pre: VaultAccounts,
    mid: VaultAccounts,
    state_address: Option<Seq<u8>>,
    vault_address: Option<Seq<u8>>,
    amount: u64,
    rent_exempt_minimum: u64,
    deposited: Result<u64, VaultError>,
)
    requires
        deposit_done(pre, mid, state_address, vault_address, amount, deposited),
        deposited is Ok,
        pre.vault_state.data matches Some(st) && st.authority@ == pre.authority.key@,
        pre.vault.lamports >= rent_exempt_minimum,
    ensures
        withdraw_refusal(mid, state_address, vault_address, amount, rent_exempt_minimum) is None,
        after_withdraw(mid, amount) == pre,
{
}

/// A deposit that succeeds reports as moved exactly the amount asked, which
/// is what the signer loses and the vault gains; no other account changes.
pub proof fn lemma_deposit_moves_the_amount(
    pre: VaultAccounts,
    post: VaultAccounts,
    state_address: Option<Seq<u8>>,
    vault_address: Option<Seq<u8>>,
    amount: u64,
    res: Result<u64, VaultError>,
)
    requires
        deposit_done(pre, post, state_address, vault_address, amount, res),
    ensures
        res matches Ok(moved) ==> {
            &&& moved == amount
            &&& post.authority.lamports + moved == pre.authority.lamports
            &&& post.vault.lamports == pre.vault.lamports + moved
            &&& post.authority.key == pre.authority.key
            &&& post.vault.key == pre.vault.key
            &&& post.vault_state == pre.vault_state
        },
{
}

/// On an opened vault whose accounts are at their derived addresses, a
/// deposit by any signer that holds the amount, into a vault whose balance
/// can take it, succeeds and moves the amount.
pub proof fn lemma_deposit_succeeds_when_funded(
    pre: VaultAccounts,
    post: VaultAccounts,
    state_address: Option<Seq<u8>>,
    vault_address: Option<Seq<u8>>,
    amount: u64,
    res: Result<u64, VaultError>,
)
    requires
        deposit_done(pre, post, state_address, vault_address, amount, res),
        pre.vault_state.data is Some,
        derives(state_address, pre.vault_state.key),
        derives(vault_address, pre.vault.key),
        amount <= pre.authority.lamports,
        pre.vault.lamports + amount <= u64::MAX,
    ensures
        res == Ok::<u64, VaultError>(amount),
        post.vault.lamports == pre.vault.lamports + amount,
        post.authority.lamports == pre.authority.lamports - amount,
{
}

/// A withdrawal that succeeds reports as moved exactly the amount asked,
/// which is what the vault loses and the signer gains; no other account
/// changes.
pub proof fn lemma_withdraw_moves_the_amount(
    pre: VaultAccounts,
    post: VaultAccounts,
    state_address: Option<Seq<u8>>,
    vault_address: Option<Seq<u8>>,
    amount: u64,
    rent_exempt_minimum: u64,
    res: Result<u64, VaultError>,
)
    requires
        withdraw_done(pre, post, state_address, vault_address, amount, rent_exempt_minimum, res),
    ensures
        res matches Ok(moved) ==> {
            &&& moved == amount
            &&& post.vault.lamports + moved == pre.vault.lamports
            &&& post.authority.lamports == pre.authority.lamports + moved
            &&& post.authority.key == pre.authority.key
            &&& post.vault.key == pre.vault.key
            &&& post.vault_state == pre.vault_state
        },
{
}

/// A close that succeeds reports as moved everything the vault held, and the
/// signer receives that and the vault-state account's balance, both of which
/// end at zero with the vault state erased.
pub proof fn lemma_close_moves_everything(
    pre: VaultAccounts,
    post: VaultAccounts,
    state_address: Option<Seq<u8>>,
    vault_found: Option<(Seq<u8>, u8)>,
    res: Result<u64, VaultError>,
)
    requires
        close_done(pre, post, state_address, vault_found, res),
    ensures
        res matches Ok(moved) ==> {
            &&& moved == pre.vault.lamports
            &&& post.authority.lamports == pre.authority.lamports + moved + pre.vault_state.lamports
            &&& post.vault.lamports == 0
            &&& post.vault_state.lamports == 0
            &&& post.vault_state.data is None
            &&& post.authority.key == pre.authority.key
        },
{
}

/// On a vault whose accounts are at their derived addresses, a close signed
/// by the recorded authority (which is not the vault-state account itself)
/// succeeds whenever the three balances together fit in a `u64`, whatever
/// the vault and the signer hold: the signer ends with all three balances.
pub proof fn lemma_close_succeeds_for_authority(
    pre: VaultAccounts,
    post: VaultAccounts,
    state_address: Option<Seq<u8>>,
    vault_found: Option<(Seq<u8>, u8)>,
    res: Result<u64, VaultError>,
)
    requires
        close_done(pre, post, state_address, vault_found, res),
        pre.vault_state.data matches Some(st) && st.authority@ == pre.authority.key@,
        pre.vault_state.key@ != pre.authority.key@,
        derives(state_address, pre.vault_state.key),
        finds(vault_found, pre.vault.key),
        pre.authority.lamports + pre.vault.lamports + pre.vault_state.lamports <= u64::MAX,
    ensures
        res == Ok::<u64, VaultError>(pre.vault.lamports),
        post.authority.lamports == pre.authority.lamports + pre.vault.lamports + pre.vault_state.lamports,
        post.vault.lamports == 0,
        post.vault_state.lamports == 0,
        post.vault_state.data is None,
{
}

/// On a vault whose accounts are at their derived addresses, a withdrawal
/// signed by the recorded authority that leaves the vault at least the
/// rent-exempt minimum, into a wallet whose balance can take it, succeeds and
/// moves the amount.
pub proof fn lemma_withdraw_succeeds_for_authority(
    pre: VaultAccounts,
    post: VaultAccounts,
    state_address: Option<Seq<u8>>,
    vault_address: Option<Seq<u8>>,
    amount: u64,
    rent_exempt_minimum: u64,
    res: Result<u64, VaultError>,
)
    requires
        withdraw_done(pre, post, state_address, vault_address, amount, rent_exempt_minimum, res),
        pre.vault_state.data matches Some(st) && st.authority@ == pre.authority.key@,
        derives(state_address, pre.vault_state.key),
        derives(vault_address, pre.vault.key),
        amount + rent_exempt_minimum <= pre.vault.lamports,
        pre.authority.lamports + amount <= u64::MAX,
    ensures
        res == Ok::<u64, VaultError>(amount),
        post.vault.lamports == pre.vault.lamports - amount,
        post.authority.lamports == pre.authority.lamports + amount,
{
}

/// Opening a vault: what succeeds reports as paid what the signer loses and
/// the vault-state account gains, leaves that account at least the
/// rent-exempt minimum, and pays no more than the minimum (or one lamport
/// where the minimum is zero); on an empty vault-state account at its found
/// address, with the vault at its found address, a signer holding the minimum
/// succeeds and pays exactly the minimum.
pub proof fn lemma_initialize_pays_rent(
    pre: VaultAccounts,
    post: VaultAccounts,
    state_found: Option<(Seq<u8>, u8)>,
    vault_found: Option<(Seq<u8>, u8)>,
    rent_exempt_minimum: u64,
    res: Result<u64, VaultError>,
)
    requires
        initialize_done(pre, post, state_found, vault_found, rent_exempt_minimum, res),
    ensures
        res matches Ok(paid) ==> {
            &&& post.authority.lamports + paid == pre.authority.lamports
            &&& post.vault_state.lamports == pre.vault_state.lamports + paid
            &&& post.vault_state.lamports >= rent_exempt_minimum
            &&& paid <= rent_exempt_minimum || (rent_exempt_minimum == 0 && paid <= 1)
            &&& post.vault == pre.vault
            &&& state_found matches Some((_, state_bump))
            &&& vault_found matches Some((_, vault_bump))
            &&& post.vault_state.data == Some(VaultState {
                authority: pre.authority.key,
                state_bump: state_bump,
                vault_bump: vault_bump,
            })
        },
        finds(state_found, pre.vault_state.key) && finds(vault_found, pre.vault.key)
            && pre.vault_state.data is None && pre.vault_state.lamports == 0
            && rent_exempt_minimum <= pre.authority.lamports
            ==> res == Ok::<u64, VaultError>(rent_exempt_minimum),
{
}

} // verus!
