//! Operations of the system program: the life of accounts, lamports, and
//! nonce accounts.
//!
//! Each operation checks the accounts it was handed, in the order of their
//! positions, and answers with the invocation to make. It reads the accounts'
//! flags and nothing else.

use crate::account::{
    first_violation_from, guarded, require_accounts, require_signer, require_writable, signer_at,
    writable_at, Account,
};
use crate::failure::Failure;
use crate::invocation::Invocation;
use crate::wire::Identifier;
use vstd::prelude::*;

verus! {

/// What [`process_assign`] answers: the invocation, unless too few accounts
/// were supplied or one of them lacks what it has to hold.
pub open spec fn assign_outcome(
    accounts: Seq<Account>,
    owner: Identifier,
) -> Result<Invocation<'static>, Failure> {
    guarded(accounts, 1, seq![signer_at(0)], Invocation::Assign { account: 0, owner })
}

/// Prepares the invocation that hands the account over to the program `owner`.
///
/// Accounts, by position:
/// 0. `[signer]` the account that gets a new owner
pub fn process_assign(
    accounts: &[Account],
    owner: &Identifier,
) -> (result: Result<Invocation<'static>, Failure>)
    ensures
        result == assign_outcome(accounts@, *owner),
        result matches Ok(invocation) ==> invocation.within(accounts@.len()),
{
    proof {
        reveal_with_fuel(first_violation_from, 2);
    }
    require_accounts(accounts, 1)?;
    require_signer(accounts, 0)?;
    Ok(Invocation::Assign { account: 0, owner: *owner })
}

/// What [`process_transfer`] answers: the invocation, unless too few accounts
/// were supplied or one of them lacks what it has to hold.
pub open spec fn transfer_outcome(
    accounts: Seq<Account>,
    lamports: u64,
) -> Result<Invocation<'static>, Failure> {
    guarded(
        accounts,
        2,
        seq![signer_at(0), writable_at(0), writable_at(1)],
        Invocation::Transfer { from: 0, to: 1, lamports },
    )
}

/// Prepares the invocation that moves `lamports` from the first account to the
/// second.
///
/// Accounts, by position:
/// 0. `[signer, writable]` the account that pays
/// 1. `[writable]` the account that receives
pub fn process_transfer(
    accounts: &[Account],
    lamports: u64,
) -> (result: Result<Invocation<'static>, Failure>)
    ensures
        result == transfer_outcome(accounts@, lamports),
        result matches Ok(invocation) ==> invocation.within(accounts@.len()),
{
    proof {
        reveal_with_fuel(first_violation_from, 4);
    }
    require_accounts(accounts, 2)?;
    require_signer(accounts, 0)?;
    require_writable(accounts, 0)?;
    require_writable(accounts, 1)?;
    Ok(Invocation::Transfer { from: 0, to: 1, lamports })
}

/// What [`process_create_account`] answers: the invocation, unless too few
/// accounts were supplied or one of them lacks what it has to hold.
pub open spec fn create_account_outcome(
    accounts: Seq<Account>,
    lamports: u64,
    space: u64,
    owner: Identifier,
) -> Result<Invocation<'static>, Failure> {
    guarded(
        accounts,
        2,
        seq![signer_at(0), signer_at(1)],
        Invocation::CreateAccount { from: 0, to: 1, lamports, space, owner },
    )
}

/// Prepares the invocation that creates the second account with `space` bytes
/// of data, owned by the program `owner`, and has the first account fund it
/// with `lamports`. Whether the two accounts are writable is left to the system
/// program to judge.
///
/// Accounts, by position:
/// 0. `[signer]` the account that pays
/// 1. `[signer]` the account that is created
pub fn process_create_account(
    accounts: &[Account],
    lamports: u64,
    space: u64,
    owner: &Identifier,
) -> (result: Result<Invocation<'static>, Failure>)
    ensures
        result == create_account_outcome(accounts@, lamports, space, *owner),
        result matches Ok(invocation) ==> invocation.within(accounts@.len()),
{
    proof {
        reveal_with_fuel(first_violation_from, 3);
    }
    require_accounts(accounts, 2)?;
    require_signer(accounts, 0)?;
    require_signer(accounts, 1)?;
    Ok(Invocation::CreateAccount { from: 0, to: 1, lamports, space, owner: *owner })
}

/// What [`process_allocate`] answers: the invocation, unless too few accounts
/// were supplied or one of them lacks what it has to hold.
pub open spec fn allocate_outcome(
    accounts: Seq<Account>,
    space: u64,
) -> Result<Invocation<'static>, Failure> {
    guarded(accounts, 1, seq![signer_at(0)], Invocation::Allocate { account: 0, space })
}

/// Prepares the invocation that gives the account `space` bytes of data.
///
/// Accounts, by position:
/// 0. `[signer]` the account that gets the space
pub fn process_allocate(
    accounts: &[Account],
    space: u64,
) -> (result: Result<Invocation<'static>, Failure>)
    ensures
        result == allocate_outcome(accounts@, space),
        result matches Ok(invocation) ==> invocation.within(accounts@.len()),
{
    proof {
        reveal_with_fuel(first_violation_from, 2);
    }
    require_accounts(accounts, 1)?;
    require_signer(accounts, 0)?;
    Ok(Invocation::Allocate { account: 0, space })
}

/// What [`process_allocate_with_seed`] answers: the invocation, unless too few
/// accounts were supplied or one of them lacks what it has to hold.
pub open spec fn allocate_with_seed_outcome<'a>(
    accounts: Seq<Account>,
    seed: &'a str,
    space: u64,
    owner: Identifier,
) -> Result<Invocation<'a>, Failure> {
    guarded(
        accounts,
        2,
        seq![signer_at(1)],
        Invocation::AllocateWithSeed { account: 0, base: 1, seed, space, owner },
    )
}

/// Prepares the invocation that gives `space` bytes of data to an account whose
/// address is derived from the base account, `seed` and `owner`.
///
/// Accounts, by position:
/// 0. the account that gets the space
/// 1. `[signer]` the base account
pub fn process_allocate_with_seed<'a>(
    accounts: &[Account],
    seed: &'a str,
    space: u64,
    owner: &Identifier,
) -> (result: Result<Invocation<'a>, Failure>)
    ensures
        result == allocate_with_seed_outcome(accounts@, seed, space, *owner),
        result matches Ok(invocation) ==> invocation.within(accounts@.len()),
{
    proof {
        reveal_with_fuel(first_violation_from, 2);
    }
    require_accounts(accounts, 2)?;
    require_signer(accounts, 1)?;
    Ok(Invocation::AllocateWithSeed { account: 0, base: 1, seed, space, owner: *owner })
}

/// What [`process_assign_with_seed`] answers: the invocation, unless too few
/// accounts were supplied or one of them lacks what it has to hold.
pub open spec fn assign_with_seed_outcome<'a>(
    accounts: Seq<Account>,
    seed: &'a str,
    owner: Identifier,
) -> Result<Invocation<'a>, Failure> {
    guarded(
        accounts,
        2,
        seq![signer_at(1)],
        Invocation::AssignWithSeed { account: 0, base: 1, seed, owner },
    )
}

/// Prepares the invocation that hands an account whose address is derived from
/// the base account, `seed` and `owner` over to the program `owner`.
///
/// Accounts, by position:
/// 0. the account that gets a new owner
/// 1. `[signer]` the base account
pub fn process_assign_with_seed<'a>(
    accounts: &[Account],
    seed: &'a str,
    owner: &Identifier,
) -> (result: Result<Invocation<'a>, Failure>)
    ensures
        result == assign_with_seed_outcome(accounts@, seed, *owner),
        result matches Ok(invocation) ==> invocation.within(accounts@.len()),
{
    proof {
        reveal_with_fuel(first_violation_from, 2);
    }
    require_accounts(accounts, 2)?;
    require_signer(accounts, 1)?;
    Ok(Invocation::AssignWithSeed { account: 0, base: 1, seed, owner: *owner })
}

/// What [`process_create_account_with_seed`] answers: the invocation, unless
/// too few accounts were supplied or one of them lacks what it has to hold.
pub open spec fn create_account_with_seed_outcome<'a>(
    accounts: Seq<Account>,
    seed: &'a str,
    lamports: u64,
    space: u64,
    owner: Identifier,
) -> Result<Invocation<'a>, Failure> {
    guarded(
        accounts,
        3,
        seq![signer_at(0)],
        Invocation::CreateAccountWithSeed {
            from: 0,
            to: 1,
            base: 2,
            seed,
            lamports,
            space,
            owner,
        },
    )
}

/// Prepares the invocation that creates an account at the address derived from
/// the base account, `seed` and `owner`, with `space` bytes of data, and has
/// the first account fund it with `lamports`.
///
/// Accounts, by position:
/// 0. `[signer]` the account that pays
/// 1. the account that is created
/// 2. the base account
pub fn process_create_account_with_seed<'a>(
    accounts: &[Account],
    seed: &'a str,
    lamports: u64,
    space: u64,
    owner: &Identifier,
) -> (result: Result<Invocation<'a>, Failure>)
    ensures
        result == create_account_with_seed_outcome(accounts@, seed, lamports, space, *owner),
        result matches Ok(invocation) ==> invocation.within(accounts@.len()),
{
    proof {
        reveal_with_fuel(first_violation_from, 2);
    }
    require_accounts(accounts, 3)?;
    require_signer(accounts, 0)?;
    Ok(
        Invocation::CreateAccountWithSeed {
            from: 0,
            to: 1,
            base: 2,
            seed,
            lamports,
            space,
            owner: *owner,
        },
    )
}

/// What [`process_advance_nonce_account`] answers: the invocation, unless too
/// few accounts were supplied or one of them lacks what it has to hold.
pub open spec fn advance_nonce_account_outcome(
    accounts: Seq<Account>,
) -> Result<Invocation<'static>, Failure> {
    guarded(
        accounts,
        3,
        seq![writable_at(0), signer_at(2)],
        Invocation::AdvanceNonceAccount {
            account: 0,
            recent_blockhashes_sysvar: 1,
            authority: 2,
        },
    )
}

/// Prepares the invocation that consumes the nonce that the nonce account holds
/// and stores the next one.
///
/// Accounts, by position:
/// 0. `[writable]` the nonce account
/// 1. the recent-blockhashes sysvar
/// 2. `[signer]` the authority over the nonce account
pub fn process_advance_nonce_account(
    accounts: &[Account],
) -> (result: Result<Invocation<'static>, Failure>)
    ensures
        result == advance_nonce_account_outcome(accounts@),
        result matches Ok(invocation) ==> invocation.within(accounts@.len()),
{
    proof {
        reveal_with_fuel(first_violation_from, 3);
    }
    require_accounts(accounts, 3)?;
    require_writable(accounts, 0)?;
    require_signer(accounts, 2)?;
    Ok(Invocation::AdvanceNonceAccount { account: 0, recent_blockhashes_sysvar: 1, authority: 2 })
}

/// What [`process_withdraw_nonce_account`] answers: the invocation, unless too
/// few accounts were supplied or one of them lacks what it has to hold.
pub open spec fn withdraw_nonce_account_outcome(
    accounts: Seq<Account>,
    lamports: u64,
) -> Result<Invocation<'static>, Failure> {
    guarded(
        accounts,
        5,
        seq![writable_at(0), writable_at(1), signer_at(4)],
        Invocation::WithdrawNonceAccount {
            account: 0,
            recipient: 1,
            recent_blockhashes_sysvar: 2,
            rent_sysvar: 3,
            authority: 4,
            lamports,
        },
    )
}

/// Prepares the invocation that takes `lamports` out of the nonce account and
/// hands them to the recipient.
///
/// Accounts, by position:
/// 0. `[writable]` the nonce account
/// 1. `[writable]` the account that receives
/// 2. the recent-blockhashes sysvar
/// 3. the rent sysvar
/// 4. `[signer]` the authority over the nonce account
pub fn process_withdraw_nonce_account(
    accounts: &[Account],
    lamports: u64,
) -> (result: Result<Invocation<'static>, Failure>)
    ensures
        result == withdraw_nonce_account_outcome(accounts@, lamports),
        result matches Ok(invocation) ==> invocation.within(accounts@.len()),
{
    proof {
        reveal_with_fuel(first_violation_from, 4);
    }
    require_accounts(accounts, 5)?;
    require_writable(accounts, 0)?;
    require_writable(accounts, 1)?;
    require_signer(accounts, 4)?;
    Ok(
        Invocation::WithdrawNonceAccount {
            account: 0,
            recipient: 1,
            recent_blockhashes_sysvar: 2,
            rent_sysvar: 3,
            authority: 4,
            lamports,
        },
    )
}

/// What [`process_initialize_nonce_account`] answers: the invocation, unless
/// too few accounts were supplied or one of them lacks what it has to hold.
pub open spec fn initialize_nonce_account_outcome(
    accounts: Seq<Account>,
    authority: Identifier,
) -> Result<Invocation<'static>, Failure> {
    guarded(
        accounts,
        3,
        seq![writable_at(0)],
        Invocation::InitializeNonceAccount {
            account: 0,
            recent_blockhashes_sysvar: 1,
            rent_sysvar: 2,
            authority,
        },
    )
}

/// Prepares the invocation that turns the account into a nonce account that
/// `authority` governs.
///
/// Accounts, by position:
/// 0. `[writable]` the nonce account
/// 1. the recent-blockhashes sysvar
/// 2. the rent sysvar
pub fn process_initialize_nonce_account(
    accounts: &[Account],
    authority: &Identifier,
) -> (result: Result<Invocation<'static>, Failure>)
    ensures
        result == initialize_nonce_account_outcome(accounts@, *authority),
        result matches Ok(invocation) ==> invocation.within(accounts@.len()),
{
    proof {
        reveal_with_fuel(first_violation_from, 2);
    }
    require_accounts(accounts, 3)?;
    require_writable(accounts, 0)?;
    Ok(
        Invocation::InitializeNonceAccount {
            account: 0,
            recent_blockhashes_sysvar: 1,
            rent_sysvar: 2,
            authority: *authority,
        },
    )
}

/// What [`process_authorize_nonce_account`] answers: the invocation, unless too
/// few accounts were supplied or one of them lacks what it has to hold.
pub open spec fn authorize_nonce_account_outcome(
    accounts: Seq<Account>,
    new_authority: Identifier,
) -> Result<Invocation<'static>, Failure> {
    guarded(
        accounts,
        2,
        seq![writable_at(0), signer_at(1)],
        Invocation::AuthorizeNonceAccount { account: 0, authority: 1, new_authority },
    )
}

/// Prepares the invocation that puts the nonce account under `new_authority`.
///
/// Accounts, by position:
/// 0. `[writable]` the nonce account
/// 1. `[signer]` the authority over the nonce account so far
pub fn process_authorize_nonce_account(
    accounts: &[Account],
    new_authority: &Identifier,
) -> (result: Result<Invocation<'static>, Failure>)
    ensures
        result == authorize_nonce_account_outcome(accounts@, *new_authority),
        result matches Ok(invocation) ==> invocation.within(accounts@.len()),
{
    proof {
        reveal_with_fuel(first_violation_from, 3);
    }
    require_accounts(accounts, 2)?;
    require_writable(accounts, 0)?;
    require_signer(accounts, 1)?;
    Ok(
        Invocation::AuthorizeNonceAccount {
            account: 0,
            authority: 1,
            new_authority: *new_authority,
        },
    )
}

/// What [`process_transfer_with_seed`] answers: the invocation, unless too few
/// accounts were supplied or one of them lacks what it has to hold.
pub open spec fn transfer_with_seed_outcome<'a>(
    accounts: Seq<Account>,
    lamports: u64,
    seed: &'a str,
    owner: Identifier,
) -> Result<Invocation<'a>, Failure> {
    guarded(
        accounts,
        3,
        seq![writable_at(0), signer_at(1), writable_at(2)],
        Invocation::TransferWithSeed { from: 0, base: 1, to: 2, lamports, seed, owner },
    )
}

/// Prepares the invocation that moves `lamports` out of an account whose
/// address is derived from the base account, `seed` and `owner`.
///
/// Accounts, by position:
/// 0. `[writable]` the account that pays
/// 1. `[signer]` the base account
/// 2. `[writable]` the account that receives
pub fn process_transfer_with_seed<'a>(
    accounts: &[Account],
    lamports: u64,
    seed: &'a str,
    owner: &Identifier,
) -> (result: Result<Invocation<'a>, Failure>)
    ensures
        result == transfer_with_seed_outcome(accounts@, lamports, seed, *owner),
        result matches Ok(invocation) ==> invocation.within(accounts@.len()),
{
    proof {
        reveal_with_fuel(first_violation_from, 4);
    }
    require_accounts(accounts, 3)?;
    require_writable(accounts, 0)?;
    require_signer(accounts, 1)?;
    require_writable(accounts, 2)?;
    Ok(Invocation::TransferWithSeed { from: 0, base: 1, to: 2, lamports, seed, owner: *owner })
}

/// What [`process_update_nonce_account`] answers: the invocation, unless too
/// few accounts were supplied or one of them lacks what it has to hold.
pub open spec fn update_nonce_account_outcome(
    accounts: Seq<Account>,
) -> Result<Invocation<'static>, Failure> {
    guarded(accounts, 1, seq![writable_at(0)], Invocation::UpgradeNonceAccount { account: 0 })
}

/// Prepares the invocation that brings the nonce account up to the current
/// layout.
///
/// Accounts, by position:
/// 0. `[writable]` the nonce account
pub fn process_update_nonce_account(
    accounts: &[Account],
) -> (result: Result<Invocation<'static>, Failure>)
    ensures
        result == update_nonce_account_outcome(accounts@),
        result matches Ok(invocation) ==> invocation.within(accounts@.len()),
{
    proof {
        reveal_with_fuel(first_violation_from, 2);
    }
    require_accounts(accounts, 1)?;
    require_writable(accounts, 0)?;
    Ok(Invocation::UpgradeNonceAccount { account: 0 })
}
} // verus!
