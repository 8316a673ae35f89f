//! Operations of the token program: mints, token accounts, and the tokens
//! they hold.
//!
//! Each operation checks the accounts it was handed, in the order of their
//! positions, and answers with the invocation to make. It reads the accounts'
//! flags and nothing else.

use crate::account::{
    first_violation_from, guarded, require_accounts, require_signer, require_writable, signer_at,
    writable_at, Account,
};
use crate::failure::Failure;
use crate::invocation::{AuthorityType, Invocation};
use crate::wire::{copied, Identifier};
use vstd::prelude::*;

verus! {

/// What [`process_initialize_mint`] answers: the invocation, unless too few
/// accounts were supplied or one of them lacks what it has to hold.
pub open spec fn initialize_mint_outcome(
    accounts: Seq<Account>,
    decimals: u8,
    mint_authority: Identifier,
    freeze_authority: Option<Identifier>,
) -> Result<Invocation<'static>, Failure> {
    guarded(
        accounts,
        2,
        seq![writable_at(0)],
        Invocation::InitializeMint {
            mint: 0,
            rent_sysvar: 1,
            decimals,
            mint_authority,
            freeze_authority,
        },
    )
}

/// Prepares the invocation that turns the account into a mint whose tokens have
/// `decimals` decimal places. `mint_authority` may mint; `freeze_authority`, if
/// there is one, may freeze accounts.
///
/// Accounts, by position:
/// 0. `[writable]` the mint
/// 1. the rent sysvar
pub fn process_initialize_mint(
    accounts: &[Account],
    decimals: u8,
    mint_authority: &Identifier,
    freeze_authority: Option<&Identifier>,
) -> (result: Result<Invocation<'static>, Failure>)
    ensures
        result == initialize_mint_outcome(
            accounts@,
            decimals,
            *mint_authority,
            copied(freeze_authority),
        ),
        result matches Ok(invocation) ==> invocation.within(accounts@.len()),
{
    proof {
        reveal_with_fuel(first_violation_from, 2);
    }
    require_accounts(accounts, 2)?;
    require_writable(accounts, 0)?;
    Ok(
        Invocation::InitializeMint {
            mint: 0,
            rent_sysvar: 1,
            decimals,
            mint_authority: *mint_authority,
            freeze_authority: copied(freeze_authority),
        },
    )
}

/// What [`process_initialize_account`] answers: the invocation, unless too few
/// accounts were supplied or one of them lacks what it has to hold.
pub open spec fn initialize_account_outcome(
    accounts: Seq<Account>,
) -> Result<Invocation<'static>, Failure> {
    guarded(
        accounts,
        4,
        seq![writable_at(0)],
        Invocation::InitializeAccount { account: 0, mint: 1, owner: 2, rent_sysvar: 3 },
    )
}

/// Prepares the invocation that turns the account into a token account of the
/// mint, held by the owner.
///
/// Accounts, by position:
/// 0. `[writable]` the token account
/// 1. the mint
/// 2. the owner of the token account
/// 3. the rent sysvar
pub fn process_initialize_account(
    accounts: &[Account],
) -> (result: Result<Invocation<'static>, Failure>)
    ensures
        result == initialize_account_outcome(accounts@),
        result matches Ok(invocation) ==> invocation.within(accounts@.len()),
{
    proof {
        reveal_with_fuel(first_violation_from, 2);
    }
    require_accounts(accounts, 4)?;
    require_writable(accounts, 0)?;
    Ok(Invocation::InitializeAccount { account: 0, mint: 1, owner: 2, rent_sysvar: 3 })
}

/// What [`process_transfer`] answers: the invocation, unless too few accounts
/// were supplied or one of them lacks what it has to hold.
pub open spec fn transfer_outcome(
    accounts: Seq<Account>,
    amount: u64,
) -> Result<Invocation<'static>, Failure> {
    guarded(
        accounts,
        2,
        seq![writable_at(0), signer_at(2)],
        Invocation::TokenTransfer { from: 0, to: 1, authority: 2, amount },
    )
}

/// Prepares the invocation that moves `amount` tokens from the first token
/// account to the second. The authority stands behind the two token accounts:
/// where it was not supplied, its signature is missing.
///
/// Accounts, by position:
/// 0. `[writable]` the token account that pays
/// 1. the token account that receives
/// 2. `[signer]` the owner or delegate of the paying account
pub fn process_transfer(
    accounts: &[Account],
    amount: u64,
) -> (result: Result<Invocation<'static>, Failure>)
    ensures
        result == transfer_outcome(accounts@, amount),
        result matches Ok(invocation) ==> invocation.within(accounts@.len()),
{
    proof {
        reveal_with_fuel(first_violation_from, 3);
    }
    require_accounts(accounts, 2)?;
    require_writable(accounts, 0)?;
    require_signer(accounts, 2)?;
    Ok(Invocation::TokenTransfer { from: 0, to: 1, authority: 2, amount })
}

/// What [`process_approve`] answers: the invocation, unless too few accounts
/// were supplied or one of them lacks what it has to hold.
pub open spec fn approve_outcome(
    accounts: Seq<Account>,
    amount: u64,
) -> Result<Invocation<'static>, Failure> {
    guarded(
        accounts,
        3,
        seq![writable_at(0), signer_at(2)],
        Invocation::Approve { source: 0, delegate: 1, authority: 2, amount },
    )
}

/// Prepares the invocation that lets the delegate spend up to `amount` tokens
/// of the token account.
///
/// Accounts, by position:
/// 0. `[writable]` the token account
/// 1. the delegate
/// 2. `[signer]` the owner of the token account
pub fn process_approve(
    accounts: &[Account],
    amount: u64,
) -> (result: Result<Invocation<'static>, Failure>)
    ensures
        result == approve_outcome(accounts@, amount),
        result matches Ok(invocation) ==> invocation.within(accounts@.len()),
{
    proof {
        reveal_with_fuel(first_violation_from, 3);
    }
    require_accounts(accounts, 3)?;
    require_writable(accounts, 0)?;
    require_signer(accounts, 2)?;
    Ok(Invocation::Approve { source: 0, delegate: 1, authority: 2, amount })
}

/// What [`process_revoke`] answers: the invocation, unless too few accounts
/// were supplied or one of them lacks what it has to hold.
pub open spec fn revoke_outcome(accounts: Seq<Account>) -> Result<Invocation<'static>, Failure> {
    guarded(
        accounts,
        2,
        seq![writable_at(0), signer_at(1)],
        Invocation::Revoke { source: 0, authority: 1 },
    )
}

/// Prepares the invocation that takes back what the token account's delegate
/// was allowed to spend.
///
/// Accounts, by position:
/// 0. `[writable]` the token account
/// 1. `[signer]` the owner of the token account
pub fn process_revoke(accounts: &[Account]) -> (result: Result<Invocation<'static>, Failure>)
    ensures
        result == revoke_outcome(accounts@),
        result matches Ok(invocation) ==> invocation.within(accounts@.len()),
{
    proof {
        reveal_with_fuel(first_violation_from, 3);
    }
    require_accounts(accounts, 2)?;
    require_writable(accounts, 0)?;
    require_signer(accounts, 1)?;
    Ok(Invocation::Revoke { source: 0, authority: 1 })
}

/// What [`process_set_authority`] answers: the invocation, unless too few
/// accounts were supplied or one of them lacks what it has to hold.
pub open spec fn set_authority_outcome(
    accounts: Seq<Account>,
    authority_type: AuthorityType,
    new_authority: Option<Identifier>,
) -> Result<Invocation<'static>, Failure> {
    guarded(
        accounts,
        2,
        seq![writable_at(0), signer_at(1)],
        Invocation::SetAuthority { account: 0, authority: 1, authority_type, new_authority },
    )
}

/// Prepares the invocation that hands the authority named by `authority_type`
/// to `new_authority`, or removes it where there is none.
///
/// Accounts, by position:
/// 0. `[writable]` the mint or token account
/// 1. `[signer]` the authority so far
pub fn process_set_authority(
    accounts: &[Account],
    authority_type: AuthorityType,
    new_authority: Option<&Identifier>,
) -> (result: Result<Invocation<'static>, Failure>)
    ensures
        result == set_authority_outcome(accounts@, authority_type, copied(new_authority)),
        result matches Ok(invocation) ==> invocation.within(accounts@.len()),
{
    proof {
        reveal_with_fuel(first_violation_from, 3);
    }
    require_accounts(accounts, 2)?;
    require_writable(accounts, 0)?;
    require_signer(accounts, 1)?;
    Ok(
        Invocation::SetAuthority {
            account: 0,
            authority: 1,
            authority_type,
            new_authority: copied(new_authority),
        },
    )
}

/// What [`process_mint_to`] answers: the invocation, unless too few accounts
/// were supplied or one of them lacks what it has to hold.
pub open spec fn mint_to_outcome(
    accounts: Seq<Account>,
    amount: u64,
) -> Result<Invocation<'static>, Failure> {
    guarded(
        accounts,
        3,
        seq![writable_at(0), writable_at(1), signer_at(2)],
        Invocation::MintTo { mint: 0, account: 1, mint_authority: 2, amount },
    )
}

/// Prepares the invocation that mints `amount` new tokens into the token
/// account.
///
/// Accounts, by position:
/// 0. `[writable]` the mint
/// 1. `[writable]` the token account that receives
/// 2. `[signer]` the authority that may mint
pub fn process_mint_to(
    accounts: &[Account],
    amount: u64,
) -> (result: Result<Invocation<'static>, Failure>)
    ensures
        result == mint_to_outcome(accounts@, amount),
        result matches Ok(invocation) ==> invocation.within(accounts@.len()),
{
    proof {
        reveal_with_fuel(first_violation_from, 4);
    }
    require_accounts(accounts, 3)?;
    require_writable(accounts, 0)?;
    require_writable(accounts, 1)?;
    require_signer(accounts, 2)?;
    Ok(Invocation::MintTo { mint: 0, account: 1, mint_authority: 2, amount })
}

/// What [`process_burn`] answers: the invocation, unless too few accounts were
/// supplied or one of them lacks what it has to hold.
pub open spec fn burn_outcome(
    accounts: Seq<Account>,
    amount: u64,
) -> Result<Invocation<'static>, Failure> {
    guarded(
        accounts,
        3,
        seq![writable_at(0), writable_at(1), signer_at(2)],
        Invocation::Burn { account: 0, mint: 1, authority: 2, amount },
    )
}

/// Prepares the invocation that destroys `amount` tokens of the token account.
///
/// Accounts, by position:
/// 0. `[writable]` the token account
/// 1. `[writable]` the mint
/// 2. `[signer]` the owner or delegate of the token account
pub fn process_burn(
    accounts: &[Account],
    amount: u64,
) -> (result: Result<Invocation<'static>, Failure>)
    ensures
        result == burn_outcome(accounts@, amount),
        result matches Ok(invocation) ==> invocation.within(accounts@.len()),
{
    proof {
        reveal_with_fuel(first_violation_from, 4);
    }
    require_accounts(accounts, 3)?;
    require_writable(accounts, 0)?;
    require_writable(accounts, 1)?;
    require_signer(accounts, 2)?;
    Ok(Invocation::Burn { account: 0, mint: 1, authority: 2, amount })
}

/// What [`process_close_account`] answers: the invocation, unless too few
/// accounts were supplied or one of them lacks what it has to hold.
pub open spec fn close_account_outcome(
    accounts: Seq<Account>,
) -> Result<Invocation<'static>, Failure> {
    guarded(
        accounts,
        3,
        seq![writable_at(0), writable_at(1), signer_at(2)],
        Invocation::CloseAccount { account: 0, destination: 1, authority: 2 },
    )
}

/// Prepares the invocation that closes the token account and hands its lamports
/// to the destination.
///
/// Accounts, by position:
/// 0. `[writable]` the token account
/// 1. `[writable]` the account that receives the lamports
/// 2. `[signer]` the owner of the token account
pub fn process_close_account(accounts: &[Account]) -> (result: Result<Invocation<'static>, Failure>)
    ensures
        result == close_account_outcome(accounts@),
        result matches Ok(invocation) ==> invocation.within(accounts@.len()),
{
    proof {
        reveal_with_fuel(first_violation_from, 4);
    }
    require_accounts(accounts, 3)?;
    require_writable(accounts, 0)?;
    require_writable(accounts, 1)?;
    require_signer(accounts, 2)?;
    Ok(Invocation::CloseAccount { account: 0, destination: 1, authority: 2 })
}

/// What [`process_freeze_account`] answers: the invocation, unless too few
/// accounts were supplied or one of them lacks what it has to hold.
pub open spec fn freeze_account_outcome(
    accounts: Seq<Account>,
) -> Result<Invocation<'static>, Failure> {
    guarded(
        accounts,
        3,
        seq![writable_at(0), signer_at(2)],
        Invocation::FreezeAccount { account: 0, mint: 1, freeze_authority: 2 },
    )
}

/// Prepares the invocation that freezes the token account.
///
/// Accounts, by position:
/// 0. `[writable]` the token account
/// 1. the mint
/// 2. `[signer]` the authority that may freeze
pub fn process_freeze_account(
    accounts: &[Account],
) -> (result: Result<Invocation<'static>, Failure>)
    ensures
        result == freeze_account_outcome(accounts@),
        result matches Ok(invocation) ==> invocation.within(accounts@.len()),
{
    proof {
        reveal_with_fuel(first_violation_from, 3);
    }
    require_accounts(accounts, 3)?;
    require_writable(accounts, 0)?;
    require_signer(accounts, 2)?;
    Ok(Invocation::FreezeAccount { account: 0, mint: 1, freeze_authority: 2 })
}

/// What [`process_thaw_account`] answers: the invocation, unless too few
/// accounts were supplied or one of them lacks what it has to hold.
pub open spec fn thaw_account_outcome(
    accounts: Seq<Account>,
) -> Result<Invocation<'static>, Failure> {
    guarded(
        accounts,
        3,
        seq![writable_at(0), signer_at(2)],
        Invocation::ThawAccount { account: 0, mint: 1, freeze_authority: 2 },
    )
}

/// Prepares the invocation that thaws the frozen token account.
///
/// Accounts, by position:
/// 0. `[writable]` the token account
/// 1. the mint
/// 2. `[signer]` the authority that may freeze
pub fn process_thaw_account(accounts: &[Account]) -> (result: Result<Invocation<'static>, Failure>)
    ensures
        result == thaw_account_outcome(accounts@),
        result matches Ok(invocation) ==> invocation.within(accounts@.len()),
{
    proof {
        reveal_with_fuel(first_violation_from, 3);
    }
    require_accounts(accounts, 3)?;
    require_writable(accounts, 0)?;
    require_signer(accounts, 2)?;
    Ok(Invocation::ThawAccount { account: 0, mint: 1, freeze_authority: 2 })
}

/// What [`process_transfer_checked`] answers: the invocation, unless too few
/// accounts were supplied or one of them lacks what it has to hold.
pub open spec fn transfer_checked_outcome(
    accounts: Seq<Account>,
    amount: u64,
    decimals: u8,
) -> Result<Invocation<'static>, Failure> {
    guarded(
        accounts,
        4,
        seq![writable_at(0), writable_at(2), signer_at(3)],
        Invocation::TransferChecked { from: 0, mint: 1, to: 2, authority: 3, amount, decimals },
    )
}

/// Prepares the invocation that moves `amount` tokens from one token account to
/// another, stating the mint and its `decimals` so that the token program
/// checks them.
///
/// Accounts, by position:
/// 0. `[writable]` the token account that pays
/// 1. the mint
/// 2. `[writable]` the token account that receives
/// 3. `[signer]` the owner or delegate of the paying account
pub fn process_transfer_checked(
    accounts: &[Account],
    amount: u64,
    decimals: u8,
) -> (result: Result<Invocation<'static>, Failure>)
    ensures
        result == transfer_checked_outcome(accounts@, amount, decimals),
        result matches Ok(invocation) ==> invocation.within(accounts@.len()),
{
    proof {
        reveal_with_fuel(first_violation_from, 4);
    }
    require_accounts(accounts, 4)?;
    require_writable(accounts, 0)?;
    require_writable(accounts, 2)?;
    require_signer(accounts, 3)?;
    Ok(Invocation::TransferChecked { from: 0, mint: 1, to: 2, authority: 3, amount, decimals })
}

/// What [`process_approve_checked`] answers: the invocation, unless too few
/// accounts were supplied or one of them lacks what it has to hold.
pub open spec fn approve_checked_outcome(
    accounts: Seq<Account>,
    amount: u64,
    decimals: u8,
) -> Result<Invocation<'static>, Failure> {
    guarded(
        accounts,
        4,
        seq![writable_at(0), signer_at(3)],
        Invocation::ApproveChecked {
            source: 0,
            mint: 1,
            delegate: 2,
            authority: 3,
            amount,
            decimals,
        },
    )
}

/// Prepares the invocation that lets the delegate spend up to `amount` tokens
/// of the token account, stating the mint and its `decimals`.
///
/// Accounts, by position:
/// 0. `[writable]` the token account
/// 1. the mint
/// 2. the delegate
/// 3. `[signer]` the owner of the token account
pub fn process_approve_checked(
    accounts: &[Account],
    amount: u64,
    decimals: u8,
) -> (result: Result<Invocation<'static>, Failure>)
    ensures
        result == approve_checked_outcome(accounts@, amount, decimals),
        result matches Ok(invocation) ==> invocation.within(accounts@.len()),
{
    proof {
        reveal_with_fuel(first_violation_from, 3);
    }
    require_accounts(accounts, 4)?;
    require_writable(accounts, 0)?;
    require_signer(accounts, 3)?;
    Ok(
        Invocation::ApproveChecked {
            source: 0,
            mint: 1,
            delegate: 2,
            authority: 3,
            amount,
            decimals,
        },
    )
}

/// What [`process_mint_to_checked`] answers: the invocation, unless too few
/// accounts were supplied or one of them lacks what it has to hold.
pub open spec fn mint_to_checked_outcome(
    accounts: Seq<Account>,
    amount: u64,
    decimals: u8,
) -> Result<Invocation<'static>, Failure> {
    guarded(
        accounts,
        3,
        seq![writable_at(0), writable_at(1), signer_at(2)],
        Invocation::MintToChecked { mint: 0, account: 1, mint_authority: 2, amount, decimals },
    )
}

/// Prepares the invocation that mints `amount` new tokens into the token
/// account, stating the mint's `decimals`.
///
/// Accounts, by position:
/// 0. `[writable]` the mint
/// 1. `[writable]` the token account that receives
/// 2. `[signer]` the authority that may mint
pub fn process_mint_to_checked(
    accounts: &[Account],
    amount: u64,
    decimals: u8,
) -> (result: Result<Invocation<'static>, Failure>)
    ensures
        result == mint_to_checked_outcome(accounts@, amount, decimals),
        result matches Ok(invocation) ==> invocation.within(accounts@.len()),
{
    proof {
        reveal_with_fuel(first_violation_from, 4);
    }
    require_accounts(accounts, 3)?;
    require_writable(accounts, 0)?;
    require_writable(accounts, 1)?;
    require_signer(accounts, 2)?;
    Ok(Invocation::MintToChecked { mint: 0, account: 1, mint_authority: 2, amount, decimals })
}

/// What [`process_burn_checked`] answers: the invocation, unless too few
/// accounts were supplied or one of them lacks what it has to hold.
pub open spec fn burn_checked_outcome(
    accounts: Seq<Account>,
    amount: u64,
    decimals: u8,
) -> Result<Invocation<'static>, Failure> {
    guarded(
        accounts,
        3,
        seq![writable_at(0), writable_at(1), signer_at(2)],
        Invocation::BurnChecked { account: 0, mint: 1, authority: 2, amount, decimals },
    )
}

/// Prepares the invocation that destroys `amount` tokens of the token account,
/// stating the mint's `decimals`.
///
/// Accounts, by position:
/// 0. `[writable]` the token account
/// 1. `[writable]` the mint
/// 2. `[signer]` the owner or delegate of the token account
pub fn process_burn_checked(
    accounts: &[Account],
    amount: u64,
    decimals: u8,
) -> (result: Result<Invocation<'static>, Failure>)
    ensures
        result == burn_checked_outcome(accounts@, amount, decimals),
        result matches Ok(invocation) ==> invocation.within(accounts@.len()),
{
    proof {
        reveal_with_fuel(first_violation_from, 4);
    }
    require_accounts(accounts, 3)?;
    require_writable(accounts, 0)?;
    require_writable(accounts, 1)?;
    require_signer(accounts, 2)?;
    Ok(Invocation::BurnChecked { account: 0, mint: 1, authority: 2, amount, decimals })
}

/// What [`process_sync_native`] answers: the invocation, unless too few
/// accounts were supplied or one of them lacks what it has to hold.
pub open spec fn sync_native_outcome(
    accounts: Seq<Account>,
) -> Result<Invocation<'static>, Failure> {
    guarded(accounts, 1, seq![writable_at(0)], Invocation::SyncNative { native_token: 0 })
}

/// Prepares the invocation that brings the amount of a wrapped-lamports token
/// account in line with the lamports it holds.
///
/// Accounts, by position:
/// 0. `[writable]` the wrapped-lamports token account
pub fn process_sync_native(accounts: &[Account]) -> (result: Result<Invocation<'static>, Failure>)
    ensures
        result == sync_native_outcome(accounts@),
        result matches Ok(invocation) ==> invocation.within(accounts@.len()),
{
    proof {
        reveal_with_fuel(first_violation_from, 2);
    }
    require_accounts(accounts, 1)?;
    require_writable(accounts, 0)?;
    Ok(Invocation::SyncNative { native_token: 0 })
}
} // verus!
