//! The dispatcher: from the bytes of an instruction and the accounts of the
//! call to the invocation that is to be made.

use crate::account::{
    check_requirements, first_violation, first_violation_from, lemma_failures_of_demands,
    lemma_first_violation_is_earliest, rejection, Account,
};
use crate::failure::Failure;
use crate::instruction::{decode, spec_decode, Instruction};
use crate::invocation::{Action, Invocation};
use crate::opcode::{lookup, spec_lookup};
use crate::wire::Identifier;
use crate::{system, token};
use vstd::prelude::*;
use vstd::slice::slice_subrange;

verus! {

/// The action that an operation's answer stands for: its invocation is to be
/// made, and its failure is handed on as it is.
pub open spec fn invoke(outcome: Result<Invocation<'static>, Failure>) -> Result<
    Action<'static>,
    Failure,
> {
    match outcome {
        Ok(invocation) => Ok(Action::Invoke(invocation)),
        Err(failure) => Err(failure),
    }
}

/// What the operation that `instruction` asks for answers on `accounts`.
///
/// A new mint takes its authorities from the accounts: the third account is
/// the authority that may mint, and the fourth, where there is one, the
/// authority that may freeze. An operation on a seed-derived address is
/// accepted and asks for nothing to be done.
pub open spec fn spec_handle(instruction: Instruction, accounts: Seq<Account>) -> Result<
    Action<'static>,
    Failure,
> {
    match instruction {
        Instruction::Assign { owner } => invoke(system::assign_outcome(accounts, owner)),
        Instruction::Transfer { lamports } => invoke(system::transfer_outcome(accounts, lamports)),
        Instruction::CreateAccount { lamports, space, owner } => invoke(
            system::create_account_outcome(accounts, lamports, space, owner),
        ),
        Instruction::Allocate { space } => invoke(system::allocate_outcome(accounts, space)),
        Instruction::AllocateWithSeed => Ok(Action::Skip),
        Instruction::AssignWithSeed => Ok(Action::Skip),
        Instruction::CreateAccountWithSeed => Ok(Action::Skip),
        Instruction::AdvanceNonce => invoke(system::advance_nonce_account_outcome(accounts)),
        Instruction::WithdrawNonce { lamports } => invoke(
            system::withdraw_nonce_account_outcome(accounts, lamports),
        ),
        Instruction::InitNonce { authority } => invoke(
            system::initialize_nonce_account_outcome(accounts, authority),
        ),
        Instruction::AuthorizeNonce { new_authority } => invoke(
            system::authorize_nonce_account_outcome(accounts, new_authority),
        ),
        Instruction::TransferWithSeed => Ok(Action::Skip),
        Instruction::UpdateNonce => invoke(system::update_nonce_account_outcome(accounts)),
        Instruction::InitMint { decimals } => if accounts.len() < 3 {
            Err(Failure::NotEnoughAccounts)
        } else {
            invoke(
                token::initialize_mint_outcome(
                    accounts.subrange(0, 2),
                    decimals,
                    accounts[2].address,
                    if accounts.len() > 3 {
                        Some(accounts[3].address)
                    } else {
                        None
                    },
                ),
            )
        },
        Instruction::InitAccount => invoke(token::initialize_account_outcome(accounts)),
        Instruction::TokenTransfer { amount } => invoke(token::transfer_outcome(accounts, amount)),
        Instruction::Approve { amount } => invoke(token::approve_outcome(accounts, amount)),
        Instruction::Revoke => invoke(token::revoke_outcome(accounts)),
        Instruction::SetAuthority { authority_type, new_authority } => invoke(
            token::set_authority_outcome(accounts, authority_type, new_authority),
        ),
        Instruction::MintTo { amount } => invoke(token::mint_to_outcome(accounts, amount)),
        Instruction::Burn { amount } => invoke(token::burn_outcome(accounts, amount)),
        Instruction::CloseAccount => invoke(token::close_account_outcome(accounts)),
        Instruction::FreezeAccount => invoke(token::freeze_account_outcome(accounts)),
        Instruction::ThawAccount => invoke(token::thaw_account_outcome(accounts)),
        Instruction::TransferChecked { amount, decimals } => invoke(
            token::transfer_checked_outcome(accounts, amount, decimals),
        ),
        Instruction::ApproveChecked { amount, decimals } => invoke(
            token::approve_checked_outcome(accounts, amount, decimals),
        ),
        Instruction::MintToChecked { amount, decimals } => invoke(
            token::mint_to_checked_outcome(accounts, amount, decimals),
        ),
        Instruction::BurnChecked { amount, decimals } => invoke(
            token::burn_checked_outcome(accounts, amount, decimals),
        ),
        Instruction::SyncNative => invoke(token::sync_native_outcome(accounts)),
    }
}

/// What an instruction comes to, step by step:
///
/// 1. an empty buffer is turned down;
/// 2. the first byte selects the row of the table, and a byte that selects
///    none is turned down;
/// 3. so is a payload shorter than the row allows,
/// 4. and a list of accounts shorter than the row allows;
/// 5. the fields are decoded;
/// 6. the accounts are held against the row's demands, in their order, and
///    the first demand that is not met decides;
/// 7. the operation answers, and its answer is handed on as it is.
pub open spec fn spec_dispatch(accounts: Seq<Account>, buffer: Seq<u8>) -> Result<
    Action<'static>,
    Failure,
> {
    if buffer.len() == 0 {
        Err(Failure::EmptyInstruction)
    } else {
        match spec_lookup(buffer[0]) {
            None => Err(Failure::UnknownOpcode),
            Some(entry) => {
                let payload = buffer.subrange(1, buffer.len() as int);
                if payload.len() < entry.min_payload_len {
                    Err(Failure::PayloadTooShort)
                } else if accounts.len() < entry.min_accounts {
                    Err(Failure::NotEnoughAccounts)
                } else {
                    match spec_decode(entry.opcode, payload) {
                        Err(failure) => Err(failure),
                        Ok(instruction) => match first_violation(entry.requirements, accounts) {
                            Some(failure) => Err(failure),
                            None => spec_handle(instruction, accounts),
                        },
                    }
                }
            },
        }
    }
}

/// Wraps an operation's answer into the action it stands for.
fn invoked(outcome: Result<Invocation<'static>, Failure>) -> (result: Result<
    Action<'static>,
    Failure,
>)
    ensures
        result == invoke(outcome),
{
    match outcome {
        Ok(invocation) => Ok(Action::Invoke(invocation)),
        Err(failure) => Err(failure),
    }
}

/// Hands a decoded instruction to its operation and answers what the
/// operation answers.
pub fn handle(instruction: &Instruction, accounts: &[Account]) -> (result: Result<
    Action<'static>,
    Failure,
>)
    ensures
        result == spec_handle(*instruction, accounts@),
        result matches Ok(Action::Invoke(invocation)) ==> invocation.within(accounts@.len()),
{
    match instruction {
        Instruction::Assign { owner } => invoked(system::process_assign(accounts, owner)),
        Instruction::Transfer { lamports } => invoked(
            system::process_transfer(accounts, *lamports),
        ),
        Instruction::CreateAccount { lamports, space, owner } => invoked(
            system::process_create_account(accounts, *lamports, *space, owner),
        ),
        Instruction::Allocate { space } => invoked(system::process_allocate(accounts, *space)),
        Instruction::AllocateWithSeed => Ok(Action::Skip),
        Instruction::AssignWithSeed => Ok(Action::Skip),
        Instruction::CreateAccountWithSeed => Ok(Action::Skip),
        Instruction::AdvanceNonce => invoked(system::process_advance_nonce_account(accounts)),
        Instruction::WithdrawNonce { lamports } => invoked(
            system::process_withdraw_nonce_account(accounts, *lamports),
        ),
        Instruction::InitNonce { authority } => invoked(
            system::process_initialize_nonce_account(accounts, authority),
        ),
        Instruction::AuthorizeNonce { new_authority } => invoked(
            system::process_authorize_nonce_account(accounts, new_authority),
        ),
        Instruction::TransferWithSeed => Ok(Action::Skip),
        Instruction::UpdateNonce => invoked(system::process_update_nonce_account(accounts)),
        Instruction::InitMint { decimals } => {
            if accounts.len() < 3 {
                return Err(Failure::NotEnoughAccounts);
            }
            let mint_authority = &accounts[2].address;
            let freeze_authority = if accounts.len() > 3 {
                Some(&accounts[3].address)
            } else {
                None
            };
            invoked(
                token::process_initialize_mint(
                    slice_subrange(accounts, 0, 2),
                    *decimals,
                    mint_authority,
                    freeze_authority,
                ),
            )
        },
        Instruction::InitAccount => invoked(token::process_initialize_account(accounts)),
        Instruction::TokenTransfer { amount } => invoked(
            token::process_transfer(accounts, *amount),
        ),
        Instruction::Approve { amount } => invoked(token::process_approve(accounts, *amount)),
        Instruction::Revoke => invoked(token::process_revoke(accounts)),
        Instruction::SetAuthority { authority_type, new_authority } => invoked(
            token::process_set_authority(accounts, *authority_type, new_authority.as_ref()),
        ),
        Instruction::MintTo { amount } => invoked(token::process_mint_to(accounts, *amount)),
        Instruction::Burn { amount } => invoked(token::process_burn(accounts, *amount)),
        Instruction::CloseAccount => invoked(token::process_close_account(accounts)),
        Instruction::FreezeAccount => invoked(token::process_freeze_account(accounts)),
        Instruction::ThawAccount => invoked(token::process_thaw_account(accounts)),
        Instruction::TransferChecked { amount, decimals } => invoked(
            token::process_transfer_checked(accounts, *amount, *decimals),
        ),
        Instruction::ApproveChecked { amount, decimals } => invoked(
            token::process_approve_checked(accounts, *amount, *decimals),
        ),
        Instruction::MintToChecked { amount, decimals } => invoked(
            token::process_mint_to_checked(accounts, *amount, *decimals),
        ),
        Instruction::BurnChecked { amount, decimals } => invoked(
            token::process_burn_checked(accounts, *amount, *decimals),
        ),
        Instruction::SyncNative => invoked(token::process_sync_native(accounts)),
    }
}

/// Takes an instruction as the runtime hands it over and answers what is to
/// be done: an invocation to make, nothing, or the reason why the instruction
/// is turned down.
///
/// `instruction_data` holds the discriminator in its first byte and the
/// payload behind it. `_program_id` is the address under which the dispatcher
/// runs; the answer does not depend on it. No account is changed: the
/// invocation is the caller's to make once this function has accepted the
/// instruction.
///
/// The accounts are held against the row of the table before the operation
/// is asked. The operation looks at them once more on its own account, and
/// never turns down what the table has let pass.
pub fn process_instruction(
    _program_id: &Identifier,
    accounts: &[Account],
    instruction_data: &[u8],
) -> (result: Result<Action<'static>, Failure>)
    ensures
        result == spec_dispatch(accounts@, instruction_data@),
        result matches Ok(Action::Invoke(invocation)) ==> invocation.within(accounts@.len()),
{
    if instruction_data.len() == 0 {
        return Err(Failure::EmptyInstruction);
    }
    let discriminator: u8 = instruction_data[0];
    let payload = slice_subrange(instruction_data, 1, instruction_data.len());
    let entry = match lookup(discriminator) {
        Some(entry) => entry,
        None => {
            return Err(Failure::UnknownOpcode);
        },
    };
    if payload.len() < entry.min_payload_len {
        return Err(Failure::PayloadTooShort);
    }
    if accounts.len() < entry.min_accounts {
        return Err(Failure::NotEnoughAccounts);
    }
    let instruction = decode(entry.opcode, payload)?;
    check_requirements(entry.requirements.as_slice(), accounts)?;
    handle(&instruction, accounts)
}

/// What an accepted instruction comes to once its invocation has been made:
/// success where the invocation succeeded, and otherwise the status that it
/// reported, handed on as it came.
pub fn conclude(outcome: Result<(), u64>) -> (result: Result<(), Failure>)
    ensures
        result == (match outcome {
            Ok(_) => Ok::<(), Failure>(()),
            Err(status) => Err(Failure::InvocationFailed(status)),
        }),
{
    match outcome {
        Ok(_) => Ok(()),
        Err(status) => Err(Failure::InvocationFailed(status)),
    }
}

/// A discriminator outside the table is turned down as unknown, whatever else
/// the buffer holds and whatever accounts come with it.
pub proof fn lemma_unknown_discriminator(accounts: Seq<Account>, buffer: Seq<u8>)
    requires
        buffer.len() > 0,
        !(buffer[0] <= 12 || 20 <= buffer[0] <= 35),
    ensures
        spec_dispatch(accounts, buffer) == Err::<Action<'static>, Failure>(Failure::UnknownOpcode),
{
}

/// An instruction that consists of its discriminator alone is turned down as
/// too short where the operation needs a payload. Where it needs none, the
/// instruction decodes, and the accounts alone decide what comes of it: it is
/// accepted where they meet the row, and turned down for the row's reason
/// where they do not.
pub proof fn lemma_bare_discriminator(accounts: Seq<Account>, discriminator: u8)
    requires
        spec_lookup(discriminator) is Some,
    ensures
        spec_lookup(discriminator) matches Some(entry) ==> (entry.min_payload_len > 0
            ==> spec_dispatch(accounts, seq![discriminator]) == Err::<Action<'static>, Failure>(
            Failure::PayloadTooShort,
        )),
        spec_lookup(discriminator) matches Some(entry) ==> (entry.min_payload_len == 0
            ==> spec_decode(entry.opcode, Seq::<u8>::empty()) is Ok),
        spec_lookup(discriminator) matches Some(entry) ==> (entry.min_payload_len == 0 ==> (
        match rejection(accounts, entry.min_accounts, entry.requirements) {
            Some(failure) => spec_dispatch(accounts, seq![discriminator]) == Err::<
                Action<'static>,
                Failure,
            >(failure),
            None => spec_dispatch(accounts, seq![discriminator]) is Ok,
        })),
{
    let buffer = seq![discriminator];
    assert(buffer.subrange(1, 1) =~= Seq::<u8>::empty());
    lemma_table_decides(accounts, buffer);
}

/// With fewer accounts than the row asks for, an instruction whose payload is
/// long enough is turned down for its accounts, whatever the payload holds.
pub proof fn lemma_too_few_accounts(accounts: Seq<Account>, buffer: Seq<u8>)
    requires
        buffer.len() > 0,
        spec_lookup(buffer[0]) matches Some(entry) && buffer.len() - 1 >= entry.min_payload_len
            && accounts.len() < entry.min_accounts,
    ensures
        spec_dispatch(accounts, buffer) == Err::<Action<'static>, Failure>(
            Failure::NotEnoughAccounts,
        ),
{
}

/// Of several demands that the accounts do not meet, the one that the row
/// lists first is reported: where the demand at position `k` is not met and
/// all before it are, the failure is that of the demand at `k`.
pub proof fn lemma_first_unmet_demand_decides(accounts: Seq<Account>, buffer: Seq<u8>, k: int)
    requires
        buffer.len() > 0,
        spec_lookup(buffer[0]) matches Some(entry) && {
            &&& buffer.len() - 1 >= entry.min_payload_len
            &&& accounts.len() >= entry.min_accounts
            &&& spec_decode(entry.opcode, buffer.subrange(1, buffer.len() as int)) is Ok
            &&& 0 <= k < entry.requirements.len()
            &&& !entry.requirements[k].met_by(accounts)
            &&& forall|j: int| 0 <= j < k ==> entry.requirements[j].met_by(accounts)
        },
    ensures
        spec_lookup(buffer[0]) matches Some(entry) && spec_dispatch(accounts, buffer) == Err::<
            Action<'static>,
            Failure,
        >(entry.requirements[k].capability.failure()),
{
    let entry = spec_lookup(buffer[0])->0;
    lemma_first_violation_is_earliest(entry.requirements, accounts, k);
}

/// An operation on a seed-derived address is accepted and asks for nothing to
/// be done, whatever its payload holds and whatever accounts come with it.
pub proof fn lemma_seed_operations_do_nothing(accounts: Seq<Account>, buffer: Seq<u8>)
    requires
        buffer.len() > 0,
        spec_lookup(buffer[0]) matches Some(entry) && entry.opcode.spec_is_seed_placeholder(),
    ensures
        spec_dispatch(accounts, buffer) == Ok::<Action<'static>, Failure>(Action::Skip),
{
}

/// The dispatcher makes no invocation itself: none of its failures is that of
/// an invocation.
pub proof fn lemma_no_invocation_is_made(accounts: Seq<Account>, buffer: Seq<u8>)
    ensures
        !(spec_dispatch(accounts, buffer) matches Err(Failure::InvocationFailed(_))),
{
    if buffer.len() > 0 && spec_lookup(buffer[0]) is Some {
        let entry = spec_lookup(buffer[0])->0;
        lemma_failures_of_demands(entry.requirements, accounts);
        lemma_table_decides(accounts, buffer);
    }
}

/// The table decides. An instruction with a known discriminator is accepted
/// exactly where its payload is long enough and decodes, enough accounts come
/// with it, and they meet every demand of the row: no operation turns down
/// what the table lets pass.
pub proof fn lemma_table_decides(accounts: Seq<Account>, buffer: Seq<u8>)
    requires
        buffer.len() > 0,
        spec_lookup(buffer[0]) is Some,
    ensures
        spec_lookup(buffer[0]) matches Some(entry) && (spec_dispatch(accounts, buffer) is Ok <==> {
            &&& buffer.len() - 1 >= entry.min_payload_len
            &&& spec_decode(entry.opcode, buffer.subrange(1, buffer.len() as int)) is Ok
            &&& rejection(accounts, entry.min_accounts, entry.requirements) is None
        }),
{
    reveal_with_fuel(first_violation_from, 4);
}

} // verus!
