//! Decoding and validation of on-chain instructions.
//!
//! An instruction arrives as a flat byte buffer together with the list of
//! accounts that the host runtime supplied for the call. The first byte
//! selects an operation; the bytes behind it carry the operation's fields.
//! This crate looks the operation up in its table, decodes the fields, holds
//! the accounts against the capabilities that the operation demands, and
//! answers with the invocation that the caller is then entitled to make.
//!
//! Nothing here touches an account. The invocation itself, and whatever it
//! changes, is the caller's business.

pub mod account;
pub mod dispatch;
pub mod failure;
pub mod instruction;
pub mod invocation;
pub mod opcode;
pub mod system;
pub mod token;
pub mod wire;

pub use account::{Account, Capability, Requirement};
pub use dispatch::{conclude, handle, process_instruction};
pub use failure::Failure;
pub use instruction::{decode, Instruction};
pub use invocation::{Action, AuthorityType, Invocation};
pub use opcode::{lookup, Entry, Family, Field, FieldKind, Opcode};
pub use system::{
    process_advance_nonce_account, process_allocate, process_allocate_with_seed, process_assign,
    process_assign_with_seed, process_authorize_nonce_account, process_create_account,
    process_create_account_with_seed, process_initialize_nonce_account,
    process_transfer as process_system_transfer, process_transfer_with_seed,
    process_update_nonce_account, process_withdraw_nonce_account,
};
pub use token::{
    process_approve, process_approve_checked, process_burn, process_burn_checked,
    process_close_account, process_freeze_account, process_initialize_account,
    process_initialize_mint, process_mint_to, process_mint_to_checked, process_revoke,
    process_set_authority, process_sync_native, process_thaw_account,
    process_transfer as process_token_transfer, process_transfer_checked,
};
pub use wire::Identifier;
