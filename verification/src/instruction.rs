//! Instructions as typed values, and the one step that decodes them.

use crate::failure::Failure;
use crate::invocation::AuthorityType;
use crate::opcode::{Field, Opcode};
use crate::wire::{
    identifier_at, lemma_bytes_of_le_u64, lemma_le_u64_of_bytes, optional_identifier_at,
    read_identifier, read_optional_identifier, read_u64_le, read_u8, u64_at, u64_le_bytes,
    Identifier,
};
use vstd::prelude::*;

verus! {

/// A decoded instruction: the operation together with its fields.
#[allow(inconsistent_fields)]
#[derive(Clone, Copy, Debug, PartialEq, Eq)]
pub enum Instruction {
    /// Hand an account to a new owning program.
    Assign { owner: Identifier },
    /// Move lamports from one account to another.
    Transfer { lamports: u64 },
    /// Create an account, funded and sized.
    CreateAccount { lamports: u64, space: u64, owner: Identifier },
    /// Give an account space for data.
    Allocate { space: u64 },
    /// Give space to an account at a seed-derived address.
    AllocateWithSeed,
    /// Hand an account at a seed-derived address to a new owner.
    AssignWithSeed,
    /// Create an account at a seed-derived address.
    CreateAccountWithSeed,
    /// Consume the nonce of a nonce account.
    AdvanceNonce,
    /// Take lamports out of a nonce account.
    WithdrawNonce { lamports: u64 },
    /// Turn an account into a nonce account.
    InitNonce { authority: Identifier },
    /// Put a nonce account under a new authority.
    AuthorizeNonce { new_authority: Identifier },
    /// Move lamports out of an account at a seed-derived address.
    TransferWithSeed,
    /// Bring a nonce account up to the current layout.
    UpdateNonce,
    /// Turn an account into a mint.
    InitMint { decimals: u8 },
    /// Turn an account into a token account.
    InitAccount,
    /// Move tokens from one token account to another.
    TokenTransfer { amount: u64 },
    /// Let a delegate spend tokens of an account.
    Approve { amount: u64 },
    /// Take a delegate's allowance back.
    Revoke,
    /// Change or remove an authority of a mint or token account.
    SetAuthority { authority_type: AuthorityType, new_authority: Option<Identifier> },
    /// Mint new tokens into an account.
    MintTo { amount: u64 },
    /// Destroy tokens of an account.
    Burn { amount: u64 },
    /// Close a token account.
    CloseAccount,
    /// Freeze a token account.
    FreezeAccount,
    /// Thaw a frozen token account.
    ThawAccount,
    /// Move tokens, stating the mint's decimals.
    TransferChecked { amount: u64, decimals: u8 },
    /// Grant an allowance, stating the mint's decimals.
    ApproveChecked { amount: u64, decimals: u8 },
    /// Mint new tokens, stating the mint's decimals.
    MintToChecked { amount: u64, decimals: u8 },
    /// Destroy tokens, stating the mint's decimals.
    BurnChecked { amount: u64, decimals: u8 },
    /// Bring a wrapped-lamports account in line with its balance.
    SyncNative,
}

impl AuthorityType {
    /// The authority that the byte `code` selects, if any.
    pub open spec fn spec_from_code(code: u8) -> Option<AuthorityType> {
        match code {
            0 => Some(AuthorityType::MintTokens),
            1 => Some(AuthorityType::FreezeAccount),
            2 => Some(AuthorityType::AccountOwner),
            3 => Some(AuthorityType::CloseAccount),
            _ => None,
        }
    }

    /// The authority that the byte `code` selects, if any.
    pub fn from_code(code: u8) -> (authority_type: Option<AuthorityType>)
        ensures
            authority_type == AuthorityType::spec_from_code(code),
    {
        match code {
            0 => Some(AuthorityType::MintTokens),
            1 => Some(AuthorityType::FreezeAccount),
            2 => Some(AuthorityType::AccountOwner),
            3 => Some(AuthorityType::CloseAccount),
            _ => None,
        }
    }

    /// The byte that selects this authority.
    pub open spec fn spec_code(self) -> u8 {
        match self {
            AuthorityType::MintTokens => 0,
            AuthorityType::FreezeAccount => 1,
            AuthorityType::AccountOwner => 2,
            AuthorityType::CloseAccount => 3,
        }
    }

    /// The byte that selects this authority.
    pub fn code(&self) -> (code: u8)
        ensures
            code == self.spec_code(),
            AuthorityType::spec_from_code(code) == Some(*self),
    {
        match self {
            AuthorityType::MintTokens => 0,
            AuthorityType::FreezeAccount => 1,
            AuthorityType::AccountOwner => 2,
            AuthorityType::CloseAccount => 3,
        }
    }
}

impl Instruction {
    /// The operation that this instruction asks for.
    pub open spec fn spec_opcode(self) -> Opcode {
        match self {
            Instruction::Assign { .. } => Opcode::Assign,
            Instruction::Transfer { .. } => Opcode::Transfer,
            Instruction::CreateAccount { .. } => Opcode::CreateAccount,
            Instruction::Allocate { .. } => Opcode::Allocate,
            Instruction::AllocateWithSeed => Opcode::AllocateWithSeed,
            Instruction::AssignWithSeed => Opcode::AssignWithSeed,
            Instruction::CreateAccountWithSeed => Opcode::CreateAccountWithSeed,
            Instruction::AdvanceNonce => Opcode::AdvanceNonce,
            Instruction::WithdrawNonce { .. } => Opcode::WithdrawNonce,
            Instruction::InitNonce { .. } => Opcode::InitNonce,
            Instruction::AuthorizeNonce { .. } => Opcode::AuthorizeNonce,
            Instruction::TransferWithSeed => Opcode::TransferWithSeed,
            Instruction::UpdateNonce => Opcode::UpdateNonce,
            Instruction::InitMint { .. } => Opcode::InitMint,
            Instruction::InitAccount => Opcode::InitAccount,
            Instruction::TokenTransfer { .. } => Opcode::TokenTransfer,
            Instruction::Approve { .. } => Opcode::Approve,
            Instruction::Revoke => Opcode::Revoke,
            Instruction::SetAuthority { .. } => Opcode::SetAuthority,
            Instruction::MintTo { .. } => Opcode::MintTo,
            Instruction::Burn { .. } => Opcode::Burn,
            Instruction::CloseAccount => Opcode::CloseAccount,
            Instruction::FreezeAccount => Opcode::FreezeAccount,
            Instruction::ThawAccount => Opcode::ThawAccount,
            Instruction::TransferChecked { .. } => Opcode::TransferChecked,
            Instruction::ApproveChecked { .. } => Opcode::ApproveChecked,
            Instruction::MintToChecked { .. } => Opcode::MintToChecked,
            Instruction::BurnChecked { .. } => Opcode::BurnChecked,
            Instruction::SyncNative => Opcode::SyncNative,
        }
    }

    /// The operation that this instruction asks for.
    pub fn opcode(&self) -> (opcode: Opcode)
        ensures
            opcode == self.spec_opcode(),
    {
        match self {
            Instruction::Assign { .. } => Opcode::Assign,
            Instruction::Transfer { .. } => Opcode::Transfer,
            Instruction::CreateAccount { .. } => Opcode::CreateAccount,
            Instruction::Allocate { .. } => Opcode::Allocate,
            Instruction::AllocateWithSeed => Opcode::AllocateWithSeed,
            Instruction::AssignWithSeed => Opcode::AssignWithSeed,
            Instruction::CreateAccountWithSeed => Opcode::CreateAccountWithSeed,
            Instruction::AdvanceNonce => Opcode::AdvanceNonce,
            Instruction::WithdrawNonce { .. } => Opcode::WithdrawNonce,
            Instruction::InitNonce { .. } => Opcode::InitNonce,
            Instruction::AuthorizeNonce { .. } => Opcode::AuthorizeNonce,
            Instruction::TransferWithSeed => Opcode::TransferWithSeed,
            Instruction::UpdateNonce => Opcode::UpdateNonce,
            Instruction::InitMint { .. } => Opcode::InitMint,
            Instruction::InitAccount => Opcode::InitAccount,
            Instruction::TokenTransfer { .. } => Opcode::TokenTransfer,
            Instruction::Approve { .. } => Opcode::Approve,
            Instruction::Revoke => Opcode::Revoke,
            Instruction::SetAuthority { .. } => Opcode::SetAuthority,
            Instruction::MintTo { .. } => Opcode::MintTo,
            Instruction::Burn { .. } => Opcode::Burn,
            Instruction::CloseAccount => Opcode::CloseAccount,
            Instruction::FreezeAccount => Opcode::FreezeAccount,
            Instruction::ThawAccount => Opcode::ThawAccount,
            Instruction::TransferChecked { .. } => Opcode::TransferChecked,
            Instruction::ApproveChecked { .. } => Opcode::ApproveChecked,
            Instruction::MintToChecked { .. } => Opcode::MintToChecked,
            Instruction::BurnChecked { .. } => Opcode::BurnChecked,
            Instruction::SyncNative => Opcode::SyncNative,
        }
    }
}

/// What the payload of `opcode` decodes to.
///
/// A payload shorter than the operation's row allows is turned down before
/// any field is read. Bytes behind the last field are ignored. A field that
/// selects one of a fixed set of values and holds none of them makes the
/// payload invalid. An operation on a seed-derived address carries no fields
/// that are read.
pub open spec fn spec_decode(opcode: Opcode, payload: Seq<u8>) -> Result<Instruction, Failure> {
    if payload.len() < opcode.spec_min_payload_len() {
        Err(Failure::PayloadTooShort)
    } else {
        match opcode {
            Opcode::Assign => Ok(Instruction::Assign { owner: identifier_at(payload, 0) }),
            Opcode::Transfer => Ok(Instruction::Transfer { lamports: u64_at(payload, 0) }),
            Opcode::CreateAccount => Ok(
                Instruction::CreateAccount {
                    lamports: u64_at(payload, 0),
                    space: u64_at(payload, 8),
                    owner: identifier_at(payload, 16),
                },
            ),
            Opcode::Allocate => Ok(Instruction::Allocate { space: u64_at(payload, 0) }),
            Opcode::AllocateWithSeed => Ok(Instruction::AllocateWithSeed),
            Opcode::AssignWithSeed => Ok(Instruction::AssignWithSeed),
            Opcode::CreateAccountWithSeed => Ok(Instruction::CreateAccountWithSeed),
            Opcode::AdvanceNonce => Ok(Instruction::AdvanceNonce),
            Opcode::WithdrawNonce => Ok(
                Instruction::WithdrawNonce { lamports: u64_at(payload, 0) },
            ),
            Opcode::InitNonce => Ok(
                Instruction::InitNonce { authority: identifier_at(payload, 0) },
            ),
            Opcode::AuthorizeNonce => Ok(
                Instruction::AuthorizeNonce { new_authority: identifier_at(payload, 0) },
            ),
            Opcode::TransferWithSeed => Ok(Instruction::TransferWithSeed),
            Opcode::UpdateNonce => Ok(Instruction::UpdateNonce),
            Opcode::InitMint => Ok(Instruction::InitMint { decimals: payload[0] }),
            Opcode::InitAccount => Ok(Instruction::InitAccount),
            Opcode::TokenTransfer => Ok(Instruction::TokenTransfer { amount: u64_at(payload, 0) }),
            Opcode::Approve => Ok(Instruction::Approve { amount: u64_at(payload, 0) }),
            Opcode::Revoke => Ok(Instruction::Revoke),
            Opcode::SetAuthority => match AuthorityType::spec_from_code(payload[0]) {
                Some(authority_type) => match optional_identifier_at(payload, 1) {
                    Ok(new_authority) => Ok(
                        Instruction::SetAuthority { authority_type, new_authority },
                    ),
                    Err(failure) => Err(failure),
                },
                None => Err(Failure::InvalidFieldValue),
            },
            Opcode::MintTo => Ok(Instruction::MintTo { amount: u64_at(payload, 0) }),
            Opcode::Burn => Ok(Instruction::Burn { amount: u64_at(payload, 0) }),
            Opcode::CloseAccount => Ok(Instruction::CloseAccount),
            Opcode::FreezeAccount => Ok(Instruction::FreezeAccount),
            Opcode::ThawAccount => Ok(Instruction::ThawAccount),
            Opcode::TransferChecked => Ok(
                Instruction::TransferChecked { amount: u64_at(payload, 0), decimals: payload[8] },
            ),
            Opcode::ApproveChecked => Ok(
                Instruction::ApproveChecked { amount: u64_at(payload, 0), decimals: payload[8] },
            ),
            Opcode::MintToChecked => Ok(
                Instruction::MintToChecked { amount: u64_at(payload, 0), decimals: payload[8] },
            ),
            Opcode::BurnChecked => Ok(
                Instruction::BurnChecked { amount: u64_at(payload, 0), decimals: payload[8] },
            ),
            Opcode::SyncNative => Ok(Instruction::SyncNative),
        }
    }
}

/// Reads the 64-bit integer at `offset`; a payload that ends before it is too
/// short.
fn take_u64(payload: &[u8], offset: usize) -> (value: Result<u64, Failure>)
    ensures
        match value {
            Ok(v) => offset + 8 <= payload@.len() && v == u64_at(payload@, offset as int),
            Err(failure) => offset + 8 > payload@.len() && failure == Failure::PayloadTooShort,
        },
{
    match read_u64_le(payload, offset) {
        Some(v) => Ok(v),
        None => Err(Failure::PayloadTooShort),
    }
}

/// Reads the byte at `offset`; a payload that ends before it is too short.
fn take_u8(payload: &[u8], offset: usize) -> (value: Result<u8, Failure>)
    ensures
        match value {
            Ok(v) => offset < payload@.len() && v == payload@[offset as int],
            Err(failure) => offset >= payload@.len() && failure == Failure::PayloadTooShort,
        },
{
    match read_u8(payload, offset) {
        Some(v) => Ok(v),
        None => Err(Failure::PayloadTooShort),
    }
}

/// Copies the identifier at `offset`; a payload that ends before it is too
/// short.
fn take_identifier(payload: &[u8], offset: usize) -> (value: Result<Identifier, Failure>)
    ensures
        match value {
            Ok(id) => offset + 32 <= payload@.len() && id == identifier_at(
                payload@,
                offset as int,
            ),
            Err(failure) => offset + 32 > payload@.len() && failure == Failure::PayloadTooShort,
        },
{
    match read_identifier(payload, offset) {
        Some(id) => Ok(id),
        None => Err(Failure::PayloadTooShort),
    }
}

/// Decodes the payload of `opcode` into a typed instruction.
pub fn decode(opcode: Opcode, payload: &[u8]) -> (result: Result<Instruction, Failure>)
    ensures
        result == spec_decode(opcode, payload@),
{
    match opcode {
        Opcode::Assign => Ok(Instruction::Assign { owner: take_identifier(payload, 0)? }),
        Opcode::Transfer => Ok(Instruction::Transfer { lamports: take_u64(payload, 0)? }),
        Opcode::CreateAccount => {
            let lamports: u64 = take_u64(payload, 0)?;
            let space: u64 = take_u64(payload, 8)?;
            let owner = take_identifier(payload, 16)?;
            Ok(Instruction::CreateAccount { lamports, space, owner })
        },
        Opcode::Allocate => Ok(Instruction::Allocate { space: take_u64(payload, 0)? }),
        Opcode::AllocateWithSeed => Ok(Instruction::AllocateWithSeed),
        Opcode::AssignWithSeed => Ok(Instruction::AssignWithSeed),
        Opcode::CreateAccountWithSeed => Ok(Instruction::CreateAccountWithSeed),
        Opcode::AdvanceNonce => Ok(Instruction::AdvanceNonce),
        Opcode::WithdrawNonce => Ok(Instruction::WithdrawNonce { lamports: take_u64(payload, 0)? }),
        Opcode::InitNonce => Ok(Instruction::InitNonce { authority: take_identifier(payload, 0)? }),
        Opcode::AuthorizeNonce => Ok(
            Instruction::AuthorizeNonce { new_authority: take_identifier(payload, 0)? },
        ),
        Opcode::TransferWithSeed => Ok(Instruction::TransferWithSeed),
        Opcode::UpdateNonce => Ok(Instruction::UpdateNonce),
        Opcode::InitMint => Ok(Instruction::InitMint { decimals: take_u8(payload, 0)? }),
        Opcode::InitAccount => Ok(Instruction::InitAccount),
        Opcode::TokenTransfer => Ok(Instruction::TokenTransfer { amount: take_u64(payload, 0)? }),
        Opcode::Approve => Ok(Instruction::Approve { amount: take_u64(payload, 0)? }),
        Opcode::Revoke => Ok(Instruction::Revoke),
        Opcode::SetAuthority => {
            let code: u8 = take_u8(payload, 0)?;
            match AuthorityType::from_code(code) {
                Some(authority_type) => {
                    let new_authority = read_optional_identifier(payload, 1)?;
                    Ok(Instruction::SetAuthority { authority_type, new_authority })
                },
                None => Err(Failure::InvalidFieldValue),
            }
        },
        Opcode::MintTo => Ok(Instruction::MintTo { amount: take_u64(payload, 0)? }),
        Opcode::Burn => Ok(Instruction::Burn { amount: take_u64(payload, 0)? }),
        Opcode::CloseAccount => Ok(Instruction::CloseAccount),
        Opcode::FreezeAccount => Ok(Instruction::FreezeAccount),
        Opcode::ThawAccount => Ok(Instruction::ThawAccount),
        Opcode::TransferChecked => {
            let amount: u64 = take_u64(payload, 0)?;
            let decimals: u8 = take_u8(payload, 8)?;
            Ok(Instruction::TransferChecked { amount, decimals })
        },
        Opcode::ApproveChecked => {
            let amount: u64 = take_u64(payload, 0)?;
            let decimals: u8 = take_u8(payload, 8)?;
            Ok(Instruction::ApproveChecked { amount, decimals })
        },
        Opcode::MintToChecked => {
            let amount: u64 = take_u64(payload, 0)?;
            let decimals: u8 = take_u8(payload, 8)?;
            Ok(Instruction::MintToChecked { amount, decimals })
        },
        Opcode::BurnChecked => {
            let amount: u64 = take_u64(payload, 0)?;
            let decimals: u8 = take_u8(payload, 8)?;
            Ok(Instruction::BurnChecked { amount, decimals })
        },
        Opcode::SyncNative => Ok(Instruction::SyncNative),
    }
}

/// The part of `payload` that falls into `field`: all of the field's bytes
/// where the payload reaches to its end, fewer where it ends earlier.
pub open spec fn field_bytes(payload: Seq<u8>, field: Field) -> Seq<u8> {
    if field.offset >= payload.len() {
        Seq::empty()
    } else if field.end() >= payload.len() {
        payload.subrange(field.offset as int, payload.len() as int)
    } else {
        payload.subrange(field.offset as int, field.end() as int)
    }
}

/// Decoding reads the fields that the operation's row lays out and nothing
/// else: two payloads that agree on every field of the row decode alike.
pub proof fn lemma_decode_reads_the_layout(opcode: Opcode, first: Seq<u8>, second: Seq<u8>)
    requires
        forall|i: int|
            0 <= i < opcode.spec_layout().len() ==> field_bytes(
                first,
                #[trigger] opcode.spec_layout()[i],
            ) == field_bytes(second, opcode.spec_layout()[i]),
    ensures
        spec_decode(opcode, first) == spec_decode(opcode, second),
{
    let layout = opcode.spec_layout();
    if layout.len() > 0 {
        lemma_same_field(first, second, layout[0]);
    }
    if layout.len() > 1 {
        lemma_same_field(first, second, layout[1]);
    }
    if layout.len() > 2 {
        lemma_same_field(first, second, layout[2]);
    }
    if opcode == Opcode::SetAuthority && first.len() >= 34 {
        assert(first.subrange(2, 34) =~= second.subrange(2, 34));
    }
}

/// Two payloads that agree on a field hold as much of it, and the same bytes
/// in it.
proof fn lemma_same_field(first: Seq<u8>, second: Seq<u8>, field: Field)
    requires
        field.width > 0,
        field_bytes(first, field) == field_bytes(second, field),
    ensures
        first.len() >= field.end() <==> second.len() >= field.end(),
        first.len() > field.offset <==> second.len() > field.offset,
        first.len() >= field.end() ==> first.subrange(field.offset as int, field.end() as int)
            == second.subrange(field.offset as int, field.end() as int),
        forall|k: int|
            field.offset <= k < field.end() && k < first.len() ==> k < second.len() && first[k]
                == second[k],
{
    let a = field_bytes(first, field);
    let b = field_bytes(second, field);
    let start = field.offset as int;
    let end = field.end() as int;
    assert(a.len() == b.len());
    assert(a.len() == if first.len() <= start {
        0
    } else if first.len() <= end {
        first.len() - start
    } else {
        end - start
    });
    assert(b.len() == if second.len() <= start {
        0
    } else if second.len() <= end {
        second.len() - start
    } else {
        end - start
    });
    assert forall|k: int| start <= k < end && k < first.len() implies k < second.len() && first[k]
        == second[k] by {
        assert(k - start < a.len());
        assert(k < second.len());
        assert(a[k - start] == first[k]);
        assert(b[k - start] == second[k]);
    }
    if first.len() >= end {
        assert(first.subrange(start, end) =~= a);
        assert(second.subrange(start, end) =~= b);
    }
}

/// The amount of a transfer survives the wire: written out as eight bytes and
/// decoded, it is the amount again.
pub proof fn lemma_transfer_amount_round_trip(lamports: u64)
    ensures
        spec_decode(Opcode::Transfer, u64_le_bytes(lamports)) == Ok::<Instruction, Failure>(
            Instruction::Transfer { lamports },
        ),
{
    let payload = u64_le_bytes(lamports);
    lemma_le_u64_of_bytes(lamports);
    assert(payload.subrange(0, 8) =~= payload);
}

/// A payload of exactly eight bytes decodes to a transfer of the amount that
/// the bytes denote: written out again, the amount gives the same bytes.
pub proof fn lemma_transfer_payload_round_trip(payload: Seq<u8>)
    requires
        payload.len() == 8,
    ensures
        spec_decode(Opcode::Transfer, payload) matches Ok(Instruction::Transfer { lamports })
            && u64_le_bytes(lamports) == payload,
{
    assert(payload.subrange(0, 8) =~= payload);
    lemma_bytes_of_le_u64(payload);
}

} // verus!
