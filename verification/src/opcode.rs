//! The table of operations: for each discriminator, how long the payload has
//! to be, where its fields lie, how many accounts are needed, and which
//! capabilities those accounts have to hold.
//!
//! The table is the one place where the wire format and the account contract
//! of an operation are written down. Decoding and validation are checked
//! against it.

use crate::account::{signer_at, writable_at, Requirement};
use vstd::prelude::*;

verus! {

/// An operation that an instruction can select.
///
/// Discriminators 0 to 12 select operations on accounts and lamports, 20 to
/// 35 operations on tokens. No other discriminator selects anything.
#[derive(Clone, Copy, Debug, PartialEq, Eq, Structural)]
pub enum Opcode {
    /// 0: hand an account to a new owning program.
    Assign,
    /// 1: move lamports from one account to another.
    Transfer,
    /// 2: create an account, funded and sized.
    CreateAccount,
    /// 3: give an account space for data.
    Allocate,
    /// 4: give space to an account at a seed-derived address.
    AllocateWithSeed,
    /// 5: hand an account at a seed-derived address to a new owner.
    AssignWithSeed,
    /// 6: create an account at a seed-derived address.
    CreateAccountWithSeed,
    /// 7: consume the nonce of a nonce account.
    AdvanceNonce,
    /// 8: take lamports out of a nonce account.
    WithdrawNonce,
    /// 9: turn an account into a nonce account.
    InitNonce,
    /// 10: put a nonce account under a new authority.
    AuthorizeNonce,
    /// 11: move lamports out of an account at a seed-derived address.
    TransferWithSeed,
    /// 12: bring a nonce account up to the current layout.
    UpdateNonce,
    /// 20: turn an account into a mint.
    InitMint,
    /// 21: turn an account into a token account.
    InitAccount,
    /// 22: move tokens from one token account to another.
    TokenTransfer,
    /// 23: let a delegate spend tokens of an account.
    Approve,
    /// 24: take a delegate's allowance back.
    Revoke,
    /// 25: change or remove an authority of a mint or token account.
    SetAuthority,
    /// 26: mint new tokens into an account.
    MintTo,
    /// 27: destroy tokens of an account.
    Burn,
    /// 28: close a token account.
    CloseAccount,
    /// 29: freeze a token account.
    FreezeAccount,
    /// 30: thaw a frozen token account.
    ThawAccount,
    /// 31: move tokens, stating the mint's decimals.
    TransferChecked,
    /// 32: grant an allowance, stating the mint's decimals.
    ApproveChecked,
    /// 33: mint new tokens, stating the mint's decimals.
    MintToChecked,
    /// 34: destroy tokens, stating the mint's decimals.
    BurnChecked,
    /// 35: bring a wrapped-lamports account in line with its balance.
    SyncNative,
}

/// The two families of operations, each with a range of discriminators of its
/// own.
#[derive(Clone, Copy, Debug, PartialEq, Eq, Structural)]
pub enum Family {
    /// Accounts, lamports and nonce accounts: discriminators 0 to 12.
    AccountLifecycle,
    /// Mints, token accounts and tokens: discriminators 20 to 35.
    ValueTransfer,
}

/// What a field of the payload holds.
#[derive(Clone, Copy, Debug, PartialEq, Eq, Structural)]
pub enum FieldKind {
    /// An unsigned 64-bit integer, least significant byte first.
    U64Le,
    /// A single byte.
    U8,
    /// The 32 bytes of an identifier.
    Identifier,
    /// A single byte that states a number of decimal places.
    Decimals,
    /// An identifier that may be left out: a flag of one byte and, where the
    /// flag is 1, the 32 bytes of the identifier behind it. The payload may
    /// end before the flag, and behind a flag of 0.
    OptionalIdentifier,
}

/// One field of a payload: where it starts, how wide it is, what it holds.
#[derive(Clone, Copy, Debug, PartialEq, Eq, Structural)]
pub struct Field {
    /// The position of the field's first byte in the payload.
    pub offset: usize,
    /// The number of bytes the field takes.
    pub width: usize,
    /// What the bytes mean.
    pub kind: FieldKind,
}

/// A 64-bit integer at `offset`.
pub open spec fn u64_field(offset: usize) -> Field {
    Field { offset, width: 8, kind: FieldKind::U64Le }
}

/// A single byte at `offset`.
pub open spec fn u8_field(offset: usize) -> Field {
    Field { offset, width: 1, kind: FieldKind::U8 }
}

/// An identifier at `offset`.
pub open spec fn identifier_field(offset: usize) -> Field {
    Field { offset, width: 32, kind: FieldKind::Identifier }
}

/// A number of decimal places at `offset`.
pub open spec fn decimals_field(offset: usize) -> Field {
    Field { offset, width: 1, kind: FieldKind::Decimals }
}

/// A flag at `offset` and, behind it, an identifier that may be left out.
pub open spec fn optional_identifier_field(offset: usize) -> Field {
    Field { offset, width: 33, kind: FieldKind::OptionalIdentifier }
}

impl FieldKind {
    /// The number of bytes that a field of this kind takes.
    pub open spec fn spec_width(self) -> nat {
        match self {
            FieldKind::U64Le => 8,
            FieldKind::U8 => 1,
            FieldKind::Identifier => 32,
            FieldKind::Decimals => 1,
            FieldKind::OptionalIdentifier => 33,
        }
    }

    /// The number of bytes that a field of this kind takes.
    pub fn width(&self) -> (width: usize)
        ensures
            width == self.spec_width(),
    {
        match self {
            FieldKind::U64Le => 8,
            FieldKind::U8 => 1,
            FieldKind::Identifier => 32,
            FieldKind::Decimals => 1,
            FieldKind::OptionalIdentifier => 33,
        }
    }

    /// Whether a payload may end before a field of this kind.
    pub open spec fn spec_is_optional(self) -> bool {
        self == FieldKind::OptionalIdentifier
    }

    /// Whether a payload may end before a field of this kind.
    pub fn is_optional(&self) -> (optional: bool)
        ensures
            optional == self.spec_is_optional(),
    {
        match self {
            FieldKind::OptionalIdentifier => true,
            _ => false,
        }
    }
}

impl Field {
    /// A 64-bit integer at `offset`.
    pub fn u64_le(offset: usize) -> (field: Field)
        ensures
            field == u64_field(offset),
    {
        Field { offset, width: 8, kind: FieldKind::U64Le }
    }

    /// A single byte at `offset`.
    pub fn u8(offset: usize) -> (field: Field)
        ensures
            field == u8_field(offset),
    {
        Field { offset, width: 1, kind: FieldKind::U8 }
    }

    /// An identifier at `offset`.
    pub fn identifier(offset: usize) -> (field: Field)
        ensures
            field == identifier_field(offset),
    {
        Field { offset, width: 32, kind: FieldKind::Identifier }
    }

    /// A number of decimal places at `offset`.
    pub fn decimals(offset: usize) -> (field: Field)
        ensures
            field == decimals_field(offset),
    {
        Field { offset, width: 1, kind: FieldKind::Decimals }
    }

    /// A flag at `offset` and, behind it, an identifier that may be left out.
    pub fn optional_identifier(offset: usize) -> (field: Field)
        ensures
            field == optional_identifier_field(offset),
    {
        Field { offset, width: 33, kind: FieldKind::OptionalIdentifier }
    }

    /// The position just behind the field's last byte.
    pub open spec fn end(self) -> nat {
        (self.offset + self.width) as nat
    }
}

/// One row of the table.
#[derive(Debug, PartialEq, Eq)]
pub struct Entry {
    /// The operation the row is about.
    pub opcode: Opcode,
    /// The least number of payload bytes.
    pub min_payload_len: usize,
    /// The payload's fields, in the order in which they lie.
    pub layout: Vec<Field>,
    /// The least number of accounts.
    pub min_accounts: usize,
    /// What the accounts have to hold, in the order in which it is checked.
    pub requirements: Vec<Requirement>,
}

/// A row of the table as a mathematical value.
#[verifier::ext_equal]
pub struct EntryView {
    /// The operation the row is about.
    pub opcode: Opcode,
    /// The least number of payload bytes.
    pub min_payload_len: nat,
    /// The payload's fields, in the order in which they lie.
    pub layout: Seq<Field>,
    /// The least number of accounts.
    pub min_accounts: nat,
    /// What the accounts have to hold, in the order in which it is checked.
    pub requirements: Seq<Requirement>,
}

impl View for Entry {
    type V = EntryView;

    open spec fn view(&self) -> EntryView {
        EntryView {
            opcode: self.opcode,
            min_payload_len: self.min_payload_len as nat,
            layout: self.layout@,
            min_accounts: self.min_accounts as nat,
            requirements: self.requirements@,
        }
    }
}

impl Entry {
    /// The row of `opcode` with the given columns.
    pub fn new(
        opcode: Opcode,
        min_payload_len: usize,
        layout: Vec<Field>,
        min_accounts: usize,
        requirements: Vec<Requirement>,
    ) -> (entry: Entry)
        ensures
            entry@ == row(
                opcode,
                min_payload_len as nat,
                layout@,
                min_accounts as nat,
                requirements@,
            ),
    {
        Entry { opcode, min_payload_len, layout, min_accounts, requirements }
    }
}

/// The row of `opcode` with the given columns.
pub open spec fn row(
    opcode: Opcode,
    min_payload_len: nat,
    layout: Seq<Field>,
    min_accounts: nat,
    requirements: Seq<Requirement>,
) -> EntryView {
    EntryView { opcode, min_payload_len, layout, min_accounts, requirements }
}

impl Opcode {
    /// The operation that `discriminator` selects, if any.
    pub open spec fn spec_from_discriminator(discriminator: u8) -> Option<Opcode> {
        match discriminator {
            0 => Some(Opcode::Assign),
            1 => Some(Opcode::Transfer),
            2 => Some(Opcode::CreateAccount),
            3 => Some(Opcode::Allocate),
            4 => Some(Opcode::AllocateWithSeed),
            5 => Some(Opcode::AssignWithSeed),
            6 => Some(Opcode::CreateAccountWithSeed),
            7 => Some(Opcode::AdvanceNonce),
            8 => Some(Opcode::WithdrawNonce),
            9 => Some(Opcode::InitNonce),
            10 => Some(Opcode::AuthorizeNonce),
            11 => Some(Opcode::TransferWithSeed),
            12 => Some(Opcode::UpdateNonce),
            20 => Some(Opcode::InitMint),
            21 => Some(Opcode::InitAccount),
            22 => Some(Opcode::TokenTransfer),
            23 => Some(Opcode::Approve),
            24 => Some(Opcode::Revoke),
            25 => Some(Opcode::SetAuthority),
            26 => Some(Opcode::MintTo),
            27 => Some(Opcode::Burn),
            28 => Some(Opcode::CloseAccount),
            29 => Some(Opcode::FreezeAccount),
            30 => Some(Opcode::ThawAccount),
            31 => Some(Opcode::TransferChecked),
            32 => Some(Opcode::ApproveChecked),
            33 => Some(Opcode::MintToChecked),
            34 => Some(Opcode::BurnChecked),
            35 => Some(Opcode::SyncNative),
            _ => None,
        }
    }

    /// The operation that `discriminator` selects, if any.
    pub fn from_discriminator(discriminator: u8) -> (opcode: Option<Opcode>)
        ensures
            opcode == Opcode::spec_from_discriminator(discriminator),
    {
        match discriminator {
            0 => Some(Opcode::Assign),
            1 => Some(Opcode::Transfer),
            2 => Some(Opcode::CreateAccount),
            3 => Some(Opcode::Allocate),
            4 => Some(Opcode::AllocateWithSeed),
            5 => Some(Opcode::AssignWithSeed),
            6 => Some(Opcode::CreateAccountWithSeed),
            7 => Some(Opcode::AdvanceNonce),
            8 => Some(Opcode::WithdrawNonce),
            9 => Some(Opcode::InitNonce),
            10 => Some(Opcode::AuthorizeNonce),
            11 => Some(Opcode::TransferWithSeed),
            12 => Some(Opcode::UpdateNonce),
            20 => Some(Opcode::InitMint),
            21 => Some(Opcode::InitAccount),
            22 => Some(Opcode::TokenTransfer),
            23 => Some(Opcode::Approve),
            24 => Some(Opcode::Revoke),
            25 => Some(Opcode::SetAuthority),
            26 => Some(Opcode::MintTo),
            27 => Some(Opcode::Burn),
            28 => Some(Opcode::CloseAccount),
            29 => Some(Opcode::FreezeAccount),
            30 => Some(Opcode::ThawAccount),
            31 => Some(Opcode::TransferChecked),
            32 => Some(Opcode::ApproveChecked),
            33 => Some(Opcode::MintToChecked),
            34 => Some(Opcode::BurnChecked),
            35 => Some(Opcode::SyncNative),
            _ => None,
        }
    }

    /// The discriminator that selects this operation.
    pub open spec fn spec_discriminator(self) -> u8 {
        match self {
            Opcode::Assign => 0,
            Opcode::Transfer => 1,
            Opcode::CreateAccount => 2,
            Opcode::Allocate => 3,
            Opcode::AllocateWithSeed => 4,
            Opcode::AssignWithSeed => 5,
            Opcode::CreateAccountWithSeed => 6,
            Opcode::AdvanceNonce => 7,
            Opcode::WithdrawNonce => 8,
            Opcode::InitNonce => 9,
            Opcode::AuthorizeNonce => 10,
            Opcode::TransferWithSeed => 11,
            Opcode::UpdateNonce => 12,
            Opcode::InitMint => 20,
            Opcode::InitAccount => 21,
            Opcode::TokenTransfer => 22,
            Opcode::Approve => 23,
            Opcode::Revoke => 24,
            Opcode::SetAuthority => 25,
            Opcode::MintTo => 26,
            Opcode::Burn => 27,
            Opcode::CloseAccount => 28,
            Opcode::FreezeAccount => 29,
            Opcode::ThawAccount => 30,
            Opcode::TransferChecked => 31,
            Opcode::ApproveChecked => 32,
            Opcode::MintToChecked => 33,
            Opcode::BurnChecked => 34,
            Opcode::SyncNative => 35,
        }
    }

    /// The discriminator that selects this operation.
    pub fn discriminator(&self) -> (discriminator: u8)
        ensures
            discriminator == self.spec_discriminator(),
            Opcode::spec_from_discriminator(discriminator) == Some(*self),
    {
        match self {
            Opcode::Assign => 0,
            Opcode::Transfer => 1,
            Opcode::CreateAccount => 2,
            Opcode::Allocate => 3,
            Opcode::AllocateWithSeed => 4,
            Opcode::AssignWithSeed => 5,
            Opcode::CreateAccountWithSeed => 6,
            Opcode::AdvanceNonce => 7,
            Opcode::WithdrawNonce => 8,
            Opcode::InitNonce => 9,
            Opcode::AuthorizeNonce => 10,
            Opcode::TransferWithSeed => 11,
            Opcode::UpdateNonce => 12,
            Opcode::InitMint => 20,
            Opcode::InitAccount => 21,
            Opcode::TokenTransfer => 22,
            Opcode::Approve => 23,
            Opcode::Revoke => 24,
            Opcode::SetAuthority => 25,
            Opcode::MintTo => 26,
            Opcode::Burn => 27,
            Opcode::CloseAccount => 28,
            Opcode::FreezeAccount => 29,
            Opcode::ThawAccount => 30,
            Opcode::TransferChecked => 31,
            Opcode::ApproveChecked => 32,
            Opcode::MintToChecked => 33,
            Opcode::BurnChecked => 34,
            Opcode::SyncNative => 35,
        }
    }

    /// The family that this operation belongs to.
    pub open spec fn spec_family(self) -> Family {
        if self.spec_discriminator() <= 12 {
            Family::AccountLifecycle
        } else {
            Family::ValueTransfer
        }
    }

    /// The family that this operation belongs to.
    pub fn family(&self) -> (family: Family)
        ensures
            family == self.spec_family(),
            family == Family::AccountLifecycle <==> self.spec_discriminator() <= 12,
            family == Family::ValueTransfer <==> 20 <= self.spec_discriminator() <= 35,
    {
        if self.discriminator() <= 12 {
            Family::AccountLifecycle
        } else {
            Family::ValueTransfer
        }
    }

    /// Whether this operation works on an address derived from a seed. The
    /// fields of such an operation are not parsed: its row asks for no payload
    /// and no accounts, and an instruction that selects it is accepted and does
    /// nothing.
    pub open spec fn spec_is_seed_placeholder(self) -> bool {
        self == Opcode::AllocateWithSeed || self == Opcode::AssignWithSeed || self
            == Opcode::CreateAccountWithSeed || self == Opcode::TransferWithSeed
    }

    /// Whether this operation works on an address derived from a seed.
    pub fn is_seed_placeholder(&self) -> (placeholder: bool)
        ensures
            placeholder == self.spec_is_seed_placeholder(),
    {
        match self {
            Opcode::AllocateWithSeed
            | Opcode::AssignWithSeed
            | Opcode::CreateAccountWithSeed
            | Opcode::TransferWithSeed => true,
            _ => false,
        }
    }

    /// This operation's row of the table: the least payload length, the
    /// fields, the least number of accounts, and the demands on the accounts.
    ///
    /// Three kinds of rows stand out. An operation on a seed-derived address
    /// asks for nothing, since its fields are not parsed. A new mint asks for
    /// three accounts though only the first two are invoked on: the third
    /// lends its address as the authority that may mint. A token transfer asks
    /// for its two token accounts, and for the signature of the authority
    /// behind them.
    pub open spec fn spec_entry(self) -> EntryView {
        match self {
            Opcode::Assign => row(self, 32, seq![identifier_field(0)], 1, seq![signer_at(0)]),
            Opcode::Transfer => row(
                self,
                8,
                seq![u64_field(0)],
                2,
                seq![signer_at(0), writable_at(0), writable_at(1)],
            ),
            Opcode::CreateAccount => row(
                self,
                48,
                seq![u64_field(0), u64_field(8), identifier_field(16)],
                2,
                seq![signer_at(0), signer_at(1)],
            ),
            Opcode::Allocate => row(self, 8, seq![u64_field(0)], 1, seq![signer_at(0)]),
            Opcode::AllocateWithSeed => row(self, 0, seq![], 0, seq![]),
            Opcode::AssignWithSeed => row(self, 0, seq![], 0, seq![]),
            Opcode::CreateAccountWithSeed => row(self, 0, seq![], 0, seq![]),
            Opcode::AdvanceNonce => row(self, 0, seq![], 3, seq![writable_at(0), signer_at(2)]),
            Opcode::WithdrawNonce => row(
                self,
                8,
                seq![u64_field(0)],
                5,
                seq![writable_at(0), writable_at(1), signer_at(4)],
            ),
            Opcode::InitNonce => row(self, 32, seq![identifier_field(0)], 3, seq![writable_at(0)]),
            Opcode::AuthorizeNonce => row(
                self,
                32,
                seq![identifier_field(0)],
                2,
                seq![writable_at(0), signer_at(1)],
            ),
            Opcode::TransferWithSeed => row(self, 0, seq![], 0, seq![]),
            Opcode::UpdateNonce => row(self, 0, seq![], 1, seq![writable_at(0)]),
            Opcode::InitMint => row(self, 1, seq![decimals_field(0)], 3, seq![writable_at(0)]),
            Opcode::InitAccount => row(self, 0, seq![], 4, seq![writable_at(0)]),
            Opcode::TokenTransfer => row(
                self,
                8,
                seq![u64_field(0)],
                2,
                seq![writable_at(0), signer_at(2)],
            ),
            Opcode::Approve => row(
                self,
                8,
                seq![u64_field(0)],
                3,
                seq![writable_at(0), signer_at(2)],
            ),
            Opcode::Revoke => row(self, 0, seq![], 2, seq![writable_at(0), signer_at(1)]),
            Opcode::SetAuthority => row(
                self,
                1,
                seq![u8_field(0), optional_identifier_field(1)],
                2,
                seq![writable_at(0), signer_at(1)],
            ),
            Opcode::MintTo => row(
                self,
                8,
                seq![u64_field(0)],
                3,
                seq![writable_at(0), writable_at(1), signer_at(2)],
            ),
            Opcode::Burn => row(
                self,
                8,
                seq![u64_field(0)],
                3,
                seq![writable_at(0), writable_at(1), signer_at(2)],
            ),
            Opcode::CloseAccount => row(
                self,
                0,
                seq![],
                3,
                seq![writable_at(0), writable_at(1), signer_at(2)],
            ),
            Opcode::FreezeAccount => row(self, 0, seq![], 3, seq![writable_at(0), signer_at(2)]),
            Opcode::ThawAccount => row(self, 0, seq![], 3, seq![writable_at(0), signer_at(2)]),
            Opcode::TransferChecked => row(
                self,
                9,
                seq![u64_field(0), decimals_field(8)],
                4,
                seq![writable_at(0), writable_at(2), signer_at(3)],
            ),
            Opcode::ApproveChecked => row(
                self,
                9,
                seq![u64_field(0), decimals_field(8)],
                4,
                seq![writable_at(0), signer_at(3)],
            ),
            Opcode::MintToChecked => row(
                self,
                9,
                seq![u64_field(0), decimals_field(8)],
                3,
                seq![writable_at(0), writable_at(1), signer_at(2)],
            ),
            Opcode::BurnChecked => row(
                self,
                9,
                seq![u64_field(0), decimals_field(8)],
                3,
                seq![writable_at(0), writable_at(1), signer_at(2)],
            ),
            Opcode::SyncNative => row(self, 0, seq![], 1, seq![writable_at(0)]),
        }
    }

    /// This operation's row of the table.
    pub fn entry(&self) -> (entry: Entry)
        ensures
            entry@ == self.spec_entry(),
    {
        let entry = match self {
            Opcode::Assign => Entry::new(
                *self,
                32,
                vec![Field::identifier(0)],
                1,
                vec![Requirement::signer(0)],
            ),
            Opcode::Transfer => Entry::new(
                *self,
                8,
                vec![Field::u64_le(0)],
                2,
                vec![Requirement::signer(0), Requirement::writable(0), Requirement::writable(1)],
            ),
            Opcode::CreateAccount => Entry::new(
                *self,
                48,
                vec![Field::u64_le(0), Field::u64_le(8), Field::identifier(16)],
                2,
                vec![Requirement::signer(0), Requirement::signer(1)],
            ),
            Opcode::Allocate => Entry::new(
                *self,
                8,
                vec![Field::u64_le(0)],
                1,
                vec![Requirement::signer(0)],
            ),
            Opcode::AllocateWithSeed => Entry::new(*self, 0, Vec::new(), 0, Vec::new()),
            Opcode::AssignWithSeed => Entry::new(*self, 0, Vec::new(), 0, Vec::new()),
            Opcode::CreateAccountWithSeed => Entry::new(*self, 0, Vec::new(), 0, Vec::new()),
            Opcode::AdvanceNonce => Entry::new(
                *self,
                0,
                Vec::new(),
                3,
                vec![Requirement::writable(0), Requirement::signer(2)],
            ),
            Opcode::WithdrawNonce => Entry::new(
                *self,
                8,
                vec![Field::u64_le(0)],
                5,
                vec![Requirement::writable(0), Requirement::writable(1), Requirement::signer(4)],
            ),
            Opcode::InitNonce => Entry::new(
                *self,
                32,
                vec![Field::identifier(0)],
                3,
                vec![Requirement::writable(0)],
            ),
            Opcode::AuthorizeNonce => Entry::new(
                *self,
                32,
                vec![Field::identifier(0)],
                2,
                vec![Requirement::writable(0), Requirement::signer(1)],
            ),
            Opcode::TransferWithSeed => Entry::new(*self, 0, Vec::new(), 0, Vec::new()),
            Opcode::UpdateNonce => Entry::new(
                *self,
                0,
                Vec::new(),
                1,
                vec![Requirement::writable(0)],
            ),
            Opcode::InitMint => Entry::new(
                *self,
                1,
                vec![Field::decimals(0)],
                3,
                vec![Requirement::writable(0)],
            ),
            Opcode::InitAccount => Entry::new(
                *self,
                0,
                Vec::new(),
                4,
                vec![Requirement::writable(0)],
            ),
            Opcode::TokenTransfer => Entry::new(
                *self,
                8,
                vec![Field::u64_le(0)],
                2,
                vec![Requirement::writable(0), Requirement::signer(2)],
            ),
            Opcode::Approve => Entry::new(
                *self,
                8,
                vec![Field::u64_le(0)],
                3,
                vec![Requirement::writable(0), Requirement::signer(2)],
            ),
            Opcode::Revoke => Entry::new(
                *self,
                0,
                Vec::new(),
                2,
                vec![Requirement::writable(0), Requirement::signer(1)],
            ),
            Opcode::SetAuthority => Entry::new(
                *self,
                1,
                vec![Field::u8(0), Field::optional_identifier(1)],
                2,
                vec![Requirement::writable(0), Requirement::signer(1)],
            ),
            Opcode::MintTo => Entry::new(
                *self,
                8,
                vec![Field::u64_le(0)],
                3,
                vec![Requirement::writable(0), Requirement::writable(1), Requirement::signer(2)],
            ),
            Opcode::Burn => Entry::new(
                *self,
                8,
                vec![Field::u64_le(0)],
                3,
                vec![Requirement::writable(0), Requirement::writable(1), Requirement::signer(2)],
            ),
            Opcode::CloseAccount => Entry::new(
                *self,
                0,
                Vec::new(),
                3,
                vec![Requirement::writable(0), Requirement::writable(1), Requirement::signer(2)],
            ),
            Opcode::FreezeAccount => Entry::new(
                *self,
                0,
                Vec::new(),
                3,
                vec![Requirement::writable(0), Requirement::signer(2)],
            ),
            Opcode::ThawAccount => Entry::new(
                *self,
                0,
                Vec::new(),
                3,
                vec![Requirement::writable(0), Requirement::signer(2)],
            ),
            Opcode::TransferChecked => Entry::new(
                *self,
                9,
                vec![Field::u64_le(0), Field::decimals(8)],
                4,
                vec![Requirement::writable(0), Requirement::writable(2), Requirement::signer(3)],
            ),
            Opcode::ApproveChecked => Entry::new(
                *self,
                9,
                vec![Field::u64_le(0), Field::decimals(8)],
                4,
                vec![Requirement::writable(0), Requirement::signer(3)],
            ),
            Opcode::MintToChecked => Entry::new(
                *self,
                9,
                vec![Field::u64_le(0), Field::decimals(8)],
                3,
                vec![Requirement::writable(0), Requirement::writable(1), Requirement::signer(2)],
            ),
            Opcode::BurnChecked => Entry::new(
                *self,
                9,
                vec![Field::u64_le(0), Field::decimals(8)],
                3,
                vec![Requirement::writable(0), Requirement::writable(1), Requirement::signer(2)],
            ),
            Opcode::SyncNative => Entry::new(
                *self,
                0,
                Vec::new(),
                1,
                vec![Requirement::writable(0)],
            ),
        };
        proof {
            assert(entry@ =~~= self.spec_entry());
        }
        entry
    }

    /// The least number of payload bytes this operation accepts.
    pub open spec fn spec_min_payload_len(self) -> nat {
        self.spec_entry().min_payload_len
    }

    /// The fields of this operation's payload.
    pub open spec fn spec_layout(self) -> Seq<Field> {
        self.spec_entry().layout
    }

    /// The least number of accounts this operation accepts.
    pub open spec fn spec_min_accounts(self) -> nat {
        self.spec_entry().min_accounts
    }

    /// What this operation demands of its accounts, in the order in which it
    /// is checked.
    pub open spec fn spec_requirements(self) -> Seq<Requirement> {
        self.spec_entry().requirements
    }
}

/// The number of payload bytes that the fields of `layout` cannot do without:
/// up to the end of the last field, or up to its start where it may be left
/// out.
pub open spec fn mandatory_len(layout: Seq<Field>) -> nat {
    if layout.len() == 0 {
        0
    } else if layout.last().kind.spec_is_optional() {
        layout.last().offset as nat
    } else {
        layout.last().end()
    }
}

impl EntryView {
    /// What holds of every row of the table:
    ///
    /// - each field is as wide as its kind says;
    /// - the fields lie one behind the other, the first at the start of the
    ///   payload;
    /// - only the last field may be left out;
    /// - the least payload length is just what the fields that cannot be left
    ///   out take;
    /// - the demands on the accounts are listed by ascending position.
    pub open spec fn well_formed(self) -> bool {
        &&& forall|i: int|
            0 <= i < self.layout.len() ==> (#[trigger] self.layout[i]).width
                == self.layout[i].kind.spec_width()
        &&& forall|i: int|
            0 <= i < self.layout.len() ==> (#[trigger] self.layout[i]).offset == (if i == 0 {
                0
            } else {
                self.layout[i - 1].end()
            })
        &&& forall|i: int|
            0 <= i < self.layout.len() - 1 ==> !(#[trigger] self.layout[i]).kind.spec_is_optional()
        &&& self.min_payload_len == mandatory_len(self.layout)
        &&& forall|i: int, j: int|
            0 <= i <= j < self.requirements.len() ==> (#[trigger] self.requirements[i]).index
                <= (#[trigger] self.requirements[j]).index
    }
}

/// Every row of the table is well formed and is the row of its own operation.
pub proof fn lemma_rows_well_formed(opcode: Opcode)
    ensures
        opcode.spec_entry().well_formed(),
        opcode.spec_entry().opcode == opcode,
{
}

/// An operation is selected by its own discriminator and by no other.
pub proof fn lemma_discriminator_selects(opcode: Opcode, discriminator: u8)
    ensures
        Opcode::spec_from_discriminator(discriminator) == Some(opcode) <==> discriminator
            == opcode.spec_discriminator(),
{
}

/// The discriminators that select an operation are those from 0 to 12 and
/// those from 20 to 35.
pub proof fn lemma_known_discriminators(discriminator: u8)
    ensures
        spec_lookup(discriminator) is Some <==> discriminator <= 12 || 20 <= discriminator <= 35,
{
}

/// The table: the row that `discriminator` selects, if any.
pub open spec fn spec_lookup(discriminator: u8) -> Option<EntryView> {
    match Opcode::spec_from_discriminator(discriminator) {
        Some(opcode) => Some(opcode.spec_entry()),
        None => None,
    }
}

/// Looks up the row that `discriminator` selects. There is none for a
/// discriminator outside the two ranges 0 to 12 and 20 to 35.
pub fn lookup(discriminator: u8) -> (entry: Option<Entry>)
    ensures
        match entry {
            Some(e) => spec_lookup(discriminator) == Some(e@),
            None => spec_lookup(discriminator) is None,
        },
{
    match Opcode::from_discriminator(discriminator) {
        Some(opcode) => Some(opcode.entry()),
        None => None,
    }
}

} // verus!
