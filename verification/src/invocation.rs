//! The invocations that a validated instruction entitles its caller to make.

use crate::wire::Identifier;
use vstd::prelude::*;

verus! {

/// Which authority of a mint or token account is being changed.
#[derive(Clone, Copy, Debug, PartialEq, Eq, Structural)]
pub enum AuthorityType {
    /// The authority that may mint new tokens.
    MintTokens,
    /// The authority that may freeze accounts.
    FreezeAccount,
    /// The owner of a token account.
    AccountOwner,
    /// The authority that may close a token account.
    CloseAccount,
}

/// One call into the system or token program, ready to be made.
///
/// Accounts are named by their position in the list that was validated, so
/// that nothing of an account is copied or kept. Identifiers and amounts are
/// the decoded values.
#[allow(inconsistent_fields)]
#[derive(Clone, Copy, Debug, PartialEq, Eq)]
pub enum Invocation<'a> {
    /// Hands an account to a new owning program.
    Assign { account: usize, owner: Identifier },
    /// Moves lamports from one account to another.
    Transfer { from: usize, to: usize, lamports: u64 },
    /// Creates an account, funded and sized, owned by `owner`.
    CreateAccount { from: usize, to: usize, lamports: u64, space: u64, owner: Identifier },
    /// Gives an account `space` bytes of data.
    Allocate { account: usize, space: u64 },
    /// Gives `space` bytes to an account whose address is derived from a base
    /// account and a seed.
    AllocateWithSeed { account: usize, base: usize, seed: &'a str, space: u64, owner: Identifier },
    /// Hands an account with a derived address to a new owning program.
    AssignWithSeed { account: usize, base: usize, seed: &'a str, owner: Identifier },
    /// Creates an account at an address derived from a base account and a
    /// seed.
    CreateAccountWithSeed {
        from: usize,
        to: usize,
        base: usize,
        seed: &'a str,
        lamports: u64,
        space: u64,
        owner: Identifier,
    },
    /// Consumes the stored nonce of a nonce account and stores the next.
    AdvanceNonceAccount { account: usize, recent_blockhashes_sysvar: usize, authority: usize },
    /// Takes lamports out of a nonce account.
    WithdrawNonceAccount {
        account: usize,
        recipient: usize,
        recent_blockhashes_sysvar: usize,
        rent_sysvar: usize,
        authority: usize,
        lamports: u64,
    },
    /// Turns an account into a nonce account under `authority`.
    InitializeNonceAccount {
        account: usize,
        recent_blockhashes_sysvar: usize,
        rent_sysvar: usize,
        authority: Identifier,
    },
    /// Puts a nonce account under a new authority.
    AuthorizeNonceAccount { account: usize, authority: usize, new_authority: Identifier },
    /// Moves lamports out of an account whose address is derived from a base
    /// account and a seed.
    TransferWithSeed {
        from: usize,
        base: usize,
        to: usize,
        lamports: u64,
        seed: &'a str,
        owner: Identifier,
    },
    /// Brings a nonce account up to the current layout.
    UpgradeNonceAccount { account: usize },
    /// Turns an account into a mint.
    InitializeMint {
        mint: usize,
        rent_sysvar: usize,
        decimals: u8,
        mint_authority: Identifier,
        freeze_authority: Option<Identifier>,
    },
    /// Turns an account into a token account.
    InitializeAccount { account: usize, mint: usize, owner: usize, rent_sysvar: usize },
    /// Moves tokens from one token account to another.
    TokenTransfer { from: usize, to: usize, authority: usize, amount: u64 },
    /// Lets a delegate spend up to `amount` tokens of an account.
    Approve { source: usize, delegate: usize, authority: usize, amount: u64 },
    /// Takes the delegate's allowance back.
    Revoke { source: usize, authority: usize },
    /// Changes, or removes, one authority of a mint or token account.
    SetAuthority {
        account: usize,
        authority: usize,
        authority_type: AuthorityType,
        new_authority: Option<Identifier>,
    },
    /// Mints new tokens into an account.
    MintTo { mint: usize, account: usize, mint_authority: usize, amount: u64 },
    /// Destroys tokens of an account.
    Burn { account: usize, mint: usize, authority: usize, amount: u64 },
    /// Closes a token account and hands its lamports to `destination`.
    CloseAccount { account: usize, destination: usize, authority: usize },
    /// Freezes a token account.
    FreezeAccount { account: usize, mint: usize, freeze_authority: usize },
    /// Thaws a frozen token account.
    ThawAccount { account: usize, mint: usize, freeze_authority: usize },
    /// Moves tokens, stating the mint and its decimals so that they are
    /// checked.
    TransferChecked {
        from: usize,
        mint: usize,
        to: usize,
        authority: usize,
        amount: u64,
        decimals: u8,
    },
    /// Grants an allowance, stating the mint and its decimals.
    ApproveChecked {
        source: usize,
        mint: usize,
        delegate: usize,
        authority: usize,
        amount: u64,
        decimals: u8,
    },
    /// Mints new tokens, stating the mint's decimals.
    MintToChecked { mint: usize, account: usize, mint_authority: usize, amount: u64, decimals: u8 },
    /// Destroys tokens, stating the mint's decimals.
    BurnChecked { account: usize, mint: usize, authority: usize, amount: u64, decimals: u8 },
    /// Brings a wrapped-lamports account in line with its balance.
    SyncNative { native_token: usize },
}

impl<'a> Invocation<'a> {
    /// The positions of the accounts that the invocation names, in the order
    /// in which the invoked program expects them.
    pub open spec fn positions(self) -> Seq<usize> {
        match self {
            Invocation::Assign { account, .. } => seq![account],
            Invocation::Transfer { from, to, .. } => seq![from, to],
            Invocation::CreateAccount { from, to, .. } => seq![from, to],
            Invocation::Allocate { account, .. } => seq![account],
            Invocation::AllocateWithSeed { account, base, .. } => seq![account, base],
            Invocation::AssignWithSeed { account, base, .. } => seq![account, base],
            Invocation::CreateAccountWithSeed { from, to, base, .. } => seq![from, to, base],
            Invocation::AdvanceNonceAccount {
                account,
                recent_blockhashes_sysvar,
                authority,
                ..
            } => seq![account, recent_blockhashes_sysvar, authority],
            Invocation::WithdrawNonceAccount {
                account,
                recipient,
                recent_blockhashes_sysvar,
                rent_sysvar,
                authority,
                ..
            } => seq![account, recipient, recent_blockhashes_sysvar, rent_sysvar, authority],
            Invocation::InitializeNonceAccount {
                account,
                recent_blockhashes_sysvar,
                rent_sysvar,
                ..
            } => seq![account, recent_blockhashes_sysvar, rent_sysvar],
            Invocation::AuthorizeNonceAccount {
                account,
                authority,
                ..
            } => seq![account, authority],
            Invocation::TransferWithSeed { from, base, to, .. } => seq![from, base, to],
            Invocation::UpgradeNonceAccount { account, .. } => seq![account],
            Invocation::InitializeMint { mint, rent_sysvar, .. } => seq![mint, rent_sysvar],
            Invocation::InitializeAccount {
                account,
                mint,
                owner,
                rent_sysvar,
                ..
            } => seq![account, mint, owner, rent_sysvar],
            Invocation::TokenTransfer { from, to, authority, .. } => seq![from, to, authority],
            Invocation::Approve {
                source,
                delegate,
                authority,
                ..
            } => seq![source, delegate, authority],
            Invocation::Revoke { source, authority, .. } => seq![source, authority],
            Invocation::SetAuthority { account, authority, .. } => seq![account, authority],
            Invocation::MintTo {
                mint,
                account,
                mint_authority,
                ..
            } => seq![mint, account, mint_authority],
            Invocation::Burn { account, mint, authority, .. } => seq![account, mint, authority],
            Invocation::CloseAccount {
                account,
                destination,
                authority,
                ..
            } => seq![account, destination, authority],
            Invocation::FreezeAccount {
                account,
                mint,
                freeze_authority,
                ..
            } => seq![account, mint, freeze_authority],
            Invocation::ThawAccount {
                account,
                mint,
                freeze_authority,
                ..
            } => seq![account, mint, freeze_authority],
            Invocation::TransferChecked {
                from,
                mint,
                to,
                authority,
                ..
            } => seq![from, mint, to, authority],
            Invocation::ApproveChecked {
                source,
                mint,
                delegate,
                authority,
                ..
            } => seq![source, mint, delegate, authority],
            Invocation::MintToChecked {
                mint,
                account,
                mint_authority,
                ..
            } => seq![mint, account, mint_authority],
            Invocation::BurnChecked {
                account,
                mint,
                authority,
                ..
            } => seq![account, mint, authority],
            Invocation::SyncNative { native_token, .. } => seq![native_token],
        }
    }

    /// Whether every account that the invocation names lies within a list of
    /// `count` accounts.
    pub open spec fn within(self, count: nat) -> bool {
        forall|i: int| 0 <= i < self.positions().len() ==> self.positions()[i] < count
    }
}

/// What is left to do once an instruction has been accepted.
#[derive(Clone, Copy, Debug, PartialEq, Eq)]
pub enum Action<'a> {
    /// Make this invocation.
    Invoke(Invocation<'a>),
    /// Nothing: the instruction is accepted as it stands.
    Skip,
}

} // verus!
