//! Accounts as the host runtime presents them, and the capabilities that an
//! operation demands of them.

use crate::failure::Failure;
use crate::wire::Identifier;
use vstd::prelude::*;

verus! {

/// What the host runtime says of one account for the length of one call.
///
/// The account's data and balance stay with the runtime. Only the facts that
/// decide whether an operation may go ahead are held here.
#[derive(Clone, Copy, Debug, PartialEq, Eq)]
pub struct Account {
    /// The account's address.
    pub address: Identifier,
    /// Whether the transaction was signed on behalf of this account.
    pub is_signer: bool,
    /// Whether the call may change this account.
    pub is_writable: bool,
}

/// A capability that an operation can demand of an account.
#[derive(Clone, Copy, Debug, PartialEq, Eq, Structural)]
pub enum Capability {
    /// The account has signed.
    Signer,
    /// The account may be changed.
    Writable,
}

/// The demand that the account at one position holds one capability.
#[derive(Clone, Copy, Debug, PartialEq, Eq, Structural)]
pub struct Requirement {
    /// The position of the account in the list handed to the call.
    pub index: usize,
    /// What that account has to hold.
    pub capability: Capability,
}

/// The demand that the account at `index` has signed.
pub open spec fn signer_at(index: usize) -> Requirement {
    Requirement { index, capability: Capability::Signer }
}

/// The demand that the account at `index` is writable.
pub open spec fn writable_at(index: usize) -> Requirement {
    Requirement { index, capability: Capability::Writable }
}

impl Capability {
    /// Whether `account` holds this capability.
    pub open spec fn held_by(self, account: Account) -> bool {
        match self {
            Capability::Signer => account.is_signer,
            Capability::Writable => account.is_writable,
        }
    }

    /// The failure reported where this capability is missing.
    pub open spec fn failure(self) -> Failure {
        match self {
            Capability::Signer => Failure::MissingSignature,
            Capability::Writable => Failure::AccountNotWritable,
        }
    }
}

impl Requirement {
    /// Demands that the account at `index` has signed.
    pub fn signer(index: usize) -> (requirement: Requirement)
        ensures
            requirement == signer_at(index),
    {
        Requirement { index, capability: Capability::Signer }
    }

    /// Demands that the account at `index` is writable.
    pub fn writable(index: usize) -> (requirement: Requirement)
        ensures
            requirement == writable_at(index),
    {
        Requirement { index, capability: Capability::Writable }
    }

    /// Whether `accounts` meets this demand: an account stands at the index
    /// and holds the capability. An account that was not supplied holds
    /// nothing.
    pub open spec fn met_by(self, accounts: Seq<Account>) -> bool {
        self.index < accounts.len() && self.capability.held_by(accounts[self.index as int])
    }

    /// Checks this demand against `accounts`.
    pub fn check(&self, accounts: &[Account]) -> (result: Result<(), Failure>)
        ensures
            result == (if self.met_by(accounts@) {
                Ok::<(), Failure>(())
            } else {
                Err(self.capability.failure())
            }),
    {
        match self.capability {
            Capability::Signer => {
                if self.index < accounts.len() && accounts[self.index].is_signer {
                    Ok(())
                } else {
                    Err(Failure::MissingSignature)
                }
            },
            Capability::Writable => {
                if self.index < accounts.len() && accounts[self.index].is_writable {
                    Ok(())
                } else {
                    Err(Failure::AccountNotWritable)
                }
            },
        }
    }
}

/// The failure of the first demand, counted from position `start` of the
/// list, that `accounts` does not meet.
pub open spec fn first_violation_from(
    requirements: Seq<Requirement>,
    accounts: Seq<Account>,
    start: int,
) -> Option<Failure>
    decreases requirements.len() - start,
{
    if start < 0 || start >= requirements.len() {
        None
    } else if !requirements[start].met_by(accounts) {
        Some(requirements[start].capability.failure())
    } else {
        first_violation_from(requirements, accounts, start + 1)
    }
}

/// The failure of the first demand in the list that `accounts` does not meet.
/// Demands are taken in the order of the list, and the first one that is not
/// met decides: later ones are not looked at.
pub open spec fn first_violation(requirements: Seq<Requirement>, accounts: Seq<Account>) -> Option<
    Failure,
> {
    first_violation_from(requirements, accounts, 0)
}

/// Why `accounts` is turned down, if it is: too few accounts come before any
/// missing capability.
pub open spec fn rejection(
    accounts: Seq<Account>,
    min_accounts: nat,
    requirements: Seq<Requirement>,
) -> Option<Failure> {
    if accounts.len() < min_accounts {
        Some(Failure::NotEnoughAccounts)
    } else {
        first_violation(requirements, accounts)
    }
}

/// `value`, handed out only where `accounts` is not turned down.
pub open spec fn guarded<T>(
    accounts: Seq<Account>,
    min_accounts: nat,
    requirements: Seq<Requirement>,
    value: T,
) -> Result<T, Failure> {
    match rejection(accounts, min_accounts, requirements) {
        Some(failure) => Err(failure),
        None => Ok(value),
    }
}

/// Where every demand before position `k` is met and the one at `k` is not,
/// the failure reported is that of the demand at `k`, whatever the demands
/// after it would have said.
pub proof fn lemma_first_violation_is_earliest(
    requirements: Seq<Requirement>,
    accounts: Seq<Account>,
    k: int,
)
    requires
        0 <= k < requirements.len(),
        !requirements[k].met_by(accounts),
        forall|j: int| 0 <= j < k ==> requirements[j].met_by(accounts),
    ensures
        first_violation(requirements, accounts) == Some(requirements[k].capability.failure()),
{
    lemma_skip_met(requirements, accounts, 0, k);
}

/// No failure is reported exactly where every demand in the list is met.
pub proof fn lemma_no_violation(requirements: Seq<Requirement>, accounts: Seq<Account>)
    ensures
        first_violation(requirements, accounts) is None <==> forall|j: int|
            0 <= j < requirements.len() ==> requirements[j].met_by(accounts),
{
    if forall|j: int| 0 <= j < requirements.len() ==> requirements[j].met_by(accounts) {
        lemma_skip_met(requirements, accounts, 0, requirements.len() as int);
    } else {
        let bad = choose|j: int| 0 <= j < requirements.len() && !requirements[j].met_by(accounts);
        lemma_violation_found(requirements, accounts, 0, bad);
    }
}

/// A demand that is not met is reported as a missing signature or as an
/// account that is not writable, and as nothing else.
pub proof fn lemma_failures_of_demands(requirements: Seq<Requirement>, accounts: Seq<Account>)
    ensures
        first_violation(requirements, accounts) matches Some(failure) ==> failure
            == Failure::MissingSignature || failure == Failure::AccountNotWritable,
{
    lemma_failures_from(requirements, accounts, 0);
}

/// What [`lemma_failures_of_demands`] says, from any position of the list.
proof fn lemma_failures_from(requirements: Seq<Requirement>, accounts: Seq<Account>, start: int)
    ensures
        first_violation_from(requirements, accounts, start) matches Some(failure) ==> failure
            == Failure::MissingSignature || failure == Failure::AccountNotWritable,
    decreases requirements.len() - start,
{
    if 0 <= start < requirements.len() && requirements[start].met_by(accounts) {
        lemma_failures_from(requirements, accounts, start + 1);
    }
}

/// Demands that are met do not change what is reported.
proof fn lemma_skip_met(
    requirements: Seq<Requirement>,
    accounts: Seq<Account>,
    start: int,
    end: int,
)
    requires
        0 <= start <= end <= requirements.len(),
        forall|j: int| start <= j < end ==> requirements[j].met_by(accounts),
    ensures
        first_violation_from(requirements, accounts, start) == first_violation_from(
            requirements,
            accounts,
            end,
        ),
    decreases end - start,
{
    if start < end {
        lemma_skip_met(requirements, accounts, start + 1, end);
    }
}

/// A demand that is not met, at or after `start`, makes the report a failure.
proof fn lemma_violation_found(
    requirements: Seq<Requirement>,
    accounts: Seq<Account>,
    start: int,
    bad: int,
)
    requires
        0 <= start <= bad < requirements.len(),
        !requirements[bad].met_by(accounts),
    ensures
        first_violation_from(requirements, accounts, start) is Some,
    decreases bad - start,
{
    if start < bad && requirements[start].met_by(accounts) {
        lemma_violation_found(requirements, accounts, start + 1, bad);
    }
}

/// Checks the demands against `accounts` in the order of the list and stops
/// at the first that is not met.
pub fn check_requirements(requirements: &[Requirement], accounts: &[Account]) -> (result: Result<
    (),
    Failure,
>)
    ensures
        result == (match first_violation(requirements@, accounts@) {
            Some(failure) => Err(failure),
            None => Ok::<(), Failure>(()),
        }),
{
    let mut i: usize = 0;
    while i < requirements.len()
        invariant
            i <= requirements.len(),
            first_violation(requirements@, accounts@) == first_violation_from(
                requirements@,
                accounts@,
                i as int,
            ),
        decreases requirements.len() - i,
    {
        match requirements[i].check(accounts) {
            Ok(()) => {},
            Err(failure) => {
                return Err(failure);
            },
        }
        i += 1;
    }
    Ok(())
}

/// Checks that at least `count` accounts were supplied.
pub fn require_accounts(accounts: &[Account], count: usize) -> (result: Result<(), Failure>)
    ensures
        result == (if accounts@.len() < count {
            Err::<(), Failure>(Failure::NotEnoughAccounts)
        } else {
            Ok(())
        }),
{
    if accounts.len() < count {
        Err(Failure::NotEnoughAccounts)
    } else {
        Ok(())
    }
}

/// Checks that the account at `index` was supplied and has signed.
pub fn require_signer(accounts: &[Account], index: usize) -> (result: Result<(), Failure>)
    ensures
        result == (if signer_at(index).met_by(accounts@) {
            Ok::<(), Failure>(())
        } else {
            Err(Failure::MissingSignature)
        }),
{
    Requirement::signer(index).check(accounts)
}

/// Checks that the account at `index` was supplied and is writable.
pub fn require_writable(accounts: &[Account], index: usize) -> (result: Result<(), Failure>)
    ensures
        result == (if writable_at(index).met_by(accounts@) {
            Ok::<(), Failure>(())
        } else {
            Err(Failure::AccountNotWritable)
        }),
{
    Requirement::writable(index).check(accounts)
}

} // verus!
