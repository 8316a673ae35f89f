//! Holding accounts against what an operation demands of them.

use instruction_dispatch::account::{
    check_requirements, require_accounts, require_signer, require_writable,
};
use instruction_dispatch::{Account, Capability, Failure, Requirement};

fn account(is_signer: bool, is_writable: bool) -> Account {
    Account { address: [1; 32], is_signer, is_writable }
}

#[test]
fn constructors() {
    assert_eq!(Requirement::signer(3), Requirement { index: 3, capability: Capability::Signer });
    assert_eq!(
        Requirement::writable(0),
        Requirement { index: 0, capability: Capability::Writable }
    );
}

#[test]
fn a_single_demand() {
    let accounts = [account(true, false), account(false, true)];
    assert_eq!(Requirement::signer(0).check(&accounts), Ok(()));
    assert_eq!(Requirement::signer(1).check(&accounts), Err(Failure::MissingSignature));
    assert_eq!(Requirement::writable(0).check(&accounts), Err(Failure::AccountNotWritable));
    assert_eq!(Requirement::writable(1).check(&accounts), Ok(()));
}

#[test]
fn an_account_that_was_not_supplied_holds_nothing() {
    let accounts = [account(true, true)];
    assert_eq!(Requirement::signer(1).check(&accounts), Err(Failure::MissingSignature));
    assert_eq!(Requirement::writable(1).check(&accounts), Err(Failure::AccountNotWritable));
    assert_eq!(Requirement::signer(usize::MAX).check(&accounts), Err(Failure::MissingSignature));
    assert_eq!(Requirement::signer(0).check(&[]), Err(Failure::MissingSignature));
}

#[test]
fn no_demands_are_always_met() {
    assert_eq!(check_requirements(&[], &[]), Ok(()));
    assert_eq!(check_requirements(&[], &[account(false, false)]), Ok(()));
}

#[test]
fn all_demands_met() {
    let demands = [Requirement::signer(0), Requirement::writable(0), Requirement::writable(1)];
    let accounts = [account(true, true), account(false, true)];
    assert_eq!(check_requirements(&demands, &accounts), Ok(()));
}

#[test]
fn the_first_unmet_demand_is_reported() {
    let accounts = [account(false, false), account(false, false)];

    let signer_first = [Requirement::signer(0), Requirement::writable(0)];
    assert_eq!(check_requirements(&signer_first, &accounts), Err(Failure::MissingSignature));

    let writable_first = [Requirement::writable(0), Requirement::signer(0)];
    assert_eq!(check_requirements(&writable_first, &accounts), Err(Failure::AccountNotWritable));

    let later = [Requirement::writable(1), Requirement::signer(0)];
    assert_eq!(check_requirements(&later, &accounts), Err(Failure::AccountNotWritable));
}

#[test]
fn met_demands_are_passed_over() {
    let accounts = [account(true, true), account(true, false), account(false, true)];
    let demands = [
        Requirement::signer(0),
        Requirement::writable(0),
        Requirement::signer(1),
        Requirement::writable(1),
        Requirement::signer(2),
    ];
    assert_eq!(check_requirements(&demands, &accounts), Err(Failure::AccountNotWritable));
    assert_eq!(check_requirements(&demands[..3], &accounts), Ok(()));
    assert_eq!(check_requirements(&demands[4..], &accounts), Err(Failure::MissingSignature));
}

#[test]
fn the_same_accounts_give_the_same_report() {
    let accounts = [account(false, false), account(false, false)];
    let demands = [Requirement::writable(0), Requirement::signer(1)];
    let first = check_requirements(&demands, &accounts);
    for _ in 0..10 {
        assert_eq!(check_requirements(&demands, &accounts), first);
    }
}

#[test]
fn counting_accounts() {
    let accounts = [account(false, false), account(false, false)];
    assert_eq!(require_accounts(&accounts, 0), Ok(()));
    assert_eq!(require_accounts(&accounts, 2), Ok(()));
    assert_eq!(require_accounts(&accounts, 3), Err(Failure::NotEnoughAccounts));
    assert_eq!(require_accounts(&[], 1), Err(Failure::NotEnoughAccounts));
    assert_eq!(require_accounts(&[], 0), Ok(()));
}

#[test]
fn single_flags() {
    let accounts = [account(true, false), account(false, true)];
    assert_eq!(require_signer(&accounts, 0), Ok(()));
    assert_eq!(require_signer(&accounts, 1), Err(Failure::MissingSignature));
    assert_eq!(require_signer(&accounts, 2), Err(Failure::MissingSignature));
    assert_eq!(require_writable(&accounts, 0), Err(Failure::AccountNotWritable));
    assert_eq!(require_writable(&accounts, 1), Ok(()));
    assert_eq!(require_writable(&accounts, 2), Err(Failure::AccountNotWritable));
}
