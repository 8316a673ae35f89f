//! Whole instructions for the system program, as a client would send them.

use instruction_dispatch::{process_instruction, Account, Action, Identifier, Invocation};

fn key(n: u8) -> Identifier {
    [n; 32]
}

fn writable(n: u8, is_signer: bool) -> Account {
    Account { address: key(n), is_signer, is_writable: true }
}

fn readonly(n: u8, is_signer: bool) -> Account {
    Account { address: key(n), is_signer, is_writable: false }
}

const PROGRAM: u8 = 200;
const SYSTEM_PROGRAM: u8 = 0;

#[test]
fn test_allocate() {
    let space: u64 = 100;
    let mut data = vec![3u8];
    data.extend_from_slice(&space.to_le_bytes());
    let accounts = vec![writable(1, true), readonly(SYSTEM_PROGRAM, false)];

    let result = process_instruction(&key(PROGRAM), &accounts, &data);

    assert!(!result.is_err(), "Result: {:?}", result);
    assert_eq!(result, Ok(Action::Invoke(Invocation::Allocate { account: 0, space: 100 })));
}

#[test]
fn test_allocate_with_seed() {
    let accounts = vec![writable(1, false), readonly(2, true)];

    let result = process_instruction(&key(PROGRAM), &accounts, &[4u8]);

    assert!(!result.is_err(), "Result: {:?}", result);
    assert_eq!(result, Ok(Action::Skip));
}

#[test]
fn test_assign() {
    let new_owner = key(9);
    let mut instruction_data = vec![0u8];
    instruction_data.extend_from_slice(new_owner.as_ref());
    let accounts = vec![writable(1, true), readonly(SYSTEM_PROGRAM, false)];

    let result = process_instruction(&key(PROGRAM), &accounts, &instruction_data);

    assert!(!result.is_err(), "Expected success, got: {:?}", result);
    assert_eq!(result, Ok(Action::Invoke(Invocation::Assign { account: 0, owner: new_owner })));
}

#[test]
fn test_assign_with_seed() {
    let accounts = vec![writable(1, false), readonly(2, true)];

    let result = process_instruction(&key(PROGRAM), &accounts, &[5u8, 5u8]);

    assert!(!result.is_err(), "Result: {:?}", result);
    assert_eq!(result, Ok(Action::Skip));
}

#[test]
fn test_authorize_nonce_account() {
    let new_authority = key(7);
    let mut instruction_data = vec![10u8];
    instruction_data.extend_from_slice(new_authority.as_ref());
    let accounts = vec![writable(1, false), readonly(2, true), readonly(SYSTEM_PROGRAM, false)];

    let result = process_instruction(&key(PROGRAM), &accounts, &instruction_data);

    println!("Result: {:?}", result);
    assert_eq!(
        result,
        Ok(Action::Invoke(Invocation::AuthorizeNonceAccount {
            account: 0,
            authority: 1,
            new_authority,
        }))
    );
}

#[test]
fn test_create_account() {
    let owner = key(9);
    let lamports: u64 = 1_000_000;
    let space: u64 = 100;
    let mut data = vec![2u8];
    data.extend_from_slice(&lamports.to_le_bytes());
    data.extend_from_slice(&space.to_le_bytes());
    data.extend_from_slice(owner.as_ref());
    let accounts = vec![writable(1, true), writable(2, true), readonly(SYSTEM_PROGRAM, false)];

    let result = process_instruction(&key(PROGRAM), &accounts, &data);

    assert!(!result.is_err(), "Result: {:?}", result);
    assert_eq!(
        result,
        Ok(Action::Invoke(Invocation::CreateAccount {
            from: 0,
            to: 1,
            lamports: 1_000_000,
            space: 100,
            owner,
        }))
    );
}

#[test]
fn test_create_account_with_seed() {
    let accounts = vec![writable(1, true), writable(2, false), readonly(3, true)];

    let result = process_instruction(&key(PROGRAM), &accounts, &[6u8]);

    assert!(!result.is_err(), "Result: {:?}", result);
    assert_eq!(result, Ok(Action::Skip));
}

#[test]
fn test_initialize_nonce_account() {
    let authority = key(7);
    let mut instruction_data = vec![9u8];
    instruction_data.extend_from_slice(authority.as_ref());
    let accounts = vec![
        writable(1, false),
        readonly(50, false),
        readonly(51, false),
        readonly(SYSTEM_PROGRAM, false),
    ];

    let result = process_instruction(&key(PROGRAM), &accounts, &instruction_data);

    println!("Result: {:?}", result);
    assert_eq!(
        result,
        Ok(Action::Invoke(Invocation::InitializeNonceAccount {
            account: 0,
            recent_blockhashes_sysvar: 1,
            rent_sysvar: 2,
            authority,
        }))
    );
}

#[test]
fn test_transfer() {
    let lamports: u64 = 1_000_000;
    let mut data = vec![1u8];
    data.extend_from_slice(&lamports.to_le_bytes());
    let accounts = vec![writable(1, true), writable(2, false), readonly(SYSTEM_PROGRAM, false)];

    let result = process_instruction(&key(PROGRAM), &accounts, &data);

    assert!(!result.is_err(), "Result: {:?}", result);
    assert_eq!(
        result,
        Ok(Action::Invoke(Invocation::Transfer { from: 0, to: 1, lamports: 1_000_000 }))
    );
}

#[test]
fn test_transfer_with_seed() {
    let lamports: u64 = 1_000_000;
    let mut instruction_data = vec![11u8];
    instruction_data.extend_from_slice(&lamports.to_le_bytes());
    let accounts = vec![writable(1, false), readonly(2, true), writable(3, false)];

    let result = process_instruction(&key(PROGRAM), &accounts, &instruction_data);

    assert!(!result.is_err(), "Result: {:?}", result);
    assert_eq!(result, Ok(Action::Skip));
}

#[test]
fn test_update_nonce_account() {
    let instruction_data = vec![12u8];
    let accounts = vec![writable(1, false), readonly(SYSTEM_PROGRAM, false)];

    let result = process_instruction(&key(PROGRAM), &accounts, &instruction_data);

    println!("Result: {:?}", result);
    assert_eq!(result, Ok(Action::Invoke(Invocation::UpgradeNonceAccount { account: 0 })));
}

#[test]
fn test_withdraw_nonce_account() {
    let lamports: u64 = 1_000_000;
    let mut instruction_data = vec![8u8];
    instruction_data.extend_from_slice(&lamports.to_le_bytes());
    let accounts = vec![
        writable(1, false),
        writable(2, false),
        readonly(50, false),
        readonly(51, false),
        readonly(3, true),
        readonly(SYSTEM_PROGRAM, false),
    ];

    let result = process_instruction(&key(PROGRAM), &accounts, &instruction_data);

    println!("Result: {:?}", result);
    assert_eq!(
        result,
        Ok(Action::Invoke(Invocation::WithdrawNonceAccount {
            account: 0,
            recipient: 1,
            recent_blockhashes_sysvar: 2,
            rent_sysvar: 3,
            authority: 4,
            lamports: 1_000_000,
        }))
    );
}
